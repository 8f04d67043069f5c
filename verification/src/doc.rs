//! Documents: where their content comes from, and the bookkeeping that keeps
//! the proxy's copy and the editor's caches in step with edits.
use vstd::multiset::Multiset;
use vstd::prelude::*;

use crate::panel::PanelKind;
use crate::window_tab::Focus;

verus! {

/// The id of a buffer, shared by the editor and the proxy.
#[derive(Debug, Clone, Copy, PartialEq, Eq, Hash, Structural)]
pub struct BufferId(pub u64);

/// A version of a file from source control.
#[derive(Debug, Clone, PartialEq, Eq, Hash)]
pub struct DocHistory {
    pub path: String,
    pub version: String,
}

/// Where the content of a document comes from.
#[derive(Debug, Clone, PartialEq, Eq, Hash)]
pub enum DocContent {
    /// A file at some location.
    File { path: String, read_only: bool },
    /// A local document, which doesn't need to be synced to the disk.
    Local,
    /// A document of an old version in the source control
    History(DocHistory),
    /// A new file which doesn't exist in the file system
    Scratch { id: BufferId, name: String },
}

impl DocContent {
    pub open spec fn spec_read_only(&self) -> bool {
        match self {
            DocContent::File { read_only, .. } => *read_only,
            DocContent::Local => false,
            DocContent::History(_) => true,
            DocContent::Scratch { .. } => false,
        }
    }

    pub fn is_local(&self) -> (r: bool)
        ensures
            r == (*self is Local),
    {
        match self {
            DocContent::Local => true,
            _ => false,
        }
    }

    pub fn is_file(&self) -> (r: bool)
        ensures
            r == (*self is File),
    {
        match self {
            DocContent::File { .. } => true,
            _ => false,
        }
    }

    /// Whether edits to the document are refused: read-only files and
    /// historical versions.
    pub fn read_only(&self) -> (r: bool)
        ensures
            r == self.spec_read_only(),
    {
        match self {
            DocContent::File { read_only, .. } => *read_only,
            DocContent::Local => false,
            DocContent::History(_) => true,
            DocContent::Scratch { .. } => false,
        }
    }

    /// The path of a file document.
    pub fn path(&self) -> (r: Option<&String>)
        ensures
            match *self {
                DocContent::File { path, .. } => r == Some(&path),
                _ => r is None,
            },
    {
        match self {
            DocContent::File { path, .. } => Some(path),
            DocContent::Local => None,
            DocContent::History(_) => None,
            DocContent::Scratch { .. } => None,
        }
    }
}

/// Whether an edit goes ahead on a document with content `content`: an edit
/// that changes the buffer is refused on read-only content, and one that
/// does not (a move, a copy) always goes ahead. A raw edit always changes
/// the buffer.
pub fn edit_allowed(content: &DocContent, changes_buffer: bool) -> (r: bool)
    ensures
        r == !(content.spec_read_only() && changes_buffer),
{
    !(content.read_only() && changes_buffer)
}

/// Whether the reply to a save of revision `saved_rev` marks the document
/// pristine (and runs what was to follow the save): only a successful reply,
/// and only if the buffer is still at that revision, `current_rev`.
pub fn save_marks_pristine(reply_ok: bool, saved_rev: u64, current_rev: u64) -> (r: bool)
    ensures
        r == (reply_ok && saved_rev == current_rev),
{
    reply_ok && current_rev == saved_rev
}

/// The revisions that a batch of `count` edits, which brought the buffer to
/// revision `rev`, reports to the proxy: one per edit, in order, ending at
/// `rev`.
pub open spec fn spec_update_revisions(rev: u64, count: nat) -> Seq<u64> {
    Seq::new(count, |i: int| (rev - count + i + 1) as u64)
}

/// The revisions of the updates that `Doc::apply_deltas` sends for `count`
/// edits that brought the buffer to revision `rev`.
pub fn update_revisions(rev: u64, count: usize) -> (r: Vec<u64>)
    requires
        count <= rev,
    ensures
        r@ == spec_update_revisions(rev, count as nat),
{
    let base = rev - count as u64;
    let mut r: Vec<u64> = Vec::new();
    let mut i: usize = 0;
    while i < count
        invariant
            i <= count <= rev,
            base == rev - count,
            r@ == spec_update_revisions(rev, count as nat).subrange(0, i as int),
        decreases count - i,
    {
        r.push(base + i as u64 + 1);
        assert(r@ =~= spec_update_revisions(rev, count as nat).subrange(0, i + 1));
        i = i + 1;
    }
    assert(r@ =~= spec_update_revisions(rev, count as nat));
    r
}

/// Whether the cursor blinks, given the focus (`None` once the window tab is
/// gone) and whether some view holds the keyboard focus.
pub open spec fn spec_should_blink(focus: Option<Focus>, keyboard_focus: bool) -> bool {
    match focus {
        None => false,
        Some(f) => (f == Focus::Workbench || f == Focus::Palette || f == Focus::Panel(PanelKind::Search)
            || f == Focus::Panel(PanelKind::SourceControl)) || keyboard_focus,
    }
}

pub fn should_blink(focus: Option<Focus>, keyboard_focus: bool) -> (r: bool)
    ensures
        r == spec_should_blink(focus, keyboard_focus),
{
    let Some(focus) = focus else {
        return false;
    };
    match focus {
        Focus::Workbench | Focus::Palette | Focus::Panel(PanelKind::Search) | Focus::Panel(
            PanelKind::SourceControl,
        ) => true,
        _ => keyboard_focus,
    }
}

/// Whether an automatic save that was scheduled at revision `scheduled_rev`
/// goes ahead: only if nothing was edited since and there are unsaved
/// changes.
pub fn autosave_due(scheduled_rev: u64, current_rev: u64, pristine: bool) -> (r: bool)
    ensures
        r == (scheduled_rev == current_rev && !pristine),
{
    !(current_rev != scheduled_rev || pristine)
}

/// Whether a change schedules an automatic save: the interval is set and the
/// document is a file.
pub fn autosave_scheduled(autosave_interval: u64, content: &DocContent) -> (r: bool)
    ensures
        r == (autosave_interval > 0 && content is File),
{
    autosave_interval > 0 && content.is_file()
}

/// How the find results of a document catch up with the find bar.
#[derive(Debug, Clone, Copy, PartialEq, Eq, Structural)]
pub struct FindRevUpdate {
    /// The results were made for another search: they are reset and take
    /// the search's revision.
    pub reset: bool,
    /// The occurrences are cleared too: the search is now empty.
    pub clear_occurrences: bool,
}

/// What `Doc::update_find` does first, given the revision of the search,
/// that of the document's results, and the search text (if any).
pub fn find_rev_update(find_rev: u64, result_rev: u64, search: Option<&str>) -> (r: FindRevUpdate)
    ensures
        r.reset == (find_rev != result_rev),
        r.clear_occurrences == (find_rev != result_rev && match search {
            Some(s) => s@.len() == 0,
            None => true,
        }),
{
    if find_rev == result_rev {
        return FindRevUpdate { reset: false, clear_occurrences: false };
    }
    let empty = match search {
        Some(s) => s.unicode_len() == 0,
        None => true,
    };
    FindRevUpdate { reset: true, clear_occurrences: empty }
}

/// Whether a search of the document is started: the results wait for one,
/// and there is a non-empty search text.
pub fn find_should_start(waiting: bool, search: Option<&str>) -> (r: bool)
    ensures
        r == (waiting && match search {
            Some(s) => s@.len() > 0,
            None => false,
        }),
{
    if !waiting {
        return false;
    }
    match search {
        Some(s) => s.unicode_len() > 0,
        None => false,
    }
}

/// Consecutive repeats removed (`Itertools::dedup`).
pub open spec fn dedup_seq(s: Seq<usize>) -> Seq<usize>
    decreases s.len(),
{
    if s.len() <= 1 {
        s
    } else if s[s.len() - 2] == s.last() {
        dedup_seq(s.drop_last())
    } else {
        dedup_seq(s.drop_last()).push(s.last())
    }
}

pub open spec fn sorted(s: Seq<usize>) -> bool {
    forall|i: int, j: int| 0 <= i <= j < s.len() ==> s[i] <= s[j]
}

/// The lines of the sticky headers of `line`: the header lines at or above
/// it, with consecutive repeats removed, in ascending order.
pub open spec fn spec_sticky_header_lines(header_lines: Seq<usize>, line: usize) -> Multiset<usize> {
    dedup_seq(header_lines.filter(|l: usize| l <= line)).to_multiset()
}

proof fn lemma_dedup_last(s: Seq<usize>)
    requires
        s.len() > 0,
    ensures
        dedup_seq(s).len() > 0,
        dedup_seq(s).last() == s.last(),
    decreases s.len(),
{
    if s.len() > 1 {
        lemma_dedup_last(s.drop_last());
    }
}

fn filter_dedup(header_lines: &Vec<usize>, line: usize) -> (r: Vec<usize>)
    ensures
        r@ == dedup_seq(header_lines@.filter(|l: usize| l <= line)),
        forall|i: int| 0 <= i < r@.len() ==> r@[i] <= line,
{
    let mut r: Vec<usize> = Vec::new();
    let mut i: usize = 0;
    let ghost f = |l: usize| l <= line;
    while i < header_lines.len()
        invariant
            i <= header_lines@.len(),
            f == (|l: usize| l <= line),
            r@ == dedup_seq(header_lines@.subrange(0, i as int).filter(f)),
            forall|j: int| 0 <= j < r@.len() ==> r@[j] <= line,
        decreases header_lines.len() - i,
    {
        let l = header_lines[i];
        let ghost pre = header_lines@.subrange(0, i as int);
        assert(header_lines@.subrange(0, i + 1) =~= pre.push(l));
        proof {
            reveal(Seq::filter);
            assert(pre.push(l).drop_last() =~= pre);
        }
        if l <= line {
            let ghost fp = pre.filter(f);
            assert(pre.push(l).filter(f) == fp.push(l));
            if r.len() > 0 && r[r.len() - 1] == l {
                proof {
                    if fp.len() > 0 {
                        lemma_dedup_last(fp);
                    }
                    assert(fp.len() > 0);
                    lemma_dedup_last(fp);
                    assert(fp.push(l).drop_last() =~= fp);
                    assert(fp.push(l)[fp.len() - 1] == fp.last());
                }
                assert(dedup_seq(fp.push(l)) == dedup_seq(fp));
            } else {
                proof {
                    if fp.len() > 0 {
                        lemma_dedup_last(fp);
                    }
                }
                assert(fp.push(l).drop_last() =~= fp);
                r.push(l);
            }
        } else {
            assert(pre.push(l).filter(f) == pre.filter(f));
        }
        i = i + 1;
    }
    assert(header_lines@.subrange(0, header_lines@.len() as int) =~= header_lines@);
    r
}

/// The sticky-header lines for `line`, from the lines that hold the headers
/// enclosing it (innermost last, as the syntax tree reports them): those at
/// or above `line`, consecutive repeats removed, in ascending order.
pub fn sticky_header_lines(header_lines: &Vec<usize>, line: usize) -> (r: Vec<usize>)
    ensures
        sorted(r@),
        r@.to_multiset() == spec_sticky_header_lines(header_lines@, line),
        forall|i: int| 0 <= i < r@.len() ==> r@[i] <= line,
{
    let d = filter_dedup(header_lines, line);
    let mut out: Vec<usize> = Vec::new();
    let mut i: usize = 0;
    assert(out@ =~= d@.subrange(0, 0));
    while i < d.len()
        invariant
            i <= d@.len(),
            sorted(out@),
            out@.to_multiset() == d@.subrange(0, i as int).to_multiset(),
            forall|j: int| 0 <= j < d@.len() ==> d@[j] <= line,
            forall|j: int| 0 <= j < out@.len() ==> out@[j] <= line,
        decreases d.len() - i,
    {
        let x = d[i];
        let mut k: usize = 0;
        while k < out.len() && out[k] <= x
            invariant
                k <= out@.len(),
                forall|j: int| 0 <= j < k ==> out@[j] <= x,
            decreases out.len() - k,
        {
            k = k + 1;
        }
        let ghost before = out@;
        out.insert(k, x);
        assert(d@.subrange(0, i + 1) =~= d@.subrange(0, i as int).push(x));
        proof {
            vstd::seq_lib::to_multiset_insert(before, k as int, x);
            vstd::seq_lib::to_multiset_build(d@.subrange(0, i as int), x);
        }
        assert(out@.to_multiset() == before.to_multiset().insert(x));
        assert forall|j: int| 0 <= j < out@.len() implies out@[j] <= line by {
            if j < k {
                assert(out@[j] == before[j]);
            } else if j > k {
                assert(out@[j] == before[j - 1]);
            }
        }
        assert(d@.subrange(0, i as int).push(x).to_multiset() == d@.subrange(0, i as int).to_multiset().insert(x));
        assert forall|a: int, b: int| 0 <= a <= b < out@.len() implies out@[a] <= out@[b] by {
            if a < k && b > k {
                assert(before[a] <= before[b - 1]);
            } else if a < k && b == k {
            } else if a == k && b > k {
                assert(k < before.len());
                assert(before[k as int] > x);
                assert(before[k as int] <= before[b - 1]);
            } else if a > k {
                assert(before[a - 1] <= before[b - 1]);
            } else {
            }
        }
        i = i + 1;
    }
    assert(d@.subrange(0, d@.len() as int) =~= d@);
    out
}

} // verus!
