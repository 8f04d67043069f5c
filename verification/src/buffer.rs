//! The proxy's copy of an open file: its text, its revision, and how edits
//! from the editor are applied to it.
use vstd::prelude::*;

use crate::doc::{BufferId, spec_update_revisions};
use crate::text::concat;
use vstd::string::StrSliceExecFns;
use vstd::utf8::{decode_utf8, encode_utf8, valid_utf8};

verus! {

/// `std::time::SystemTime`, the modification time of a file.
#[verifier::external_type_specification]
#[verifier::external_body]
pub struct ExSystemTime(std::time::SystemTime);

/// One piece of an edited text: a byte range copied from the text before the
/// edit, or inserted bytes.
#[derive(Debug, Clone)]
pub enum DeltaElement {
    Copy(usize, usize),
    Insert(Vec<u8>),
}

/// An edit, describing the new text as a sequence of pieces: the
/// `lapce_xi_rope::RopeDelta` that the editor sends, with its inserted ropes
/// as bytes. Applying it is what `Delta::apply` does, concatenating the
/// pieces (see [`apply_els`]).
#[derive(Debug, Clone)]
pub struct TextDelta {
    pub els: Vec<DeltaElement>,
    pub base_len: usize,
}

/// The bytes that a piece contributes to the new text.
pub open spec fn piece(el: DeltaElement, base: Seq<u8>) -> Seq<u8> {
    match el {
        DeltaElement::Copy(b, e) => base.subrange(b as int, e as int),
        DeltaElement::Insert(bytes) => bytes@,
    }
}

/// The text that the pieces `els` build from `base`.
pub open spec fn apply_els(els: Seq<DeltaElement>, base: Seq<u8>) -> Seq<u8>
    decreases els.len(),
{
    if els.len() == 0 {
        Seq::empty()
    } else {
        apply_els(els.drop_last(), base) + piece(els.last(), base)
    }
}

impl TextDelta {
    /// Whether the delta is an edit of a text of `len` bytes: it is made for
    /// that length and copies only ranges within it.
    pub open spec fn applies_to(&self, len: nat) -> bool {
        &&& self.base_len == len
        &&& forall|i: int|
            0 <= i < self.els@.len() ==> match #[trigger] self.els@[i] {
                DeltaElement::Copy(b, e) => b <= e && e <= len,
                DeltaElement::Insert(_) => true,
            }
    }

    /// The new text.
    pub fn apply(&self, base: &Vec<u8>) -> (r: Vec<u8>)
        requires
            self.applies_to(base@.len()),
        ensures
            r@ == apply_els(self.els@, base@),
    {
        let mut out: Vec<u8> = Vec::new();
        let mut i: usize = 0;
        while i < self.els.len()
            invariant
                i <= self.els@.len(),
                self.applies_to(base@.len()),
                out@ == apply_els(self.els@.subrange(0, i as int), base@),
            decreases self.els.len() - i,
        {
            let ghost before = out@;
            match &self.els[i] {
                DeltaElement::Copy(b, e) => {
                    let mut k: usize = *b;
                    while k < *e
                        invariant
                            *b <= k <= *e <= base@.len(),
                            out@ == before + base@.subrange(*b as int, k as int),
                        decreases *e - k,
                    {
                        out.push(base[k]);
                        assert(base@.subrange(*b as int, k + 1) =~= base@.subrange(*b as int, k as int).push(base@[k as int]));
                        assert(out@ =~= before + base@.subrange(*b as int, k + 1));
                        k = k + 1;
                    }
                },
                DeltaElement::Insert(bytes) => {
                    let mut k: usize = 0;
                    while k < bytes.len()
                        invariant
                            k <= bytes@.len(),
                            out@ == before + bytes@.subrange(0, k as int),
                        decreases bytes.len() - k,
                    {
                        out.push(bytes[k]);
                        assert(bytes@.subrange(0, k + 1) =~= bytes@.subrange(0, k as int).push(bytes@[k as int]));
                        assert(out@ =~= before + bytes@.subrange(0, k + 1));
                        k = k + 1;
                    }
                    assert(bytes@.subrange(0, bytes@.len() as int) =~= bytes@);
                },
            }
            assert(self.els@.subrange(0, i + 1).drop_last() =~= self.els@.subrange(0, i as int));
            i = i + 1;
        }
        assert(self.els@.subrange(0, self.els@.len() as int) =~= self.els@);
        out
    }
}

/// Why the content of a file could not be read.
#[derive(Debug, Clone)]
pub enum LoadFailure {
    PermissionDenied,
    NotFound,
    OutOfMemory,
    /// Any other failure, with its message.
    Other(String),
}

/// The text of the error that `String::from_utf8` reports for `bytes`
/// where they are not UTF-8 (where the first bad sequence starts and how
/// long it is).
pub uninterp spec fn spec_utf8_error_text(bytes: Seq<u8>) -> Seq<char>;

/// `String::from_utf8`, with the error turned into its text.
///
/// Trusted: as the standard library documents, the conversion succeeds
/// exactly on valid UTF-8 and then holds the decoded characters; the text
/// of the error is named `spec_utf8_error_text` of the bytes.
#[verifier::external_body]
fn string_from_utf8(bytes: Vec<u8>) -> (r: Result<String, String>)
    ensures
        (r is Ok) == valid_utf8(bytes@),
        r matches Ok(s) ==> s@ == decode_utf8(bytes@),
        r matches Err(m) ==> m@ == spec_utf8_error_text(bytes@),
{
    match String::from_utf8(bytes) {
        Ok(s) => Ok(s),
        Err(e) => Err(format!("{}", e)),
    }
}

/// The content of a file from the outcome of reading its bytes: the
/// bytes decoded as UTF-8; a failed read is passed on, and bytes that are
/// not UTF-8 are an unsupported file, described by the decoding error.
pub fn load_file(read: Result<Vec<u8>, LoadFailure>) -> (r: Result<String, LoadFailure>)
    ensures
        match read {
            Err(f) => r == Err::<String, LoadFailure>(f),
            Ok(bytes) => if valid_utf8(bytes@) {
                r matches Ok(s) && s@ == decode_utf8(bytes@)
            } else {
                r matches Err(LoadFailure::Other(m)) && m@ == spec_utf8_error_text(bytes@)
            },
        },
{
    match read {
        Err(f) => Err(f),
        Ok(bytes) => match string_from_utf8(bytes) {
            Ok(s) => Ok(s),
            Err(m) => Err(LoadFailure::Other(m)),
        },
    }
}

/// Why a save was refused.
#[derive(Debug, Clone, Copy, PartialEq, Eq, Structural)]
pub enum SaveError {
    ReadOnly,
    WrongRevision,
}

impl SaveError {
    pub fn message(&self) -> (r: &'static str)
        ensures
            r@ == (match *self {
                SaveError::ReadOnly => "can't save to read only file"@,
                SaveError::WrongRevision => "not the right rev"@,
            }),
    {
        match self {
            SaveError::ReadOnly => "can't save to read only file",
            SaveError::WrongRevision => "not the right rev",
        }
    }
}

/// The text shown for a file that could not be read, and whether the buffer
/// is then read-only.
pub open spec fn spec_failure_content(failure: LoadFailure) -> (Seq<char>, bool) {
    match failure {
        LoadFailure::PermissionDenied => ("Permission Denied"@, true),
        LoadFailure::NotFound => (Seq::empty(), false),
        LoadFailure::OutOfMemory => ("File too big (out of memory)"@, false),
        LoadFailure::Other(msg) => ("Not supported: "@ + msg@, true),
    }
}

/// A file open in the proxy. Its text is held as UTF-8 bytes, in place of
/// a `lapce_xi_rope::Rope`: an edit arrives as a rope delta, whose
/// application to a rope could only be stated through a name for its
/// result, while applying the delta's pieces to the bytes is stated
/// exactly (see [`apply_els`]), so that the text after every accepted edit
/// is known. The buffer only ever reads its bytes and applies edits to
/// them.
#[derive(Debug)]
pub struct Buffer {
    pub read_only: bool,
    pub id: BufferId,
    /// The content, as UTF-8 bytes.
    pub text: Vec<u8>,
    pub path: String,
    pub rev: u64,
    pub mod_time: Option<std::time::SystemTime>,
}

/// The text of a buffer after reading its file: the content, or the message
/// shown in its place.
pub open spec fn spec_loaded_content(loaded: Result<String, LoadFailure>) -> (Seq<char>, bool) {
    match loaded {
        Ok(s) => (s@, false),
        Err(f) => spec_failure_content(f),
    }
}

/// Whether the proxy applies an update numbered `incoming` to a buffer at
/// revision `current`: only the next revision is applied.
pub open spec fn update_accepted(current: u64, incoming: u64) -> bool {
    incoming == current + 1
}

impl Buffer {
    /// A buffer for the file at `path`, from the outcome of reading it. The
    /// first revision is 1 for a non-empty text and 0 for an empty one.
    pub fn new(
        id: BufferId,
        path: String,
        loaded: Result<String, LoadFailure>,
        mod_time: Option<std::time::SystemTime>,
    ) -> (r: Buffer)
        ensures
            r.id == id,
            r.path == path,
            r.mod_time == mod_time,
            r.text@ == encode_utf8(spec_loaded_content(loaded).0),
            r.read_only == spec_loaded_content(loaded).1,
            r.rev == (if r.text@.len() > 0 { 1u64 } else { 0u64 }),
    {
        let (content, read_only) = match loaded {
            Ok(s) => (s, false),
            Err(LoadFailure::PermissionDenied) => (String::from_str("Permission Denied"), true),
            Err(LoadFailure::NotFound) => (String::new(), false),
            Err(LoadFailure::OutOfMemory) => (String::from_str("File too big (out of memory)"), false),
            Err(LoadFailure::Other(msg)) => (concat("Not supported: ", msg.as_str()), true),
        };
        let text = content.as_str().as_bytes_vec();
        let rev: u64 = if text.len() > 0 { 1 } else { 0 };
        Buffer { read_only, id, text, path, rev, mod_time }
    }

    /// Checks that the buffer may be saved as revision `rev`: it is not
    /// read-only, and `rev` is its current revision.
    pub fn check_save(&self, rev: u64) -> (r: Result<(), SaveError>)
        ensures
            self.read_only ==> r == Err::<(), SaveError>(SaveError::ReadOnly),
            !self.read_only && self.rev != rev ==> r == Err::<(), SaveError>(SaveError::WrongRevision),
            !self.read_only && self.rev == rev ==> r is Ok,
    {
        if self.read_only {
            return Err(SaveError::ReadOnly);
        }
        if self.rev != rev {
            return Err(SaveError::WrongRevision);
        }
        Ok(())
    }

    /// Applies the edit `delta`, numbered `rev`, if it is the next revision;
    /// any other update is ignored.
    pub fn update(&mut self, delta: &TextDelta, rev: u64)
        requires
            old(self).rev < u64::MAX,
            update_accepted(old(self).rev, rev) ==> delta.applies_to(old(self).text@.len()),
        ensures
            update_accepted(old(self).rev, rev) ==> final(self).rev == rev && final(self).text@
                == apply_els(delta.els@, old(self).text@),
            !update_accepted(old(self).rev, rev) ==> final(self).rev == old(self).rev
                && final(self).text@ == old(self).text@,
            final(self).read_only == old(self).read_only,
            final(self).id == old(self).id,
            final(self).path == old(self).path,
            final(self).mod_time == old(self).mod_time,
    {
        if self.rev + 1 != rev {
            return;
        }
        self.rev = self.rev + 1;
        self.text = delta.apply(&self.text);
    }
}

/// The extension of the backup file written while a file is saved: the
/// file's extension followed by `.bak`, or `bak` for a file without one.
pub fn backup_extension(extension: Option<&str>) -> (r: String)
    ensures
        r@ == (match extension {
            Some(e) => e@ + ".bak"@,
            None => "bak"@,
        }),
{
    match extension {
        Some(e) => concat(e, ".bak"),
        None => String::from_str("bak"),
    }
}

/// The updates that a document sends for a batch of edits are exactly those
/// that the proxy's buffer applies one after another: each is numbered one
/// past the revision before it, starting one past the revision the batch
/// started from.
pub proof fn law_batch_updates_are_applied_in_turn(start: u64, count: nat)
    requires
        start + count <= u64::MAX,
    ensures
        ({
            let revs = spec_update_revisions((start + count) as u64, count);
            &&& revs.len() == count
            &&& count > 0 ==> update_accepted(start, revs[0])
            &&& forall|i: int| 0 <= i < count - 1 ==> update_accepted(#[trigger] revs[i], revs[i + 1])
            &&& count > 0 ==> revs.last() == start + count
        }),
{
}

} // verus!
