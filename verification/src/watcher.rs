//! Which registered watches a file-system event concerns.
use vstd::prelude::*;

use crate::path::{
    path_debug, path_eq, path_parent, path_starts_with, spec_path_debug, spec_path_eq, spec_path_parent,
    spec_path_starts_with,
};
use crate::text::{decimal, spec_decimal};

verus! {

/// Token provided to the file watcher, to associate events with interested
/// parties.
#[derive(Debug, Clone, Copy, PartialEq, Eq, Structural)]
pub struct WatchToken(pub usize);

/// A registered watch: a canonical path, whether its subdirectories are
/// watched too, and the token of the party that asked for it.
#[derive(Debug)]
pub struct Watchee {
    pub path: String,
    pub recursive: bool,
    pub token: WatchToken,
}

/// The kind of a file-system event, as far as routing depends on it.
#[derive(Debug, Clone, Copy, PartialEq, Eq, Structural)]
pub enum WatchEventKind {
    /// A rename that reports both the old and the new path.
    RenameBoth,
    Create,
    Remove,
    /// Any other modification.
    Modify,
    Other,
}

/// A file-system event: its kind and the paths it reports.
#[derive(Debug)]
pub struct WatchEvent {
    pub kind: WatchEventKind,
    pub paths: Vec<String>,
}

/// Whether a watch on `base` covers `path`.
pub open spec fn spec_applies_to_path(base: Seq<char>, recursive: bool, path: Seq<char>) -> bool {
    spec_path_starts_with(path, base) && (recursive || spec_path_eq(base, path) || match spec_path_parent(path) {
        Some(p) => spec_path_eq(p, base),
        None => false,
    })
}

/// Whether a watch on `base` wants an event.
pub open spec fn spec_wants_event(base: Seq<char>, recursive: bool, kind: WatchEventKind, paths: Seq<Seq<char>>) -> bool {
    match kind {
        WatchEventKind::RenameBoth => paths.len() == 2 && (spec_applies_to_path(base, recursive, paths[0])
            || spec_applies_to_path(base, recursive, paths[1])),
        WatchEventKind::Create | WatchEventKind::Remove | WatchEventKind::Modify => paths.len() > 0
            && spec_applies_to_path(base, recursive, paths[0]),
        WatchEventKind::Other => false,
    }
}

pub open spec fn paths_view(paths: Seq<String>) -> Seq<Seq<char>> {
    paths.map_values(|p: String| p@)
}

impl Watchee {
    /// The text that describes the watch in logs: its path, whether it is
    /// recursive and its token.
    pub open spec fn spec_description(&self) -> Seq<char> {
        "Watchee path: "@ + spec_path_debug(self.path@) + ", r "@ + (if self.recursive {
            "true"@
        } else {
            "false"@
        }) + ", t "@ + spec_decimal(self.token.0 as nat)
    }

    pub fn description(&self) -> (r: String)
        ensures
            r@ == self.spec_description(),
    {
        let mut r = String::from_str("Watchee path: ");
        r.append(path_debug(self.path.as_str()).as_str());
        r.append(", r ");
        r.append(if self.recursive {
            "true"
        } else {
            "false"
        });
        r.append(", t ");
        r.append(decimal(self.token.0).as_str());
        r
    }

    pub open spec fn spec_wants(&self, event: &WatchEvent) -> bool {
        spec_wants_event(self.path@, self.recursive, event.kind, paths_view(event.paths@))
    }

    pub fn applies_to_path(&self, path: &str) -> (r: bool)
        ensures
            r == spec_applies_to_path(self.path@, self.recursive, path@),
    {
        if !path_starts_with(path, self.path.as_str()) {
            return false;
        }
        if self.recursive || path_eq(self.path.as_str(), path) {
            return true;
        }
        match path_parent(path) {
            Some(p) => path_eq(p.as_str(), self.path.as_str()),
            None => false,
        }
    }

    pub fn wants_event(&self, event: &WatchEvent) -> (r: bool)
        ensures
            r == self.spec_wants(event),
    {
        match event.kind {
            WatchEventKind::RenameBoth => {
                if event.paths.len() == 2 {
                    self.applies_to_path(event.paths[0].as_str()) || self.applies_to_path(
                        event.paths[1].as_str(),
                    )
                } else {
                    false
                }
            },
            WatchEventKind::Create | WatchEventKind::Remove | WatchEventKind::Modify => {
                event.paths.len() > 0 && self.applies_to_path(event.paths[0].as_str())
            },
            WatchEventKind::Other => false,
        }
    }
}

/// The tokens, in registration order, of the watches that want `event`.
pub open spec fn spec_tokens_for(watchees: Seq<Watchee>, event: &WatchEvent) -> Seq<WatchToken>
    decreases watchees.len(),
{
    if watchees.len() == 0 {
        Seq::empty()
    } else {
        let rest = spec_tokens_for(watchees.drop_last(), event);
        if watchees.last().spec_wants(event) {
            rest.push(watchees.last().token)
        } else {
            rest
        }
    }
}

/// The registered watches.
#[derive(Debug)]
pub struct WatcherState {
    pub watchees: Vec<Watchee>,
}

impl WatcherState {
    pub fn new() -> (r: WatcherState)
        ensures
            r.watchees@.len() == 0,
    {
        WatcherState { watchees: Vec::new() }
    }

    /// Registers a watch. Returns whether the path is new, that is whether the
    /// underlying watcher has to start watching it.
    pub fn add(&mut self, w: Watchee) -> (is_new: bool)
        ensures
            final(self).watchees@ == old(self).watchees@.push(w),
            is_new == forall|i: int|
                0 <= i < old(self).watchees@.len() ==> !spec_path_eq(w.path@, #[trigger] old(self).watchees@[i].path@),
    {
        let mut i: usize = 0;
        let mut is_new = true;
        while i < self.watchees.len()
            invariant
                i <= self.watchees@.len(),
                is_new == forall|j: int| 0 <= j < i ==> !spec_path_eq(w.path@, #[trigger] self.watchees@[j].path@),
            decreases self.watchees.len() - i,
        {
            if path_eq(w.path.as_str(), self.watchees[i].path.as_str()) {
                is_new = false;
            }
            i = i + 1;
        }
        self.watchees.push(w);
        is_new
    }

    /// The tokens of the watches that want `event`, in registration order.
    pub fn tokens_for(&self, event: &WatchEvent) -> (r: Vec<WatchToken>)
        ensures
            r@ == spec_tokens_for(self.watchees@, event),
    {
        let mut r: Vec<WatchToken> = Vec::new();
        let mut i: usize = 0;
        while i < self.watchees.len()
            invariant
                i <= self.watchees@.len(),
                r@ == spec_tokens_for(self.watchees@.subrange(0, i as int), event),
            decreases self.watchees.len() - i,
        {
            assert(self.watchees@.subrange(0, i + 1).drop_last() =~= self.watchees@.subrange(0, i as int));
            if self.watchees[i].wants_event(event) {
                r.push(self.watchees[i].token);
            }
            i = i + 1;
        }
        assert(self.watchees@.subrange(0, self.watchees@.len() as int) =~= self.watchees@);
        r
    }
}

/// Creations, removals and modifications are routed alike, by their first
/// path: a watch wants such an event exactly when the event reports a path
/// and the watch covers the first one; so it never wants one whose first
/// path lies outside its own, and a recursive watch wants every one whose
/// first path lies under its own.
pub proof fn law_changes_are_routed_by_their_first_path(w: Watchee, event: &WatchEvent)
    requires
        event.kind == WatchEventKind::Create || event.kind == WatchEventKind::Remove || event.kind
            == WatchEventKind::Modify,
    ensures
        w.spec_wants(event) == (event.paths@.len() > 0 && spec_applies_to_path(
            w.path@,
            w.recursive,
            event.paths@[0]@,
        )),
        w.spec_wants(event) ==> spec_path_starts_with(event.paths@[0]@, w.path@),
        w.recursive && event.paths@.len() > 0 && spec_path_starts_with(event.paths@[0]@, w.path@)
            ==> w.spec_wants(event),
{
    if event.paths@.len() > 0 {
        assert(paths_view(event.paths@)[0] == event.paths@[0]@);
    }
}

/// A recursive watch receives the events that create, remove or modify a
/// path under its own.
pub proof fn law_recursive_watch_receives_changes_under_it(watchees: Seq<Watchee>, w: Watchee, event: &WatchEvent)
    requires
        event.kind == WatchEventKind::Create || event.kind == WatchEventKind::Remove || event.kind
            == WatchEventKind::Modify,
        event.paths@.len() > 0,
        w.recursive,
        spec_path_starts_with(event.paths@[0]@, w.path@),
    ensures
        spec_tokens_for(watchees.push(w), event).len() > 0,
        spec_tokens_for(watchees.push(w), event).last() == w.token,
{
    assert(watchees.push(w).drop_last() =~= watchees);
    assert(watchees.push(w).last() == w);
    assert(paths_view(event.paths@)[0] == event.paths@[0]@);
}

/// A registered watch receives the events that create, remove or modify
/// exactly its path.
pub proof fn law_watch_receives_events_on_its_path(watchees: Seq<Watchee>, w: Watchee, event: &WatchEvent)
    requires
        event.kind == WatchEventKind::Create || event.kind == WatchEventKind::Remove || event.kind
            == WatchEventKind::Modify,
        event.paths@.len() > 0,
        event.paths@[0]@ == w.path@,
        spec_path_starts_with(w.path@, w.path@),
        spec_path_eq(w.path@, w.path@),
    ensures
        spec_tokens_for(watchees.push(w), event).last() == w.token,
        spec_tokens_for(watchees.push(w), event).len() > 0,
{
    assert(watchees.push(w).drop_last() =~= watchees);
    assert(watchees.push(w).last() == w);
}

} // verus!
