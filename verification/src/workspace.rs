//! The workspace that a window tab shows.
use vstd::prelude::*;

use crate::path::{path_file_name, spec_path_file_name};

verus! {

/// A folder opened as a workspace (or none), and when it was last opened.
#[derive(Clone, Debug, PartialEq, Eq)]
pub struct LapceWorkspace {
    pub path: Option<String>,
    pub last_open: u64,
}

impl Default for LapceWorkspace {
    /// No folder, never opened.
    fn default() -> (r: LapceWorkspace)
        ensures
            r.path is None,
            r.last_open == 0,
    {
        LapceWorkspace { path: None, last_open: 0 }
    }
}

impl LapceWorkspace {
    /// The name shown for the workspace (see [`LapceWorkspace::display`]).
    pub open spec fn spec_display(&self) -> Option<Seq<char>> {
        match self.path {
            None => None,
            Some(p) => Some(
                match spec_path_file_name(p@) {
                    Some(n) => n,
                    None => p@,
                },
            ),
        }
    }

    /// The name shown for the workspace: the last component of its path, or
    /// the whole path where it has no last component; `None` without a path.
    pub fn display(&self) -> (r: Option<String>)
        ensures
            match r {
                Some(s) => self.spec_display() == Some(s@),
                None => self.spec_display() is None,
            },
    {
        let path = match &self.path {
            Some(p) => p,
            None => return None,
        };
        match path_file_name(path.as_str()) {
            Some(n) => Some(n),
            None => Some(path.clone()),
        }
    }

    /// The text that `Display` prints: the path, or nothing.
    pub fn to_display_string(&self) -> (r: String)
        ensures
            r@ == (match self.path {
                Some(p) => p@,
                None => Seq::empty(),
            }),
    {
        match &self.path {
            Some(p) => p.clone(),
            None => String::new(),
        }
    }
}

} // verus!
