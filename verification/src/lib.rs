//! The decisions of the Texas editor, stated in contracts and proved: the
//! workbench and its panels, translations, documents and the proxy's
//! buffers, the RPC between them, file watching, and grammar installation.
use vstd::prelude::*;

pub mod buffer;
pub mod command;
pub mod config;
pub mod doc;
pub mod grammars;
pub mod i18n;
pub mod palette;
pub mod panel;
pub mod path;
pub mod rpc;
pub mod status;
pub mod style;
pub mod text;
pub mod title;
pub mod watcher;
pub mod window_tab;
pub mod workspace;

verus! {

} // verus!
