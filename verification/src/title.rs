//! What the title bar at the top of a window tab shows, and what its parts
//! do when clicked.
use vstd::prelude::*;

use crate::command::TexasWorkbenchCommand;
use crate::i18n::I18n;
use crate::text::{replace, replace_all, str_eq};
use crate::workspace::LapceWorkspace;

verus! {

/// The label of the workspace box: the workspace's name, or the "open
/// folder" message when no folder is open.
pub fn workspace_label(i18n: &I18n, workspace: &LapceWorkspace) -> (r: String)
    ensures
        r@ == (match workspace.spec_display() {
            Some(name) => name,
            None => i18n.spec_text("toolbar.open-folder"@),
        }),
{
    match workspace.display() {
        Some(name) => name,
        None => i18n.text("toolbar.open-folder"),
    }
}

/// What clicking the workspace box does: the file palette inside a folder,
/// the recent-workspace palette otherwise.
pub fn workspace_click_command(workspace: &LapceWorkspace) -> (r: TexasWorkbenchCommand)
    ensures
        r == (if workspace.path is Some {
            TexasWorkbenchCommand::PaletteHelpAndFile
        } else {
            TexasWorkbenchCommand::PaletteWorkspace
        }),
{
    if workspace.path.is_some() {
        TexasWorkbenchCommand::PaletteHelpAndFile
    } else {
        TexasWorkbenchCommand::PaletteWorkspace
    }
}

/// The version offered as an update: that of the latest release, unless it
/// is the running version.
pub fn available_update(latest: Option<String>, current: &str) -> (r: Option<String>)
    ensures
        match r {
            Some(v) => latest == Some(v) && v@ != current@,
            None => latest matches Some(v) ==> v@ == current@,
        },
{
    match latest {
        Some(v) => {
            if str_eq(v.as_str(), current) {
                None
            } else {
                Some(v)
            }
        },
        None => None,
    }
}

/// An entry of the settings menu that concerns updates.
#[derive(Debug)]
pub struct UpdateMenuEntry {
    pub label: String,
    pub enabled: bool,
    /// The command sent when the entry is chosen.
    pub action: Option<TexasWorkbenchCommand>,
}

/// The message `key` with `{version}` replaced by `version`.
pub open spec fn version_text(i18n: I18n, key: Seq<char>, version: Seq<char>) -> Seq<char> {
    replace_all(i18n.spec_text(key), "{version}"@, version)
}

/// The update entry of the settings menu: "restart to update" while an
/// update is available, disabled while it is being installed, and a
/// disabled "no update" entry otherwise.
pub fn update_menu_entry(i18n: &I18n, update: Option<&str>, in_progress: bool) -> (r: UpdateMenuEntry)
    ensures
        match update {
            Some(v) => if in_progress {
                r.label@ == version_text(*i18n, "toolbar.update-in-progress"@, v@) && !r.enabled
                    && r.action is None
            } else {
                r.label@ == version_text(*i18n, "toolbar.restart-to-update"@, v@) && r.enabled
                    && r.action == Some(TexasWorkbenchCommand::RestartToUpdate)
            },
            None => r.label@ == i18n.spec_text("toolbar.no-update"@) && !r.enabled && r.action is None,
        },
{
    proof {
        reveal_strlit("{version}");
    }
    match update {
        Some(v) => {
            if in_progress {
                let text = i18n.text("toolbar.update-in-progress");
                UpdateMenuEntry { label: replace(text.as_str(), "{version}", v), enabled: false, action: None }
            } else {
                let text = i18n.text("toolbar.restart-to-update");
                UpdateMenuEntry {
                    label: replace(text.as_str(), "{version}", v),
                    enabled: true,
                    action: Some(TexasWorkbenchCommand::RestartToUpdate),
                }
            }
        },
        None => UpdateMenuEntry { label: i18n.text("toolbar.no-update"), enabled: false, action: None },
    }
}

/// Whether the minimize / maximize / close buttons are hidden: always
/// without a custom title bar, and in the title bar of a window with
/// several tabs (the tab bar then carries them).
pub fn window_controls_hidden(custom_titlebar: bool, is_title: bool, num_window_tabs: usize) -> (r: bool)
    ensures
        r == (!custom_titlebar || (is_title && num_window_tabs > 1)),
{
    !custom_titlebar || (is_title && num_window_tabs > 1)
}

/// The message key of the tooltip of the maximize button.
pub fn maximize_tooltip_key(maximized: bool) -> (r: &'static str)
    ensures
        r@ == (if maximized {
            "window.restore"@
        } else {
            "window.maximize"@
        }),
{
    if maximized {
        "window.restore"
    } else {
        "window.maximize"
    }
}

} // verus!
