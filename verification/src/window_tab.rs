//! The decisions of a workbench window tab: focus and modes, what each
//! workbench command does, panels and terminal tabs, key routing, source
//! control changes, "save all", opening and renaming files, and the about
//! popup.
use vstd::prelude::*;

use crate::command::TexasWorkbenchCommand;
use crate::doc::DocContent;
use crate::workspace::LapceWorkspace;
use crate::text::{concat, decimal, spec_decimal};
use crate::palette::{PaletteKind, spec_command};
use crate::panel::PanelKind;
use crate::path::{
    path_parent, spec_path_parent, path_eq, path_join, path_starts_with, path_strip_prefix, spec_path_eq, spec_path_join,
    spec_path_starts_with, spec_path_strip_prefix,
};

verus! {

/// The part of the window tab that receives keyboard input.
#[derive(Debug, Clone, Copy, PartialEq, Eq, Structural)]
pub enum Focus {
    Workbench,
    Palette,
    AboutPopup,
    Panel(PanelKind),
}

/// A child of an editor tab, by the id of the view it shows.
#[derive(Debug, Clone, Copy, PartialEq, Eq, Structural)]
pub struct EditorTabChild {
    pub id: u64,
}

/// What a drag in progress carries.
#[derive(Debug, Clone, Copy, PartialEq, Eq, Structural)]
pub enum DragContent {
    Panel(PanelKind),
    EditorTab(EditorTabChild),
}

impl DragContent {
    pub fn is_panel(&self) -> (r: bool)
        ensures
            r == (*self is Panel),
    {
        match self {
            DragContent::Panel(_) => true,
            DragContent::EditorTab(_) => false,
        }
    }
}


/// The editing mode of the focused editor or terminal.
#[derive(Debug, Clone, Copy, PartialEq, Eq, Structural)]
pub enum VisualMode {
    Normal,
    Linewise,
    Blockwise,
}

/// The modal-editing mode.
#[derive(Debug, Clone, Copy, PartialEq, Eq, Structural)]
pub enum Mode {
    Normal,
    Insert,
    Visual(VisualMode),
    Terminal,
}

/// One of the three panel containers.
#[derive(Debug, Clone, Copy, PartialEq, Eq, Structural)]
pub enum PanelContainerPosition {
    Left,
    Bottom,
    Right,
}

/// The direction in which a split lays out its children.
#[derive(Debug, Clone, Copy, PartialEq, Eq, Structural)]
pub enum SplitDirection {
    Vertical,
    Horizontal,
}

/// The root split of the editors when a window tab opens.
#[derive(Debug)]
pub enum RootSplit<T> {
    /// The saved layout is restored with these children.
    Restored(Vec<T>),
    /// A new, empty root split in this direction.
    Empty(SplitDirection),
}

/// The root split of a window tab, from the children of the saved root
/// split (if the workspace's layout was saved): a saved layout is
/// restored, without its children when the window tab has no folder; with
/// no saved layout, the root split is empty and horizontal.
pub fn initial_root_split<T>(saved_children: Option<Vec<T>>, workspace_has_path: bool) -> (r: RootSplit<T>)
    ensures
        match saved_children {
            None => r matches RootSplit::Empty(d) && d == SplitDirection::Horizontal,
            Some(children) => r matches RootSplit::Restored(c) && c@ == (if workspace_has_path {
                children@
            } else {
                Seq::empty()
            }),
        },
{
    match saved_children {
        None => RootSplit::Empty(SplitDirection::Horizontal),
        Some(children) => {
            if workspace_has_path {
                RootSplit::Restored(children)
            } else {
                RootSplit::Restored(Vec::new())
            }
        },
    }
}

/// The mode shown for the window tab: without modal editing, always insert;
/// with it, the mode of the active editor when the workbench has the focus,
/// else normal.
pub open spec fn spec_window_mode(modal: bool, focus: Focus, editor_mode: Option<Mode>) -> Mode {
    if modal {
        if focus == Focus::Workbench {
            match editor_mode {
                Some(m) => m,
                None => Mode::Normal,
            }
        } else {
            Mode::Normal
        }
    } else {
        Mode::Insert
    }
}

pub fn window_mode(modal: bool, focus: Focus, editor_mode: Option<Mode>) -> (r: Mode)
    ensures
        r == spec_window_mode(modal, focus, editor_mode),
{
    if modal {
        let mode = if focus == Focus::Workbench {
            editor_mode
        } else {
            None
        };
        match mode {
            Some(m) => m,
            None => Mode::Normal,
        }
    } else {
        Mode::Insert
    }
}

/// The editor tab that becomes active after the active one, cyclically.
pub open spec fn spec_next_tab(len: usize, active: usize) -> Option<usize> {
    if len == 0 {
        None
    } else if active == len - 1 {
        Some(0)
    } else {
        Some((active + 1) as usize)
    }
}

/// The editor tab that becomes active before the active one, cyclically.
pub open spec fn spec_previous_tab(len: usize, active: usize) -> Option<usize> {
    if len == 0 {
        None
    } else if active == 0 {
        Some((len - 1) as usize)
    } else {
        Some((active - 1) as usize)
    }
}

/// The index of the child that `NextEditorTab` activates in an editor tab
/// with `len` children whose active child is `active`.
pub fn next_editor_tab_index(len: usize, active: usize) -> (r: Option<usize>)
    requires
        len == 0 || active == len - 1 || active < usize::MAX,
    ensures
        r == spec_next_tab(len, active),
{
    if len == 0 {
        None
    } else if active == len - 1 {
        Some(0)
    } else {
        Some(active + 1)
    }
}

/// The index of the child that `PreviousEditorTab` activates.
pub fn previous_editor_tab_index(len: usize, active: usize) -> (r: Option<usize>)
    ensures
        r == spec_previous_tab(len, active),
{
    if len == 0 {
        None
    } else if active == 0 {
        Some(len - 1)
    } else {
        Some(active - 1)
    }
}

/// Moving to the next editor tab and back returns to the same tab, and the
/// other way round.
pub proof fn law_next_and_previous_tab_are_inverse(len: usize, active: usize)
    requires
        active < len,
    ensures
        spec_next_tab(len, active) matches Some(n) && spec_previous_tab(len, n) == Some(active),
        spec_previous_tab(len, active) matches Some(p) && spec_next_tab(len, p) == Some(active),
        spec_next_tab(len, active) matches Some(n) && n < len,
        spec_previous_tab(len, active) matches Some(p) && p < len,
{
}

/// What a workbench command does: to palettes, panels, focus, terminal
/// tabs and the window.
#[derive(Debug, Clone, Copy, PartialEq, Eq, Structural)]
pub enum WorkbenchAction {
    /// Opens the palette of the given kind.
    RunPalette(PaletteKind),
    /// Hides the panel if it has the focus (or, for panels that take no
    /// focus, if it is visible), else shows and focuses it.
    TogglePanelFocus(PanelKind),
    /// Hides the panel if it is visible, else shows it.
    TogglePanelVisual(PanelKind),
    /// Shows or hides a whole panel container.
    ToggleContainerVisual(PanelContainerPosition),
    /// Moves the focus.
    SetFocus(Focus),
    /// Activates the next (`true`) or previous editor tab.
    CycleEditorTab(bool),
    /// Turns modal editing on (`true`) or off, in the settings file.
    SetModal(bool),
    /// Opens a terminal tab or moves to another one; the terminal panel is
    /// then shown (if hidden) and takes the focus.
    TerminalTab(TerminalTabMove),
    /// Closes the active terminal tab (see [`after_terminal_tab_closed`]).
    CloseTerminalTab,
    /// Acts on the panel that the command's data names (see
    /// [`panel_data_effect`]).
    PanelFromData(PanelCommand),
    /// Acts on the window or its tabs.
    Window(WindowAction),
    /// Shows the about popup.
    ShowAbout,
    /// Anything else: files, settings, source control, updates, locations.
    Other,
}

/// How the terminal commands move between terminal tabs.
#[derive(Debug, Clone, Copy, PartialEq, Eq, Structural)]
pub enum TerminalTabMove {
    New,
    Next,
    Previous,
}

/// The commands that act on a panel named by their data.
#[derive(Debug, Clone, Copy, PartialEq, Eq, Structural)]
pub enum PanelCommand {
    ToggleMaximize,
    Hide,
    Show,
    ToggleFocus,
    ToggleVisual,
}

/// What a workbench command asks of the window.
#[derive(Debug, Clone, Copy, PartialEq, Eq, Structural)]
pub enum WindowAction {
    NewWindow,
    CloseWindow,
    /// A new window tab without a folder, placed after the active one.
    NewTab,
    /// Closes the active window tab.
    CloseTab,
    NextTab,
    PreviousTab,
    /// Opens the same workspace again.
    Reload,
    /// Replaces the workspace by one without a folder.
    CloseFolder,
}

/// What a panel command does with its data: `None` where the command came
/// without data, `Some(None)` where the data names no panel.
#[derive(Debug, Clone, Copy, PartialEq, Eq, Structural)]
pub enum PanelDataEffect {
    /// Maximizes or restores the named panel, or the active one.
    ToggleMaximize(Option<PanelKind>),
    Hide(PanelKind),
    Show(PanelKind),
    ToggleFocus(PanelKind),
    ToggleVisual(PanelKind),
    Nothing,
}

pub open spec fn spec_panel_data_effect(cmd: PanelCommand, data: Option<Option<PanelKind>>) -> PanelDataEffect {
    match (cmd, data) {
        (PanelCommand::ToggleMaximize, None) => PanelDataEffect::ToggleMaximize(None),
        (_, None) => PanelDataEffect::Nothing,
        (_, Some(None)) => PanelDataEffect::Nothing,
        (PanelCommand::ToggleMaximize, Some(Some(k))) => PanelDataEffect::ToggleMaximize(Some(k)),
        (PanelCommand::Hide, Some(Some(k))) => PanelDataEffect::Hide(k),
        (PanelCommand::Show, Some(Some(k))) => PanelDataEffect::Show(k),
        (PanelCommand::ToggleFocus, Some(Some(k))) => PanelDataEffect::ToggleFocus(k),
        (PanelCommand::ToggleVisual, Some(Some(k))) => PanelDataEffect::ToggleVisual(k),
    }
}

pub fn panel_data_effect(cmd: PanelCommand, data: Option<Option<PanelKind>>) -> (r: PanelDataEffect)
    ensures
        r == spec_panel_data_effect(cmd, data),
{
    match data {
        None => match cmd {
            PanelCommand::ToggleMaximize => PanelDataEffect::ToggleMaximize(None),
            _ => PanelDataEffect::Nothing,
        },
        Some(None) => PanelDataEffect::Nothing,
        Some(Some(k)) => match cmd {
            PanelCommand::ToggleMaximize => PanelDataEffect::ToggleMaximize(Some(k)),
            PanelCommand::Hide => PanelDataEffect::Hide(k),
            PanelCommand::Show => PanelDataEffect::Show(k),
            PanelCommand::ToggleFocus => PanelDataEffect::ToggleFocus(k),
            PanelCommand::ToggleVisual => PanelDataEffect::ToggleVisual(k),
        },
    }
}

/// The effect of each workbench command.
pub open spec fn spec_workbench_action(cmd: TexasWorkbenchCommand) -> WorkbenchAction {
    match cmd {
        TexasWorkbenchCommand::PaletteHelp => WorkbenchAction::RunPalette(PaletteKind::PaletteHelp),
        TexasWorkbenchCommand::PaletteHelpAndFile => WorkbenchAction::RunPalette(PaletteKind::HelpAndFile),
        TexasWorkbenchCommand::PaletteLine => WorkbenchAction::RunPalette(PaletteKind::Line),
        TexasWorkbenchCommand::Palette => WorkbenchAction::RunPalette(PaletteKind::File),
        TexasWorkbenchCommand::PaletteCommand => WorkbenchAction::RunPalette(PaletteKind::Command),
        TexasWorkbenchCommand::PaletteWorkspace => WorkbenchAction::RunPalette(PaletteKind::Workspace),
        TexasWorkbenchCommand::PaletteSCMReferences => WorkbenchAction::RunPalette(PaletteKind::SCMReferences),
        TexasWorkbenchCommand::ChangeColorTheme => WorkbenchAction::RunPalette(PaletteKind::ColorTheme),
        TexasWorkbenchCommand::ChangeIconTheme => WorkbenchAction::RunPalette(PaletteKind::IconTheme),
        TexasWorkbenchCommand::ChangeFileLanguage => WorkbenchAction::RunPalette(PaletteKind::Language),
        TexasWorkbenchCommand::ChangeFileLineEnding => WorkbenchAction::RunPalette(PaletteKind::LineEnding),
        TexasWorkbenchCommand::DiffFiles => WorkbenchAction::RunPalette(PaletteKind::DiffFiles),
        TexasWorkbenchCommand::ToggleTerminalFocus => WorkbenchAction::TogglePanelFocus(PanelKind::Terminal),
        TexasWorkbenchCommand::ToggleSourceControlFocus => WorkbenchAction::TogglePanelFocus(PanelKind::SourceControl),
        TexasWorkbenchCommand::ToggleFileExplorerFocus => WorkbenchAction::TogglePanelFocus(PanelKind::FileExplorer),
        TexasWorkbenchCommand::ToggleSearchFocus => WorkbenchAction::TogglePanelFocus(PanelKind::Search),
        TexasWorkbenchCommand::ToggleTerminalVisual => WorkbenchAction::TogglePanelVisual(PanelKind::Terminal),
        TexasWorkbenchCommand::ToggleSourceControlVisual => WorkbenchAction::TogglePanelVisual(PanelKind::SourceControl),
        TexasWorkbenchCommand::ToggleFileExplorerVisual => WorkbenchAction::TogglePanelVisual(PanelKind::FileExplorer),
        TexasWorkbenchCommand::ToggleSearchVisual => WorkbenchAction::TogglePanelVisual(PanelKind::Search),
        TexasWorkbenchCommand::TogglePanelLeftVisual => WorkbenchAction::ToggleContainerVisual(PanelContainerPosition::Left),
        TexasWorkbenchCommand::TogglePanelRightVisual => WorkbenchAction::ToggleContainerVisual(PanelContainerPosition::Right),
        TexasWorkbenchCommand::TogglePanelBottomVisual => WorkbenchAction::ToggleContainerVisual(PanelContainerPosition::Bottom),
        TexasWorkbenchCommand::FocusEditor => WorkbenchAction::SetFocus(Focus::Workbench),
        TexasWorkbenchCommand::FocusTerminal => WorkbenchAction::SetFocus(Focus::Panel(PanelKind::Terminal)),
        TexasWorkbenchCommand::NextEditorTab => WorkbenchAction::CycleEditorTab(true),
        TexasWorkbenchCommand::PreviousEditorTab => WorkbenchAction::CycleEditorTab(false),
        TexasWorkbenchCommand::EnableModal => WorkbenchAction::SetModal(true),
        TexasWorkbenchCommand::DisableModal => WorkbenchAction::SetModal(false),
        TexasWorkbenchCommand::NewTerminalTab => WorkbenchAction::TerminalTab(TerminalTabMove::New),
        TexasWorkbenchCommand::NextTerminalTab => WorkbenchAction::TerminalTab(TerminalTabMove::Next),
        TexasWorkbenchCommand::PreviousTerminalTab => WorkbenchAction::TerminalTab(TerminalTabMove::Previous),
        TexasWorkbenchCommand::CloseTerminalTab => WorkbenchAction::CloseTerminalTab,
        TexasWorkbenchCommand::ToggleMaximizedPanel => WorkbenchAction::PanelFromData(PanelCommand::ToggleMaximize),
        TexasWorkbenchCommand::HidePanel => WorkbenchAction::PanelFromData(PanelCommand::Hide),
        TexasWorkbenchCommand::ShowPanel => WorkbenchAction::PanelFromData(PanelCommand::Show),
        TexasWorkbenchCommand::TogglePanelFocus => WorkbenchAction::PanelFromData(PanelCommand::ToggleFocus),
        TexasWorkbenchCommand::TogglePanelVisual => WorkbenchAction::PanelFromData(PanelCommand::ToggleVisual),
        TexasWorkbenchCommand::NewWindow => WorkbenchAction::Window(WindowAction::NewWindow),
        TexasWorkbenchCommand::CloseWindow => WorkbenchAction::Window(WindowAction::CloseWindow),
        TexasWorkbenchCommand::NewWindowTab => WorkbenchAction::Window(WindowAction::NewTab),
        TexasWorkbenchCommand::CloseWindowTab => WorkbenchAction::Window(WindowAction::CloseTab),
        TexasWorkbenchCommand::NextWindowTab => WorkbenchAction::Window(WindowAction::NextTab),
        TexasWorkbenchCommand::PreviousWindowTab => WorkbenchAction::Window(WindowAction::PreviousTab),
        TexasWorkbenchCommand::ReloadWindow => WorkbenchAction::Window(WindowAction::Reload),
        TexasWorkbenchCommand::CloseFolder => WorkbenchAction::Window(WindowAction::CloseFolder),
        TexasWorkbenchCommand::ShowAbout => WorkbenchAction::ShowAbout,
        _ => WorkbenchAction::Other,
    }
}

pub fn workbench_action(cmd: TexasWorkbenchCommand) -> (r: WorkbenchAction)
    ensures
        r == spec_workbench_action(cmd),
{
    match cmd {
        TexasWorkbenchCommand::PaletteHelp => WorkbenchAction::RunPalette(PaletteKind::PaletteHelp),
        TexasWorkbenchCommand::PaletteHelpAndFile => WorkbenchAction::RunPalette(PaletteKind::HelpAndFile),
        TexasWorkbenchCommand::PaletteLine => WorkbenchAction::RunPalette(PaletteKind::Line),
        TexasWorkbenchCommand::Palette => WorkbenchAction::RunPalette(PaletteKind::File),
        TexasWorkbenchCommand::PaletteCommand => WorkbenchAction::RunPalette(PaletteKind::Command),
        TexasWorkbenchCommand::PaletteWorkspace => WorkbenchAction::RunPalette(PaletteKind::Workspace),
        TexasWorkbenchCommand::PaletteSCMReferences => WorkbenchAction::RunPalette(PaletteKind::SCMReferences),
        TexasWorkbenchCommand::ChangeColorTheme => WorkbenchAction::RunPalette(PaletteKind::ColorTheme),
        TexasWorkbenchCommand::ChangeIconTheme => WorkbenchAction::RunPalette(PaletteKind::IconTheme),
        TexasWorkbenchCommand::ChangeFileLanguage => WorkbenchAction::RunPalette(PaletteKind::Language),
        TexasWorkbenchCommand::ChangeFileLineEnding => WorkbenchAction::RunPalette(PaletteKind::LineEnding),
        TexasWorkbenchCommand::DiffFiles => WorkbenchAction::RunPalette(PaletteKind::DiffFiles),
        TexasWorkbenchCommand::ToggleTerminalFocus => WorkbenchAction::TogglePanelFocus(PanelKind::Terminal),
        TexasWorkbenchCommand::ToggleSourceControlFocus => WorkbenchAction::TogglePanelFocus(PanelKind::SourceControl),
        TexasWorkbenchCommand::ToggleFileExplorerFocus => WorkbenchAction::TogglePanelFocus(PanelKind::FileExplorer),
        TexasWorkbenchCommand::ToggleSearchFocus => WorkbenchAction::TogglePanelFocus(PanelKind::Search),
        TexasWorkbenchCommand::ToggleTerminalVisual => WorkbenchAction::TogglePanelVisual(PanelKind::Terminal),
        TexasWorkbenchCommand::ToggleSourceControlVisual => WorkbenchAction::TogglePanelVisual(PanelKind::SourceControl),
        TexasWorkbenchCommand::ToggleFileExplorerVisual => WorkbenchAction::TogglePanelVisual(PanelKind::FileExplorer),
        TexasWorkbenchCommand::ToggleSearchVisual => WorkbenchAction::TogglePanelVisual(PanelKind::Search),
        TexasWorkbenchCommand::TogglePanelLeftVisual => WorkbenchAction::ToggleContainerVisual(PanelContainerPosition::Left),
        TexasWorkbenchCommand::TogglePanelRightVisual => WorkbenchAction::ToggleContainerVisual(PanelContainerPosition::Right),
        TexasWorkbenchCommand::TogglePanelBottomVisual => WorkbenchAction::ToggleContainerVisual(PanelContainerPosition::Bottom),
        TexasWorkbenchCommand::FocusEditor => WorkbenchAction::SetFocus(Focus::Workbench),
        TexasWorkbenchCommand::FocusTerminal => WorkbenchAction::SetFocus(Focus::Panel(PanelKind::Terminal)),
        TexasWorkbenchCommand::NextEditorTab => WorkbenchAction::CycleEditorTab(true),
        TexasWorkbenchCommand::PreviousEditorTab => WorkbenchAction::CycleEditorTab(false),
        TexasWorkbenchCommand::EnableModal => WorkbenchAction::SetModal(true),
        TexasWorkbenchCommand::DisableModal => WorkbenchAction::SetModal(false),
        TexasWorkbenchCommand::NewTerminalTab => WorkbenchAction::TerminalTab(TerminalTabMove::New),
        TexasWorkbenchCommand::NextTerminalTab => WorkbenchAction::TerminalTab(TerminalTabMove::Next),
        TexasWorkbenchCommand::PreviousTerminalTab => WorkbenchAction::TerminalTab(TerminalTabMove::Previous),
        TexasWorkbenchCommand::CloseTerminalTab => WorkbenchAction::CloseTerminalTab,
        TexasWorkbenchCommand::ToggleMaximizedPanel => WorkbenchAction::PanelFromData(PanelCommand::ToggleMaximize),
        TexasWorkbenchCommand::HidePanel => WorkbenchAction::PanelFromData(PanelCommand::Hide),
        TexasWorkbenchCommand::ShowPanel => WorkbenchAction::PanelFromData(PanelCommand::Show),
        TexasWorkbenchCommand::TogglePanelFocus => WorkbenchAction::PanelFromData(PanelCommand::ToggleFocus),
        TexasWorkbenchCommand::TogglePanelVisual => WorkbenchAction::PanelFromData(PanelCommand::ToggleVisual),
        TexasWorkbenchCommand::NewWindow => WorkbenchAction::Window(WindowAction::NewWindow),
        TexasWorkbenchCommand::CloseWindow => WorkbenchAction::Window(WindowAction::CloseWindow),
        TexasWorkbenchCommand::NewWindowTab => WorkbenchAction::Window(WindowAction::NewTab),
        TexasWorkbenchCommand::CloseWindowTab => WorkbenchAction::Window(WindowAction::CloseTab),
        TexasWorkbenchCommand::NextWindowTab => WorkbenchAction::Window(WindowAction::NextTab),
        TexasWorkbenchCommand::PreviousWindowTab => WorkbenchAction::Window(WindowAction::PreviousTab),
        TexasWorkbenchCommand::ReloadWindow => WorkbenchAction::Window(WindowAction::Reload),
        TexasWorkbenchCommand::CloseFolder => WorkbenchAction::Window(WindowAction::CloseFolder),
        TexasWorkbenchCommand::ShowAbout => WorkbenchAction::ShowAbout,
        _ => WorkbenchAction::Other,
    }
}

/// The editor tab that an action activates in an editor tab with `len`
/// children whose active child is `active`; `None` where the action moves
/// to no other tab.
pub open spec fn spec_activated_editor_tab(action: WorkbenchAction, len: usize, active: usize) -> Option<usize> {
    match action {
        WorkbenchAction::CycleEditorTab(forward) => if forward {
            spec_next_tab(len, active)
        } else {
            spec_previous_tab(len, active)
        },
        _ => None,
    }
}

/// `NextEditorTab` activates the tab after the active one and
/// `PreviousEditorTab` the one before it, each wrapping around at the ends,
/// so that either undoes the other.
pub proof fn law_editor_tab_commands_step_both_ways(len: usize, active: usize)
    requires
        active < len,
    ensures
        ({
            let next = spec_workbench_action(TexasWorkbenchCommand::NextEditorTab);
            let previous = spec_workbench_action(TexasWorkbenchCommand::PreviousEditorTab);
            let after = if active + 1 < len { (active + 1) as usize } else { 0usize };
            let before = if active > 0 { (active - 1) as usize } else { (len - 1) as usize };
            &&& spec_activated_editor_tab(next, len, active) == Some(after)
            &&& spec_activated_editor_tab(previous, len, active) == Some(before)
            &&& spec_activated_editor_tab(previous, len, after) == Some(active)
        }),
{
}

/// The command that opens a kind of palette opens that kind.
pub proof fn law_palette_command_opens_its_palette(kind: PaletteKind)
    requires
        spec_command(kind) is Some,
    ensures
        spec_workbench_action(spec_command(kind)->0) == WorkbenchAction::RunPalette(kind),
{
}

/// Whether `TogglePanelFocus` hides the panel: the file explorer takes no
/// focus and is hidden when visible; the other panels are hidden when they
/// are visible and have the focus.
pub open spec fn spec_toggle_focus_hides(kind: PanelKind, focus: Focus, visible: bool) -> bool {
    match kind {
        PanelKind::FileExplorer => visible,
        _ => focus == Focus::Panel(kind) && visible,
    }
}

pub fn toggle_focus_hides(kind: PanelKind, focus: Focus, visible: bool) -> (r: bool)
    ensures
        r == spec_toggle_focus_hides(kind, focus, visible),
{
    match kind {
        PanelKind::FileExplorer => visible,
        PanelKind::Terminal | PanelKind::SourceControl | PanelKind::Search => {
            focus == Focus::Panel(kind) && visible
        },
    }
}

/// What showing a panel does.
#[derive(Debug, Clone, PartialEq, Eq)]
pub struct ShowPanelPlan {
    /// Open a first terminal (the terminal panel has no tab yet).
    pub open_terminal: bool,
    /// Search for this word (the word at the cursor of the active editor,
    /// when the search panel is shown from the workbench).
    pub search_pattern: Option<String>,
    /// The focus afterwards: the panel.
    pub focus: Focus,
}

/// What showing `kind` does, given whether the terminal has tabs, the focus,
/// and the word at the cursor of the active editor.
pub fn show_panel_plan(kind: PanelKind, terminal_tabs_empty: bool, focus: Focus, word: Option<String>) -> (r:
    ShowPanelPlan)
    ensures
        r.open_terminal == (kind == PanelKind::Terminal && terminal_tabs_empty),
        r.focus == Focus::Panel(kind),
        match r.search_pattern {
            Some(p) => kind == PanelKind::Search && focus == Focus::Workbench && word == Some(p) && p@.len() > 0,
            None => !(kind == PanelKind::Search && focus == Focus::Workbench && (word matches Some(w)
                && w@.len() > 0)),
        },
{
    let open_terminal = kind == PanelKind::Terminal && terminal_tabs_empty;
    let mut search_pattern: Option<String> = None;
    if kind == PanelKind::Search && focus == Focus::Workbench {
        match word {
            Some(w) => {
                if w.as_str().unicode_len() > 0 {
                    search_pattern = Some(w);
                }
            },
            None => {},
        }
    }
    ShowPanelPlan { open_terminal, search_pattern, focus: Focus::Panel(kind) }
}

/// What toggling a panel container does: both of its positions are shown
/// or hidden together, and the active panels of its positions are shown
/// (or hidden) in turn, that of the second position first.
#[derive(Debug, Clone)]
pub struct ContainerTogglePlan {
    /// Whether the container is shown afterwards.
    pub shown: bool,
    /// The panels to show (when `shown`) or hide, in order.
    pub panels: Vec<PanelKind>,
}

/// The panels of an optional panel, as a sequence.
pub open spec fn opt_panels(p: Option<PanelKind>) -> Seq<PanelKind> {
    match p {
        Some(k) => seq![k],
        None => Seq::empty(),
    }
}

/// The plan for toggling a container that is `shown_now` (or not), whose
/// first and second positions have the given active panels.
pub fn container_toggle_plan(
    shown_now: bool,
    first_active: Option<PanelKind>,
    second_active: Option<PanelKind>,
) -> (r: ContainerTogglePlan)
    ensures
        r.shown == !shown_now,
        r.panels@ == opt_panels(second_active) + opt_panels(first_active),
{
    let mut panels: Vec<PanelKind> = Vec::new();
    match second_active {
        Some(k) => panels.push(k),
        None => {},
    }
    match first_active {
        Some(k) => panels.push(k),
        None => {},
    }
    assert(panels@ =~= opt_panels(second_active) + opt_panels(first_active));
    ContainerTogglePlan { shown: !shown_now, panels }
}

/// How the terminal panel follows a change of its tabs.
#[derive(Debug, Clone, Copy, PartialEq, Eq, Structural)]
pub struct TerminalPanelUpdate {
    pub hide_panel: bool,
    pub show_panel: bool,
    pub focus: Focus,
}

/// After a terminal tab was closed: with no tab left, the panel is hidden
/// (if visible) and the workbench takes the focus; otherwise the panel is
/// shown (if hidden) and takes the focus.
pub fn after_terminal_tab_closed(tabs_empty: bool, panel_visible: bool) -> (r: TerminalPanelUpdate)
    ensures
        tabs_empty ==> r == (TerminalPanelUpdate { hide_panel: panel_visible, show_panel: false, focus: Focus::Workbench }),
        !tabs_empty ==> r == (TerminalPanelUpdate {
            hide_panel: false,
            show_panel: !panel_visible,
            focus: Focus::Panel(PanelKind::Terminal),
        }),
{
    if tabs_empty {
        TerminalPanelUpdate { hide_panel: panel_visible, show_panel: false, focus: Focus::Workbench }
    } else {
        TerminalPanelUpdate { hide_panel: false, show_panel: !panel_visible, focus: Focus::Panel(PanelKind::Terminal) }
    }
}

/// After a terminal process stopped: only when no tab is left, the panel is
/// hidden (if visible) and the workbench takes the focus.
pub fn after_terminal_stopped(tabs_empty: bool, panel_visible: bool) -> (r: Option<TerminalPanelUpdate>)
    ensures
        tabs_empty ==> r == Some(TerminalPanelUpdate { hide_panel: panel_visible, show_panel: false, focus: Focus::Workbench }),
        !tabs_empty ==> r is None,
{
    if tabs_empty {
        Some(TerminalPanelUpdate { hide_panel: panel_visible, show_panel: false, focus: Focus::Workbench })
    } else {
        None
    }
}

/// Where a key press goes first, by focus.
#[derive(Debug, Clone, Copy, PartialEq, Eq, Structural)]
pub enum KeyTarget {
    MainSplit,
    Palette,
    AboutPopup,
    Terminal,
    Search,
    SourceControl,
    /// No view takes it first: the window tab's own key bindings.
    WindowTab,
}

/// The view that the focus sends key presses to first.
pub open spec fn spec_key_target(focus: Focus) -> KeyTarget {
    match focus {
        Focus::Workbench => KeyTarget::MainSplit,
        Focus::Palette => KeyTarget::Palette,
        Focus::AboutPopup => KeyTarget::AboutPopup,
        Focus::Panel(PanelKind::Terminal) => KeyTarget::Terminal,
        Focus::Panel(PanelKind::Search) => KeyTarget::Search,
        Focus::Panel(PanelKind::SourceControl) => KeyTarget::SourceControl,
        Focus::Panel(PanelKind::FileExplorer) => KeyTarget::WindowTab,
    }
}

pub fn key_target(focus: Focus) -> (r: KeyTarget)
    ensures
        r == spec_key_target(focus),
{
    match focus {
        Focus::Workbench => KeyTarget::MainSplit,
        Focus::Palette => KeyTarget::Palette,
        Focus::AboutPopup => KeyTarget::AboutPopup,
        Focus::Panel(PanelKind::Terminal) => KeyTarget::Terminal,
        Focus::Panel(PanelKind::Search) => KeyTarget::Search,
        Focus::Panel(PanelKind::SourceControl) => KeyTarget::SourceControl,
        Focus::Panel(PanelKind::FileExplorer) => KeyTarget::WindowTab,
    }
}

/// What a key press does in a window tab.
#[derive(Debug, Clone, Copy, PartialEq, Eq, Structural)]
pub enum KeyDownPlan {
    /// An alert is shown and the key is Escape: the alert is dismissed, and
    /// the key is handled.
    DismissAlert,
    /// An alert is shown: it swallows the key, which is reported as not
    /// handled.
    Swallow,
    /// The key goes to the focused view first, then to the window tab's key
    /// bindings.
    Dispatch(KeyTarget),
}

pub fn key_down_plan(alert_active: bool, is_escape: bool, focus: Focus) -> (r: KeyDownPlan)
    ensures
        alert_active && is_escape ==> r == KeyDownPlan::DismissAlert,
        alert_active && !is_escape ==> r == KeyDownPlan::Swallow,
        !alert_active ==> r == KeyDownPlan::Dispatch(spec_key_target(focus)),
{
    if alert_active {
        if is_escape {
            KeyDownPlan::DismissAlert
        } else {
            KeyDownPlan::Swallow
        }
    } else {
        KeyDownPlan::Dispatch(key_target(focus))
    }
}

/// The split commands of the focus commands.
#[derive(Debug, Clone, Copy, PartialEq, Eq, Structural)]
pub enum SplitCommand {
    /// Closes the active child of the active editor tab.
    Close,
    Vertical,
    Horizontal,
    MoveRight,
    MoveLeft,
    MoveUp,
    MoveDown,
    Exchange,
}

/// A command that reaches the window tab, by kind.
#[derive(Debug, Clone, Copy, PartialEq, Eq, Structural)]
pub enum WindowTabCommand {
    Workbench(TexasWorkbenchCommand),
    /// A focus command that splits.
    Split(SplitCommand),
    /// Any other focus command.
    OtherFocus,
    /// An edit, move, scroll, motion-mode or multi-selection command.
    Other,
}

/// What the window tab does with a command, and whether it counts as
/// executed.
#[derive(Debug, Clone, Copy, PartialEq, Eq, Structural)]
pub enum WindowTabCommandEffect {
    RunWorkbench(TexasWorkbenchCommand),
    Split(SplitCommand),
    Nothing,
}

/// Workbench commands run; split commands act on the main split while the
/// workbench has the focus; other focus commands are taken, unused, while
/// another view has the focus; everything else is left to other views.
pub fn window_tab_run_command(command: WindowTabCommand, focus: Focus) -> (r: (WindowTabCommandEffect, bool))
    ensures
        r == (match command {
            WindowTabCommand::Workbench(cmd) => (WindowTabCommandEffect::RunWorkbench(cmd), true),
            WindowTabCommand::Split(c) => if focus == Focus::Workbench {
                (WindowTabCommandEffect::Split(c), true)
            } else {
                (WindowTabCommandEffect::Nothing, true)
            },
            WindowTabCommand::OtherFocus => (WindowTabCommandEffect::Nothing, focus != Focus::Workbench),
            WindowTabCommand::Other => (WindowTabCommandEffect::Nothing, false),
        }),
{
    match command {
        WindowTabCommand::Workbench(cmd) => (WindowTabCommandEffect::RunWorkbench(cmd), true),
        WindowTabCommand::Split(c) => {
            if focus == Focus::Workbench {
                (WindowTabCommandEffect::Split(c), true)
            } else {
                (WindowTabCommandEffect::Nothing, true)
            }
        },
        WindowTabCommand::OtherFocus => (WindowTabCommandEffect::Nothing, focus != Focus::Workbench),
        WindowTabCommand::Other => (WindowTabCommandEffect::Nothing, false),
    }
}

/// The key-binding conditions that a window tab answers; it answers no to
/// every other condition.
#[derive(Debug, Clone, Copy, PartialEq, Eq, Structural)]
pub enum WindowTabCondition {
    PanelFocus,
    SourceControlFocus,
    Other,
}

pub fn check_window_tab_condition(condition: WindowTabCondition, focus: Focus) -> (r: bool)
    ensures
        r == (match condition {
            WindowTabCondition::PanelFocus => focus is Panel,
            WindowTabCondition::SourceControlFocus => focus == Focus::Panel(PanelKind::SourceControl),
            WindowTabCondition::Other => false,
        }),
{
    match condition {
        WindowTabCondition::PanelFocus => match focus {
            Focus::Panel(_) => true,
            _ => false,
        },
        WindowTabCondition::SourceControlFocus => focus == Focus::Panel(PanelKind::SourceControl),
        WindowTabCondition::Other => false,
    }
}

/// A change of a file in the workspace, as source control reports it.
#[derive(Debug, Clone, PartialEq, Eq)]
pub enum FileDiff {
    Modified(String),
    Added(String),
    Deleted(String),
    /// The new path and the old path.
    Renamed(String, String),
}

impl FileDiff {
    pub open spec fn spec_path(&self) -> Seq<char> {
        match self {
            FileDiff::Modified(p) | FileDiff::Added(p) | FileDiff::Deleted(p) => p@,
            FileDiff::Renamed(p, _) => p@,
        }
    }

    /// The same change: same kind, same paths.
    pub open spec fn same_as(&self, other: FileDiff) -> bool {
        match (*self, other) {
            (FileDiff::Modified(a), FileDiff::Modified(b)) => a@ == b@,
            (FileDiff::Added(a), FileDiff::Added(b)) => a@ == b@,
            (FileDiff::Deleted(a), FileDiff::Deleted(b)) => a@ == b@,
            (FileDiff::Renamed(a, c), FileDiff::Renamed(b, d)) => a@ == b@ && c@ == d@,
            _ => false,
        }
    }

    /// A copy of the change.
    pub fn copy(&self) -> (r: FileDiff)
        ensures
            r.same_as(*self),
    {
        match self {
            FileDiff::Modified(p) => FileDiff::Modified(p.clone()),
            FileDiff::Added(p) => FileDiff::Added(p.clone()),
            FileDiff::Deleted(p) => FileDiff::Deleted(p.clone()),
            FileDiff::Renamed(p, q) => FileDiff::Renamed(p.clone(), q.clone()),
        }
    }

    /// The path the change is listed under: the new path of a rename.
    pub fn path(&self) -> (r: &String)
        ensures
            r@ == self.spec_path(),
    {
        match self {
            FileDiff::Modified(p) | FileDiff::Added(p) | FileDiff::Deleted(p) => p,
            FileDiff::Renamed(p, _) => p,
        }
    }
}

/// How the changes to one file are discarded: the paths moved to the trash
/// and the paths restored from the repository.
#[derive(Debug, Clone, PartialEq, Eq)]
pub struct DiscardPlan {
    pub trash: Vec<String>,
    pub restore: Vec<String>,
}

/// An added file is trashed; a modified or deleted file is restored; a
/// rename restores the old path and trashes the new one.
pub fn discard_plan(diff: &FileDiff) -> (r: DiscardPlan)
    ensures
        match *diff {
            FileDiff::Added(p) => r.trash@ == seq![p] && r.restore@.len() == 0,
            FileDiff::Modified(p) | FileDiff::Deleted(p) => r.trash@.len() == 0 && r.restore@ == seq![p],
            FileDiff::Renamed(new_path, old_path) => r.trash@ == seq![new_path] && r.restore@ == seq![
                old_path,
            ],
        },
{
    match diff {
        FileDiff::Added(p) => DiscardPlan { trash: vec![p.clone()], restore: Vec::new() },
        FileDiff::Modified(p) | FileDiff::Deleted(p) => DiscardPlan { trash: Vec::new(), restore: vec![p.clone()] },
        FileDiff::Renamed(new_path, old_path) => DiscardPlan {
            trash: vec![new_path.clone()],
            restore: vec![old_path.clone()],
        },
    }
}

/// The added files among the listed changes, in order.
pub open spec fn spec_added_paths(diffs: Seq<(FileDiff, bool)>) -> Seq<Seq<char>>
    decreases diffs.len(),
{
    if diffs.len() == 0 {
        Seq::empty()
    } else {
        let rest = spec_added_paths(diffs.drop_last());
        match diffs.last().0 {
            FileDiff::Added(p) => rest.push(p@),
            _ => rest,
        }
    }
}

/// The files that "discard all changes" moves to the trash: restoring the
/// index only restores tracked files, so the added ones are removed.
pub fn added_paths(diffs: &Vec<(FileDiff, bool)>) -> (r: Vec<String>)
    ensures
        r@.map_values(|p: String| p@) == spec_added_paths(diffs@),
{
    let mut r: Vec<String> = Vec::new();
    let mut i: usize = 0;
    while i < diffs.len()
        invariant
            i <= diffs@.len(),
            r@.map_values(|p: String| p@) == spec_added_paths(diffs@.subrange(0, i as int)),
        decreases diffs.len() - i,
    {
        assert(diffs@.subrange(0, i + 1).drop_last() =~= diffs@.subrange(0, i as int));
        match &diffs[i].0 {
            FileDiff::Added(p) => {
                let ghost before = r@;
                r.push(p.clone());
                assert(r@.map_values(|p: String| p@) =~= before.map_values(|p: String| p@).push(p@));
            },
            _ => {},
        }
        i = i + 1;
    }
    assert(diffs@.subrange(0, diffs@.len() as int) =~= diffs@);
    r
}

/// The index of the first entry whose change is listed under a path equal
/// to `path`.
pub open spec fn find_diff(entries: Seq<(FileDiff, bool)>, path: Seq<char>) -> Option<int>
    decreases entries.len(),
{
    if entries.len() == 0 {
        None
    } else if spec_path_eq(entries[0].0.spec_path(), path) {
        Some(0)
    } else {
        match find_diff(entries.drop_first(), path) {
            Some(i) => Some(i + 1),
            None => None,
        }
    }
}

pub proof fn lemma_find_diff(entries: Seq<(FileDiff, bool)>, path: Seq<char>)
    ensures
        find_diff(entries, path) matches Some(i) ==> 0 <= i < entries.len() && spec_path_eq(
            entries[i].0.spec_path(),
            path,
        ),
        find_diff(entries, path) is None ==> forall|j: int|
            0 <= j < entries.len() ==> !spec_path_eq(#[trigger] entries[j].0.spec_path(), path),
    decreases entries.len(),
{
    if entries.len() > 0 && !spec_path_eq(entries[0].0.spec_path(), path) {
        let rest = entries.drop_first();
        lemma_find_diff(rest, path);
        if find_diff(entries, path) is None {
            assert forall|j: int| 0 <= j < entries.len() implies !spec_path_eq(
                #[trigger] entries[j].0.spec_path(),
                path,
            ) by {
                if j > 0 {
                    assert(entries[j] == rest[j - 1]);
                }
            }
        }
    }
}

/// The changes listed after source control reports `diffs`: one entry per
/// path, in the order the paths first appear, holding the last change
/// reported for it; an entry keeps the check mark it had before, and a new
/// path is checked.
pub open spec fn spec_merge_diffs(previous: Seq<(FileDiff, bool)>, diffs: Seq<FileDiff>) -> Seq<(FileDiff, bool)>
    decreases diffs.len(),
{
    if diffs.len() == 0 {
        Seq::empty()
    } else {
        let prev = spec_merge_diffs(previous, diffs.drop_last());
        let d = diffs.last();
        let checked = match find_diff(previous, d.spec_path()) {
            Some(i) => previous[i].1,
            None => true,
        };
        match find_diff(prev, d.spec_path()) {
            Some(i) => prev.update(i, (d, checked)),
            None => prev.push((d, checked)),
        }
    }
}

fn find_diff_index(entries: &Vec<(FileDiff, bool)>, path: &String) -> (r: Option<usize>)
    ensures
        match find_diff(entries@, path@) {
            Some(i) => r == Some(i as usize),
            None => r is None,
        },
{
    let mut i: usize = 0;
    assert(entries@.skip(0) =~= entries@);
    while i < entries.len()
        invariant
            i <= entries@.len(),
            find_diff(entries@, path@) == (match find_diff(entries@.skip(i as int), path@) {
                Some(k) => Some(k + i),
                None => None,
            }),
        decreases entries.len() - i,
    {
        assert(entries@.skip(i as int).drop_first() =~= entries@.skip(i + 1));
        if path_eq(entries[i].0.path().as_str(), path.as_str()) {
            return Some(i);
        }
        i = i + 1;
    }
    None
}

/// The new list of changes (see [`spec_merge_diffs`]).
pub fn merge_file_diffs(previous: &Vec<(FileDiff, bool)>, diffs: Vec<FileDiff>) -> (r: Vec<(FileDiff, bool)>)
    ensures
        r@ == spec_merge_diffs(previous@, diffs@),
{
    let ghost all = diffs@;
    let mut rest = diffs;
    let mut r: Vec<(FileDiff, bool)> = Vec::new();
    let ghost mut i: int = 0;
    while rest.len() > 0
        invariant
            0 <= i <= all.len(),
            rest@ == all.skip(i),
            r@ == spec_merge_diffs(previous@, all.subrange(0, i)),
        decreases rest.len(),
    {
        let d = rest.remove(0);
        assert(all.subrange(0, i + 1).drop_last() =~= all.subrange(0, i));
        assert(all.subrange(0, i + 1).last() == d);
        proof {
            lemma_find_diff(previous@, d.spec_path());
            lemma_find_diff(r@, d.spec_path());
        }
        assert(previous@.len() == previous.len());
        assert(r@.len() == r.len());
        let checked = match find_diff_index(previous, d.path()) {
            Some(k) => previous[k].1,
            None => true,
        };
        match find_diff_index(&r, d.path()) {
            Some(k) => {
                r.set(k, (d, checked));
            },
            None => {
                r.push((d, checked));
            },
        }
        proof {
            i = i + 1;
        }
        assert(rest@ =~= all.skip(i));
    }
    assert(all.subrange(0, i) =~= all);
    r
}

proof fn lemma_find_diff_first(entries: Seq<(FileDiff, bool)>, path: Seq<char>, j: int)
    requires
        0 <= j < entries.len(),
        spec_path_eq(entries[j].0.spec_path(), path),
        forall|m: int| 0 <= m < j ==> !spec_path_eq(#[trigger] entries[m].0.spec_path(), path),
    ensures
        find_diff(entries, path) == Some(j),
    decreases entries.len(),
{
    if j > 0 {
        let rest = entries.drop_first();
        assert(!spec_path_eq(entries[0].0.spec_path(), path));
        assert forall|m: int| 0 <= m < j - 1 implies !spec_path_eq(#[trigger] rest[m].0.spec_path(), path) by {
            assert(rest[m] == entries[m + 1]);
        }
        assert(rest[j - 1] == entries[j]);
        lemma_find_diff_first(rest, path, j - 1);
    }
}

/// Merging a report keeps the user's check marks: each entry of the new
/// list holds one of the reported changes, and its mark is the one that the
/// previous list held for that path (at the first entry under an equal
/// path, wherever it stood), or set when the previous list had no entry
/// under that path.
pub proof fn law_merged_entries_keep_their_marks(previous: Seq<(FileDiff, bool)>, diffs: Seq<FileDiff>, k: int)
    requires
        0 <= k < spec_merge_diffs(previous, diffs).len(),
    ensures
        ({
            let e = spec_merge_diffs(previous, diffs)[k];
            &&& exists|i: int| 0 <= i < diffs.len() && diffs[i] == e.0
            &&& (forall|j: int| 0 <= j < previous.len() ==> !spec_path_eq(#[trigger] previous[j].0.spec_path(), e.0.spec_path()))
                ==> e.1
            &&& forall|j: int|
                0 <= j < previous.len() && spec_path_eq(previous[j].0.spec_path(), e.0.spec_path()) && (forall|m: int|
                    0 <= m < j ==> !spec_path_eq(#[trigger] previous[m].0.spec_path(), e.0.spec_path()))
                    ==> e.1 == #[trigger] previous[j].1
        }),
    decreases diffs.len(),
{
    let merged = spec_merge_diffs(previous, diffs);
    let e = merged[k];
    let prev = spec_merge_diffs(previous, diffs.drop_last());
    let d = diffs.last();
    let checked = match find_diff(previous, d.spec_path()) {
        Some(i) => previous[i].1,
        None => true,
    };
    lemma_find_diff(prev, d.spec_path());
    lemma_find_diff(previous, d.spec_path());
    let changed: int = match find_diff(prev, d.spec_path()) {
        Some(i) => i,
        None => prev.len() as int,
    };
    if k == changed {
        assert(e == (d, checked));
        assert(diffs[diffs.len() - 1] == e.0);
        assert forall|j: int|
            0 <= j < previous.len() && spec_path_eq(previous[j].0.spec_path(), e.0.spec_path()) && (forall|m: int|
                0 <= m < j ==> !spec_path_eq(#[trigger] previous[m].0.spec_path(), e.0.spec_path()))
                implies e.1 == #[trigger] previous[j].1 by {
            lemma_find_diff_first(previous, d.spec_path(), j);
        }
    } else {
        assert(k < prev.len());
        assert(e == prev[k]);
        law_merged_entries_keep_their_marks(previous, diffs.drop_last(), k);
        let i = choose|i: int| 0 <= i < diffs.drop_last().len() && diffs.drop_last()[i] == e.0;
        assert(diffs[i] == e.0);
    }
}

/// The path of an open file after the file or folder at `current` was
/// renamed to `new_path`: for a file at or under `current`, the same place
/// under `new_path`; `None` for a file elsewhere, which keeps its path.
pub open spec fn spec_renamed_path(path: Seq<char>, current: Seq<char>, new_path: Seq<char>) -> Option<
    Seq<char>,
> {
    if spec_path_starts_with(path, current) {
        match spec_path_strip_prefix(path, current) {
            Some(suffix) => Some(spec_path_join(new_path, suffix)),
            None => None,
        }
    } else {
        None
    }
}

pub fn renamed_path(path: &str, current: &str, new_path: &str) -> (r: Option<String>)
    ensures
        match r {
            Some(p) => spec_renamed_path(path@, current@, new_path@) == Some(p@),
            None => spec_renamed_path(path@, current@, new_path@) is None,
        },
{
    if !path_starts_with(path, current) {
        return None;
    }
    match path_strip_prefix(path, current) {
        Some(suffix) => Some(path_join(new_path, suffix.as_str())),
        None => None,
    }
}

/// The change listed for the file at `path`, if source control lists one.
pub fn diff_for_path(diffs: &Vec<(FileDiff, bool)>, path: &str) -> (r: Option<FileDiff>)
    ensures
        match find_diff(diffs@, path@) {
            Some(i) => r matches Some(d) && d.same_as(diffs@[i].0),
            None => r is None,
        },
{
    let p = String::from_str(path);
    proof {
        lemma_find_diff(diffs@, path@);
    }
    assert(diffs@.len() == diffs.len());
    match find_diff_index(diffs, &p) {
        Some(i) => Some(diffs[i].0.copy()),
        None => None,
    }
}

/// The address of a line of a file on the hosting service: the file's
/// address with the anchor `#L<line>`.
pub fn remote_line_url(file_url: &str, line: usize) -> (r: String)
    ensures
        r@ == file_url@ + "#L"@ + spec_decimal(line as nat),
{
    let mut r = concat(file_url, "#L");
    let n = decimal(line);
    r.append(n.as_str());
    r
}

/// The folder shown for a file in the system's file manager: the folder
/// that holds it, or the path itself where it has no parent.
pub fn reveal_folder(path: &str) -> (r: String)
    ensures
        r@ == (match spec_path_parent(path@) {
            Some(p) => p,
            None => path@,
        }),
{
    match path_parent(path) {
        Some(p) => p,
        None => String::from_str(path),
    }
}

/// Where the folder dialog of "open folder" starts: in the folder that
/// holds the open workspace, if any.
pub fn folder_dialog_start(workspace: &LapceWorkspace) -> (r: Option<String>)
    ensures
        match workspace.path {
            None => r is None,
            Some(p) => match spec_path_parent(p@) {
                Some(q) => r matches Some(s) && s@ == q,
                None => r is None,
            },
        },
{
    match &workspace.path {
        None => None,
        Some(p) => path_parent(p.as_str()),
    }
}

/// Whether `content` is a file whose path equals `path`.
pub open spec fn is_file_at(content: DocContent, path: Seq<char>) -> bool {
    match content {
        DocContent::File { path: p, .. } => spec_path_eq(p@, path),
        _ => false,
    }
}

/// Which of the open documents "save all" saves: each file once, at its
/// first editor.
pub open spec fn spec_save_targets(contents: Seq<DocContent>) -> Seq<bool> {
    Seq::new(
        contents.len(),
        |i: int| match contents[i] {
            DocContent::File { path, .. } => forall|j: int| 0 <= j < i ==> !#[trigger] is_file_at(contents[j], path@),
            _ => false,
        },
    )
}

pub fn save_all_targets(contents: &Vec<DocContent>) -> (r: Vec<bool>)
    ensures
        r@ == spec_save_targets(contents@),
{
    let mut r: Vec<bool> = Vec::new();
    let mut i: usize = 0;
    while i < contents.len()
        invariant
            i <= contents@.len(),
            r@ == spec_save_targets(contents@).subrange(0, i as int),
        decreases contents.len() - i,
    {
        let save = match &contents[i] {
            DocContent::File { path, .. } => {
                let mut seen = false;
                let mut j: usize = 0;
                while j < i
                    invariant
                        j <= i < contents@.len(),
                        seen == exists|k: int| 0 <= k < j && #[trigger] is_file_at(contents@[k], path@),
                    decreases i - j,
                {
                    let here = match &contents[j] {
                        DocContent::File { path: q, .. } => path_eq(q.as_str(), path.as_str()),
                        _ => false,
                    };
                    assert(here == is_file_at(contents@[j as int], path@));
                    if here {
                        seen = true;
                    }
                    j = j + 1;
                }
                !seen
            },
            _ => false,
        };
        r.push(save);
        assert(r@ =~= spec_save_targets(contents@).subrange(0, i + 1));
        i = i + 1;
    }
    assert(spec_save_targets(contents@).subrange(0, contents@.len() as int) =~= spec_save_targets(contents@));
    r
}

/// "Save all" saves a file once: of two saved documents, the later one is a
/// file whose path the earlier one is not at.
pub proof fn law_save_all_saves_each_file_once(contents: Seq<DocContent>, i: int, j: int)
    requires
        0 <= i < j < contents.len(),
        spec_save_targets(contents)[i],
        spec_save_targets(contents)[j],
    ensures
        contents[j] matches DocContent::File { path, .. } && !is_file_at(contents[i], path@),
{
}

/// The name of the log file of a day, from the day's date as
/// `YYYY-MM-DD`.
pub fn log_file_name(date: &str) -> (r: String)
    ensures
        r@ == "lapce."@ + date@ + ".log"@,
{
    let mut r = crate::text::concat("lapce.", date);
    r.append(".log");
    r
}

/// A line and column, both counted from 1.
#[derive(Debug, Clone, Copy, PartialEq, Eq, Structural)]
pub struct LineCol {
    pub line: usize,
    pub column: usize,
}

/// A path handed to the editor to open, with an optional position.
#[derive(Debug, Clone)]
pub struct PathObject {
    pub path: String,
    pub linecol: Option<LineCol>,
    pub is_dir: bool,
}

/// A file to open, with its position as a zero-based line and character.
#[derive(Debug, Clone)]
pub struct FileToOpen {
    pub path: String,
    pub position: Option<(u32, u32)>,
}

/// The zero-based position of a one-based line and column (as the
/// language-server protocol counts: in 32 bits).
pub open spec fn spec_position(lc: LineCol) -> (u32, u32) {
    (
        (if lc.line > 0 { lc.line - 1 } else { 0 }) as u32,
        (if lc.column > 0 { lc.column - 1 } else { 0 }) as u32,
    )
}

/// How a request to open paths is carried out: each folder is opened as a
/// workspace in a new window tab, and each file in a new editor, at its
/// position.
pub fn plan_open_paths(paths: &Vec<PathObject>) -> (r: (Vec<String>, Vec<FileToOpen>))
    ensures
        r.0@.len() + r.1@.len() == paths@.len(),
        r.0@.map_values(|p: String| p@) == paths@.filter(|p: PathObject| p.is_dir).map_values(
            |p: PathObject| p.path@,
        ),
        r.1@.map_values(|f: FileToOpen| (f.path@, f.position)) == paths@.filter(
            |p: PathObject| !p.is_dir,
        ).map_values(
            |p: PathObject|
                (
                    p.path@,
                    match p.linecol {
                        Some(lc) => Some(spec_position(lc)),
                        None => None,
                    },
                ),
        ),
{
    let mut folders: Vec<String> = Vec::new();
    let mut files: Vec<FileToOpen> = Vec::new();
    let mut i: usize = 0;
    let ghost is_dir = |p: PathObject| p.is_dir;
    let ghost is_file = |p: PathObject| !p.is_dir;
    let ghost fview = |p: PathObject| p.path@;
    let ghost pview = |p: PathObject|
        (
            p.path@,
            match p.linecol {
                Some(lc) => Some(spec_position(lc)),
                None => None,
            },
        );
    while i < paths.len()
        invariant
            i <= paths@.len(),
            is_dir == (|p: PathObject| p.is_dir),
            is_file == (|p: PathObject| !p.is_dir),
            fview == (|p: PathObject| p.path@),
            pview == (|p: PathObject|
                (
                    p.path@,
                    match p.linecol {
                        Some(lc) => Some(spec_position(lc)),
                        None => None,
                    },
                )),
            folders@.len() + files@.len() == i,
            folders@.map_values(|p: String| p@) == paths@.subrange(0, i as int).filter(is_dir).map_values(fview),
            files@.map_values(|f: FileToOpen| (f.path@, f.position)) == paths@.subrange(0, i as int).filter(
                is_file,
            ).map_values(pview),
        decreases paths.len() - i,
    {
        let p = &paths[i];
        let ghost pre = paths@.subrange(0, i as int);
        assert(paths@.subrange(0, i + 1) =~= pre.push(*p));
        proof {
            reveal(Seq::filter);
            assert(pre.push(*p).drop_last() =~= pre);
        }
        if p.is_dir {
            let ghost before = folders@;
            folders.push(p.path.clone());
            assert(folders@.map_values(|p: String| p@) =~= before.map_values(|p: String| p@).push(p.path@));
            assert(pre.push(*p).filter(is_dir) == pre.filter(is_dir).push(*p));
            assert(pre.push(*p).filter(is_dir).map_values(fview) =~= pre.filter(is_dir).map_values(fview).push(
                p.path@,
            ));
            assert(pre.push(*p).filter(is_file) == pre.filter(is_file));
        } else {
            let position = match p.linecol {
                Some(lc) => {
                    let line: usize = if lc.line > 0 { lc.line - 1 } else { 0 };
                    let column: usize = if lc.column > 0 { lc.column - 1 } else { 0 };
                    Some((line as u32, column as u32))
                },
                None => None,
            };
            let ghost before = files@;
            let f = FileToOpen { path: p.path.clone(), position };
            files.push(f);
            assert(files@.map_values(|f: FileToOpen| (f.path@, f.position)) =~= before.map_values(
                |f: FileToOpen| (f.path@, f.position),
            ).push(pview(*p)));
            assert(pre.push(*p).filter(is_file) == pre.filter(is_file).push(*p));
            assert(pre.push(*p).filter(is_file).map_values(pview) =~= pre.filter(is_file).map_values(pview).push(
                pview(*p),
            ));
            assert(pre.push(*p).filter(is_dir) == pre.filter(is_dir));
        }
        i = i + 1;
    }
    assert(paths@.subrange(0, paths@.len() as int) =~= paths@);
    (folders, files)
}

/// The about popup: whether it is shown, and the focus it moves.
#[derive(Debug, Clone, Copy, PartialEq, Eq, Structural)]
pub struct AboutData {
    pub visible: bool,
    pub focus: Focus,
}

impl AboutData {
    /// Hidden, with the given focus.
    pub fn new(focus: Focus) -> (r: AboutData)
        ensures
            r == (AboutData { visible: false, focus }),
    {
        AboutData { visible: false, focus }
    }

    /// Shows the popup and gives it the focus.
    pub fn open(&mut self)
        ensures
            *final(self) == (AboutData { visible: true, focus: Focus::AboutPopup }),
    {
        self.visible = true;
        self.focus = Focus::AboutPopup;
    }

    /// Hides the popup and gives the focus back to the workbench.
    pub fn close(&mut self)
        ensures
            *final(self) == (AboutData { visible: false, focus: Focus::Workbench }),
    {
        self.visible = false;
        self.focus = Focus::Workbench;
    }

    /// Runs a command while the popup has the focus: the modal-close focus
    /// command closes it; every command counts as executed.
    pub fn run_command(&mut self, is_modal_close: bool) -> (executed: bool)
        ensures
            executed,
            is_modal_close ==> *final(self) == (AboutData { visible: false, focus: Focus::Workbench }),
            !is_modal_close ==> *final(self) == *old(self),
    {
        if is_modal_close {
            self.close();
        }
        true
    }

    /// Key-binding conditions hold while the popup is shown.
    pub fn check_condition(&self) -> (r: bool)
        ensures
            r == self.visible,
    {
        self.visible
    }
}

} // verus!
