//! Commands of the workbench.
use vstd::prelude::*;

verus! {

/// A command that acts on the workbench as a whole.
#[derive(Debug, Clone, Copy, PartialEq, Eq, Structural)]
pub enum TexasWorkbenchCommand {
    EnableModal,
    DisableModal,
    OpenFolder,
    CloseFolder,
    OpenFile,
    NewFile,
    RevealActiveFileInFileExplorer,
    SaveAll,
    OpenSettings,
    OpenSettingsFile,
    OpenSettingsDirectory,
    OpenThemeColorSettings,
    OpenKeyboardShortcuts,
    OpenKeyboardShortcutsFile,
    OpenLogFile,
    OpenLogsDirectory,
    OpenThemesDirectory,
    OpenGrammarsDirectory,
    OpenQueriesDirectory,
    ExportCurrentThemeSettings,
    ReloadWindow,
    NewWindow,
    CloseWindow,
    NewWindowTab,
    CloseWindowTab,
    NextWindowTab,
    PreviousWindowTab,
    NextEditorTab,
    PreviousEditorTab,
    NewTerminalTab,
    CloseTerminalTab,
    NextTerminalTab,
    PreviousTerminalTab,
    PaletteHelp,
    PaletteHelpAndFile,
    PaletteLine,
    Palette,
    PaletteCommand,
    PaletteWorkspace,
    PaletteSCMReferences,
    ChangeColorTheme,
    ChangeIconTheme,
    ChangeFileLanguage,
    ChangeFileLineEnding,
    DiffFiles,
    ZoomIn,
    ZoomOut,
    ZoomReset,
    ToggleMaximizedPanel,
    HidePanel,
    ShowPanel,
    TogglePanelFocus,
    TogglePanelVisual,
    TogglePanelLeftVisual,
    TogglePanelRightVisual,
    TogglePanelBottomVisual,
    ToggleTerminalFocus,
    ToggleSourceControlFocus,
    ToggleFileExplorerFocus,
    ToggleSearchFocus,
    ToggleTerminalVisual,
    ToggleSourceControlVisual,
    ToggleFileExplorerVisual,
    ToggleSearchVisual,
    FocusEditor,
    FocusTerminal,
    OpenUIInspector,
    ShowEnvironment,
    SourceControlInit,
    CheckoutReference,
    SourceControlCommit,
    SourceControlCopyActiveFileRemoteUrl,
    SourceControlDiscardActiveFileChanges,
    SourceControlDiscardTargetFileChanges,
    SourceControlDiscardWorkspaceChanges,
    ShowAbout,
    RestartToUpdate,
    InstallToPATH,
    UninstallFromPATH,
    JumpLocationForward,
    JumpLocationBackward,
    JumpLocationForwardLocal,
    JumpLocationBackwardLocal,
    Quit,
    RevealInPanel,
    SourceControlOpenActiveFileRemoteUrl,
    RevealInFileExplorer,
    GoToLocation,
}

} // verus!
