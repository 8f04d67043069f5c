use texas::command::TexasWorkbenchCommand;
use texas::config::{
    effective_blink_interval, effective_font_size, ClickMode, LapceColor, LoadThemeError, WrapStyle,
};
use texas::doc::{BufferId, DocContent, DocHistory};
use texas::i18n::{Catalog, I18n, Locale};
use texas::palette::PaletteKind;
use texas::panel::{PanelKind, PanelOrder, PanelPosition};
use texas::text::decimal;
use texas::status::{
    language_label, plain_cursor_status, suffixed_mode_label,
    branch_click_command, branch_label, cursor_status, mode_colors, mode_label, mode_label_key,
    shows_document_status,
};
use texas::title::{
    available_update, maximize_tooltip_key, update_menu_entry, window_controls_hidden, workspace_click_command,
    workspace_label,
};
use texas::window_tab::{
    window_tab_run_command, SplitCommand, WindowTabCommand, WindowTabCommandEffect,
    container_toggle_plan,
    diff_for_path, folder_dialog_start, panel_data_effect, remote_line_url, reveal_folder, PanelCommand,
    PanelDataEffect, TerminalTabMove, WindowAction,
    check_window_tab_condition, key_down_plan, KeyDownPlan, WindowTabCondition,
    added_paths, after_terminal_stopped, after_terminal_tab_closed, discard_plan, key_target, merge_file_diffs,
    next_editor_tab_index, plan_open_paths, previous_editor_tab_index, renamed_path, save_all_targets,
    show_panel_plan, toggle_focus_hides, window_mode, workbench_action, AboutData, DragContent, EditorTabChild,
    FileDiff, Focus, KeyTarget, LineCol, Mode, PanelContainerPosition, PathObject, TerminalPanelUpdate,
    VisualMode, WorkbenchAction,
};
use texas::workspace::LapceWorkspace;

fn catalog(entries: &[(&str, &str)]) -> Catalog {
    Catalog::new(entries.iter().map(|(k, v)| (k.to_string(), v.to_string())).collect())
}

fn english() -> I18n {
    let en = catalog(&[
        ("keymap.normal", "Normal"),
        ("keymap.visual-line", "Visual Line"),
        ("toolbar.open-folder", "Open Folder"),
        ("toolbar.restart-to-update", "Restart to update ({version})"),
        ("toolbar.update-in-progress", "Updating to {version}..."),
        ("toolbar.no-update", "No update available"),
    ]);
    I18n::new("en", Locale::En, en, catalog(&[]))
}

#[test]
fn palette_symbols_select_their_kind() {
    assert_eq!(PaletteKind::from_input(":save"), PaletteKind::Command);
    assert_eq!(PaletteKind::from_input("/12"), PaletteKind::Line);
    assert_eq!(PaletteKind::from_input(">proj"), PaletteKind::Workspace);
    assert_eq!(PaletteKind::from_input("?"), PaletteKind::PaletteHelp);
    assert_eq!(PaletteKind::from_input("<bash"), PaletteKind::TerminalProfile);
    assert_eq!(PaletteKind::from_input("main.rs"), PaletteKind::File);
    assert_eq!(PaletteKind::from_input(""), PaletteKind::File);
    assert_eq!(PaletteKind::Command.symbol(), ":");
    assert_eq!(PaletteKind::File.symbol(), "");
}

#[test]
fn palette_input_drops_the_symbol() {
    assert_eq!(PaletteKind::Command.get_input(":save all"), "save all");
    assert_eq!(PaletteKind::File.get_input("src/lib.rs"), "src/lib.rs");
    assert_eq!(PaletteKind::Line.get_input(""), "");
    assert_eq!(PaletteKind::Line.get_input("é12"), "");
}

#[test]
fn palette_kind_follows_the_input_only_for_searching_kinds() {
    assert_eq!(PaletteKind::File.get_palette_kind(":x"), PaletteKind::Command);
    assert_eq!(PaletteKind::HelpAndFile.get_palette_kind(""), PaletteKind::HelpAndFile);
    assert_eq!(PaletteKind::HelpAndFile.get_palette_kind("a"), PaletteKind::File);
    assert_eq!(PaletteKind::ColorTheme.get_palette_kind(":x"), PaletteKind::ColorTheme);
    assert_eq!(PaletteKind::Command.get_palette_kind("main"), PaletteKind::File);
}

#[test]
fn palette_commands_open_their_palette() {
    assert_eq!(PaletteKind::Command.command(), Some(TexasWorkbenchCommand::PaletteCommand));
    assert_eq!(PaletteKind::TerminalProfile.command(), None);
    assert_eq!(workbench_action(TexasWorkbenchCommand::PaletteCommand), WorkbenchAction::RunPalette(PaletteKind::Command));
    assert_eq!(workbench_action(TexasWorkbenchCommand::PaletteSCMReferences), WorkbenchAction::RunPalette(PaletteKind::SCMReferences));
    assert_eq!(workbench_action(TexasWorkbenchCommand::ToggleSearchVisual), WorkbenchAction::TogglePanelVisual(PanelKind::Search));
    assert_eq!(workbench_action(TexasWorkbenchCommand::TogglePanelBottomVisual), WorkbenchAction::ToggleContainerVisual(PanelContainerPosition::Bottom));
    assert_eq!(workbench_action(TexasWorkbenchCommand::NextEditorTab), WorkbenchAction::CycleEditorTab(true));
    assert_eq!(workbench_action(TexasWorkbenchCommand::OpenFolder), WorkbenchAction::Other);
}

#[test]
fn editor_tabs_cycle() {
    assert_eq!(next_editor_tab_index(3, 2), Some(0));
    assert_eq!(next_editor_tab_index(3, 0), Some(1));
    assert_eq!(previous_editor_tab_index(3, 0), Some(2));
    assert_eq!(previous_editor_tab_index(3, 2), Some(1));
    assert_eq!(next_editor_tab_index(0, 0), None);
    assert_eq!(previous_editor_tab_index(0, 0), None);
    let n = next_editor_tab_index(5, 3).unwrap();
    assert_eq!(previous_editor_tab_index(5, n), Some(3));
}

#[test]
fn window_mode_follows_the_focused_editor() {
    assert_eq!(window_mode(false, Focus::Workbench, Some(Mode::Normal)), Mode::Insert);
    assert_eq!(window_mode(true, Focus::Workbench, Some(Mode::Visual(VisualMode::Linewise))), Mode::Visual(VisualMode::Linewise));
    assert_eq!(window_mode(true, Focus::Palette, Some(Mode::Insert)), Mode::Normal);
    assert_eq!(window_mode(true, Focus::Workbench, None), Mode::Normal);
}

#[test]
fn panel_focus_toggling() {
    assert!(toggle_focus_hides(PanelKind::FileExplorer, Focus::Workbench, true));
    assert!(!toggle_focus_hides(PanelKind::FileExplorer, Focus::Workbench, false));
    assert!(toggle_focus_hides(PanelKind::Terminal, Focus::Panel(PanelKind::Terminal), true));
    assert!(!toggle_focus_hides(PanelKind::Terminal, Focus::Workbench, true));
    assert!(!toggle_focus_hides(PanelKind::Search, Focus::Panel(PanelKind::Search), false));
}

#[test]
fn showing_a_panel() {
    let plan = show_panel_plan(PanelKind::Terminal, true, Focus::Workbench, None);
    assert!(plan.open_terminal);
    assert_eq!(plan.focus, Focus::Panel(PanelKind::Terminal));
    let plan = show_panel_plan(PanelKind::Search, true, Focus::Workbench, Some("needle".to_string()));
    assert!(!plan.open_terminal);
    assert_eq!(plan.search_pattern, Some("needle".to_string()));
    let plan = show_panel_plan(PanelKind::Search, false, Focus::Workbench, Some(String::new()));
    assert_eq!(plan.search_pattern, None);
    let plan = show_panel_plan(PanelKind::Search, false, Focus::Palette, Some("needle".to_string()));
    assert_eq!(plan.search_pattern, None);
}

#[test]
fn terminal_panel_follows_its_tabs() {
    assert_eq!(
        after_terminal_tab_closed(true, true),
        TerminalPanelUpdate { hide_panel: true, show_panel: false, focus: Focus::Workbench }
    );
    assert_eq!(
        after_terminal_tab_closed(false, false),
        TerminalPanelUpdate { hide_panel: false, show_panel: true, focus: Focus::Panel(PanelKind::Terminal) }
    );
    assert_eq!(after_terminal_stopped(false, true), None);
    assert_eq!(
        after_terminal_stopped(true, false),
        Some(TerminalPanelUpdate { hide_panel: false, show_panel: false, focus: Focus::Workbench })
    );
}

#[test]
fn keys_go_to_the_focused_view() {
    assert_eq!(key_target(Focus::Workbench), KeyTarget::MainSplit);
    assert_eq!(key_target(Focus::Panel(PanelKind::Search)), KeyTarget::Search);
    assert_eq!(key_target(Focus::Panel(PanelKind::FileExplorer)), KeyTarget::WindowTab);
    assert_eq!(key_target(Focus::AboutPopup), KeyTarget::AboutPopup);
}

#[test]
fn drag_content_kinds() {
    assert!(DragContent::Panel(PanelKind::Search).is_panel());
    assert!(!DragContent::EditorTab(EditorTabChild { id: 7 }).is_panel());
}

#[test]
fn discarding_changes() {
    let plan = discard_plan(&FileDiff::Renamed("new.rs".to_string(), "old.rs".to_string()));
    assert_eq!(plan.trash, vec!["new.rs".to_string()]);
    assert_eq!(plan.restore, vec!["old.rs".to_string()]);
    let plan = discard_plan(&FileDiff::Added("a.rs".to_string()));
    assert_eq!(plan.trash, vec!["a.rs".to_string()]);
    assert!(plan.restore.is_empty());
    let diffs = vec![
        (FileDiff::Added("a".to_string()), true),
        (FileDiff::Modified("b".to_string()), false),
        (FileDiff::Added("c".to_string()), false),
    ];
    assert_eq!(added_paths(&diffs), vec!["a".to_string(), "c".to_string()]);
}

#[test]
fn file_diffs_keep_their_check_marks() {
    let previous = vec![(FileDiff::Modified("a".to_string()), false), (FileDiff::Modified("b".to_string()), true)];
    let merged = merge_file_diffs(
        &previous,
        vec![
            FileDiff::Deleted("a".to_string()),
            FileDiff::Added("c".to_string()),
            FileDiff::Modified("c".to_string()),
        ],
    );
    assert_eq!(
        merged,
        vec![(FileDiff::Deleted("a".to_string()), false), (FileDiff::Modified("c".to_string()), true)]
    );
}

#[test]
fn save_all_saves_each_file_once() {
    let contents = vec![
        DocContent::File { path: "/w/a.rs".to_string(), read_only: false },
        DocContent::Local,
        DocContent::File { path: "/w/a.rs".to_string(), read_only: false },
        DocContent::Scratch { id: BufferId(3), name: "Untitled-1".to_string() },
        DocContent::File { path: "/w/b.rs".to_string(), read_only: true },
    ];
    assert_eq!(save_all_targets(&contents), vec![true, false, false, false, true]);
}

#[test]
fn renamed_folders_move_their_files() {
    assert_eq!(renamed_path("/w/src/a.rs", "/w/src", "/w/lib"), Some("/w/lib/a.rs".to_string()));
    assert_eq!(renamed_path("/w/srcs/a.rs", "/w/src", "/w/lib"), None);
    assert_eq!(renamed_path("/w/a.rs", "/w/a.rs", "/w/b.rs"), Some("/w/b.rs/".to_string()));
}

#[test]
fn opening_paths_splits_folders_and_files() {
    let paths = vec![
        PathObject { path: "/w".to_string(), linecol: None, is_dir: true },
        PathObject { path: "/w/a.rs".to_string(), linecol: Some(LineCol { line: 10, column: 1 }), is_dir: false },
        PathObject { path: "/w/b.rs".to_string(), linecol: Some(LineCol { line: 0, column: 0 }), is_dir: false },
        PathObject { path: "/w/c.rs".to_string(), linecol: None, is_dir: false },
    ];
    let (folders, files) = plan_open_paths(&paths);
    assert_eq!(folders, vec!["/w".to_string()]);
    assert_eq!(files.len(), 3);
    assert_eq!(files[0].path, "/w/a.rs");
    assert_eq!(files[0].position, Some((9, 0)));
    assert_eq!(files[1].position, Some((0, 0)));
    assert_eq!(files[2].position, None);
}

#[test]
fn about_popup_takes_and_gives_back_the_focus() {
    let mut about = AboutData::new(Focus::Workbench);
    assert!(!about.check_condition());
    about.open();
    assert_eq!(about, AboutData { visible: true, focus: Focus::AboutPopup });
    assert!(about.check_condition());
    assert!(about.run_command(false));
    assert_eq!(about, AboutData { visible: true, focus: Focus::AboutPopup });
    assert!(about.run_command(true));
    assert_eq!(about, AboutData { visible: false, focus: Focus::Workbench });
    about.open();
    about.close();
    assert_eq!(about, AboutData { visible: false, focus: Focus::Workbench });
}

#[test]
fn panels_are_found_in_their_slot() {
    let order = PanelOrder {
        slots: vec![
            (PanelPosition::LeftTop, vec![PanelKind::FileExplorer, PanelKind::SourceControl]),
            (PanelPosition::BottomLeft, vec![PanelKind::Terminal, PanelKind::Search]),
        ],
    };
    assert_eq!(PanelKind::SourceControl.position(&order), Some((1, PanelPosition::LeftTop)));
    assert_eq!(PanelKind::Search.position(&order), Some((1, PanelPosition::BottomLeft)));
    let empty = PanelOrder { slots: vec![(PanelPosition::RightTop, vec![])] };
    assert_eq!(PanelKind::Terminal.position(&empty), None);
    assert_eq!(PanelKind::Terminal.default_position(), PanelPosition::BottomLeft);
    assert_eq!(PanelKind::SourceControl.default_position(), PanelPosition::LeftTop);
    assert_eq!(PanelKind::SourceControl.svg_name(), "scm");
    assert_eq!(PanelKind::FileExplorer.svg_name(), "file_explorer");
}

#[test]
fn settings_values() {
    assert_eq!(WrapStyle::try_from_str("editor-width"), Some(WrapStyle::EditorWidth));
    assert_eq!(WrapStyle::try_from_str("none"), Some(WrapStyle::NoWrap));
    assert_eq!(WrapStyle::try_from_str("None"), None);
    assert_eq!(WrapStyle::WrapWidth.as_str(), "wrap-width");
    assert_eq!(WrapStyle::NoWrap.to_display_string(), "none");
    assert_eq!(WrapStyle::default(), WrapStyle::EditorWidth);
    assert_eq!(ClickMode::default(), ClickMode::SingleClick);
    assert_eq!(effective_font_size(2), 6);
    assert_eq!(effective_font_size(14), 14);
    assert_eq!(effective_font_size(64), 32);
    assert_eq!(effective_blink_interval(0), 0);
    assert_eq!(effective_blink_interval(50), 200);
    assert_eq!(effective_blink_interval(500), 500);
}

#[test]
fn theme_errors_are_described() {
    let e = LoadThemeError::FileNotFound { themes_folder: "/themes".to_string(), theme_name: "dark".to_string() };
    assert_eq!(e.message(), "theme file (dark.toml) was not found in \"/themes\"");
    let e = LoadThemeError::VariableNotFound { variable_name: "$red".to_string() };
    assert_eq!(e.message(), "variable $red not found");
    let e = LoadThemeError::RecursionLimitReached { variable_name: "$red".to_string() };
    assert_eq!(e.message(), "recursion limit reached for $red");
    assert_eq!(LoadThemeError::ThemesFolderNotFound.message(), "themes folder not found, possibly it could not be created");
    let e = LoadThemeError::Read(std::io::Error::new(std::io::ErrorKind::Other, "x"));
    assert_eq!(e.message(), "There was an error reading the theme file");
}

#[test]
fn documents_by_kind() {
    let file = DocContent::File { path: "/w/a.rs".to_string(), read_only: false };
    let history = DocContent::History(DocHistory { path: "/w/a.rs".to_string(), version: "head".to_string() });
    assert!(file.is_file());
    assert!(!file.read_only());
    assert!(history.read_only());
    assert_eq!(file.path(), Some(&"/w/a.rs".to_string()));
    assert_eq!(history.path(), None);
    assert!(DocContent::Local.is_local());
}

#[test]
fn status_bar_items() {
    let i18n = english();
    assert_eq!(mode_label_key(Mode::Visual(VisualMode::Blockwise)), "keymap.visual-block");
    assert_eq!(mode_label(&i18n, Mode::Visual(VisualMode::Linewise)), "Visual Line");
    assert_eq!(mode_label(&i18n, Mode::Terminal), "keymap.terminal");
    assert_eq!(mode_colors(Mode::Insert), (LapceColor::STATUS_MODAL_INSERT_BACKGROUND, LapceColor::STATUS_MODAL_INSERT_FOREGROUND));
    assert_eq!(branch_label("main", true), "main*");
    assert_eq!(branch_label("main", false), "main");
    assert_eq!(branch_click_command(), TexasWorkbenchCommand::PaletteSCMReferences);
    assert!(shows_document_status(Some(&DocContent::Scratch { id: BufferId(1), name: "x".to_string() })));
    assert!(!shows_document_status(Some(&DocContent::Local)));
    assert!(!shows_document_status(None));
}

#[test]
fn numbers_are_written_in_decimal() {
    assert_eq!(decimal(0), "0");
    assert_eq!(decimal(7), "7");
    assert_eq!(decimal(10), "10");
    assert_eq!(decimal(40213), "40213");
    assert_eq!(decimal(usize::MAX), usize::MAX.to_string());
}

#[test]
fn cursor_item_of_the_status_bar() {
    let i18n = english();
    assert_eq!(cursor_status(&i18n, Some((0, 4, 4)), None, 1), "Ln 1, Col 5, Char 4");
    assert_eq!(cursor_status(&i18n, Some((9, 0, 120)), Some((130, 120)), 1), "Ln 10, Col 1, Char 120 (10 selected)");
    assert_eq!(cursor_status(&i18n, Some((9, 0, 120)), Some((120, 120)), 3), "Ln 10, Col 1, Char 120 3 selections");
    assert_eq!(cursor_status(&i18n, None, None, 0), "");
}

#[test]
fn title_bar_items() {
    let i18n = english();
    let none = LapceWorkspace::default();
    let folder = LapceWorkspace { path: Some("/home/me/texas".to_string()), last_open: 3 };
    assert_eq!(workspace_label(&i18n, &none), "Open Folder");
    assert_eq!(workspace_label(&i18n, &folder), "texas");
    assert_eq!(folder.display(), Some("texas".to_string()));
    assert_eq!(folder.to_display_string(), "/home/me/texas");
    assert_eq!(none.to_display_string(), "");
    assert_eq!(workspace_click_command(&none), TexasWorkbenchCommand::PaletteWorkspace);
    assert_eq!(workspace_click_command(&folder), TexasWorkbenchCommand::PaletteHelpAndFile);
    assert_eq!(available_update(Some("0.5.0".to_string()), "0.4.0"), Some("0.5.0".to_string()));
    assert_eq!(available_update(Some("0.4.0".to_string()), "0.4.0"), None);
    assert_eq!(available_update(None, "0.4.0"), None);
    let entry = update_menu_entry(&i18n, Some("0.5.0"), false);
    assert_eq!(entry.label, "Restart to update (0.5.0)");
    assert!(entry.enabled);
    assert_eq!(entry.action, Some(TexasWorkbenchCommand::RestartToUpdate));
    let entry = update_menu_entry(&i18n, Some("0.5.0"), true);
    assert_eq!(entry.label, "Updating to 0.5.0...");
    assert!(!entry.enabled);
    let entry = update_menu_entry(&i18n, None, false);
    assert_eq!(entry.label, "No update available");
    assert_eq!(entry.action, None);
    assert!(window_controls_hidden(false, false, 1));
    assert!(window_controls_hidden(true, true, 2));
    assert!(!window_controls_hidden(true, false, 2));
    assert!(!window_controls_hidden(true, true, 1));
    assert_eq!(maximize_tooltip_key(true), "window.restore");
    assert_eq!(maximize_tooltip_key(false), "window.maximize");
}

#[test]
fn wrap_styles_read_back_as_themselves() {
    for w in [WrapStyle::NoWrap, WrapStyle::EditorWidth, WrapStyle::WrapWidth] {
        assert_eq!(WrapStyle::try_from_str(w.as_str()), Some(w));
    }
}

#[test]
fn effective_settings_are_stable() {
    for size in [0usize, 5, 6, 20, 32, 33, usize::MAX] {
        let once = effective_font_size(size);
        assert!((6..=32).contains(&once));
        assert_eq!(effective_font_size(once), once);
    }
    for interval in [0u64, 1, 199, 200, 1000, u64::MAX] {
        let once = effective_blink_interval(interval);
        assert!(once == 0 || once >= 200);
        assert_eq!(effective_blink_interval(once), once);
    }
}

#[test]
fn every_palette_command_opens_its_own_palette() {
    let kinds = [
        PaletteKind::PaletteHelp,
        PaletteKind::File,
        PaletteKind::Line,
        PaletteKind::Command,
        PaletteKind::Workspace,
        PaletteKind::ColorTheme,
        PaletteKind::IconTheme,
        PaletteKind::Language,
        PaletteKind::LineEnding,
        PaletteKind::SCMReferences,
        PaletteKind::TerminalProfile,
        PaletteKind::DiffFiles,
        PaletteKind::HelpAndFile,
    ];
    for kind in kinds {
        if let Some(cmd) = kind.command() {
            assert_eq!(workbench_action(cmd), WorkbenchAction::RunPalette(kind));
            for other in kinds {
                if other != kind {
                    assert_ne!(other.command(), Some(cmd));
                }
            }
        }
        let symbol = kind.symbol();
        if !symbol.is_empty() {
            let input = format!("{symbol}rest");
            assert_eq!(PaletteKind::from_input(&input), kind);
            assert_eq!(kind.get_input(&input), "rest");
        }
    }
}

#[test]
fn explicit_preferences_ignore_the_system_locale() {
    for p in ["en-US", "zh_CN", "fr", ""] {
        assert_eq!(Locale::from_preference(p, Locale::En), Locale::from_preference(p, Locale::ZhCn));
    }
    assert_eq!(Locale::from_preference("fr", Locale::ZhCn), Locale::En);
    assert_eq!(Locale::from_tag("zh-Hant"), None);
    assert_eq!(Locale::from_tag("ZH-TW"), None);
}

#[test]
fn key_presses_while_an_alert_is_shown() {
    assert_eq!(key_down_plan(true, true, Focus::Workbench), KeyDownPlan::DismissAlert);
    assert_eq!(key_down_plan(true, false, Focus::Palette), KeyDownPlan::Swallow);
    assert_eq!(key_down_plan(false, true, Focus::Palette), KeyDownPlan::Dispatch(KeyTarget::Palette));
}

#[test]
fn window_tab_conditions() {
    assert!(check_window_tab_condition(WindowTabCondition::PanelFocus, Focus::Panel(PanelKind::Terminal)));
    assert!(!check_window_tab_condition(WindowTabCondition::PanelFocus, Focus::Workbench));
    assert!(check_window_tab_condition(WindowTabCondition::SourceControlFocus, Focus::Panel(PanelKind::SourceControl)));
    assert!(!check_window_tab_condition(WindowTabCondition::SourceControlFocus, Focus::Panel(PanelKind::Search)));
    assert!(!check_window_tab_condition(WindowTabCondition::Other, Focus::Panel(PanelKind::Search)));
}

#[test]
fn log_files_are_named_by_day() {
    assert_eq!(texas::window_tab::log_file_name("2024-05-01"), "lapce.2024-05-01.log");
}

#[test]
fn workbench_commands_by_effect() {
    assert_eq!(workbench_action(TexasWorkbenchCommand::EnableModal), WorkbenchAction::SetModal(true));
    assert_eq!(workbench_action(TexasWorkbenchCommand::DisableModal), WorkbenchAction::SetModal(false));
    assert_eq!(workbench_action(TexasWorkbenchCommand::NextTerminalTab), WorkbenchAction::TerminalTab(TerminalTabMove::Next));
    assert_eq!(workbench_action(TexasWorkbenchCommand::CloseTerminalTab), WorkbenchAction::CloseTerminalTab);
    assert_eq!(workbench_action(TexasWorkbenchCommand::HidePanel), WorkbenchAction::PanelFromData(PanelCommand::Hide));
    assert_eq!(workbench_action(TexasWorkbenchCommand::CloseFolder), WorkbenchAction::Window(WindowAction::CloseFolder));
    assert_eq!(workbench_action(TexasWorkbenchCommand::NewWindowTab), WorkbenchAction::Window(WindowAction::NewTab));
    assert_eq!(workbench_action(TexasWorkbenchCommand::ShowAbout), WorkbenchAction::ShowAbout);
    assert_eq!(workbench_action(TexasWorkbenchCommand::SourceControlCommit), WorkbenchAction::Other);
}

#[test]
fn panel_commands_read_their_data() {
    assert_eq!(panel_data_effect(PanelCommand::ToggleMaximize, None), PanelDataEffect::ToggleMaximize(None));
    assert_eq!(panel_data_effect(PanelCommand::ToggleMaximize, Some(None)), PanelDataEffect::Nothing);
    assert_eq!(
        panel_data_effect(PanelCommand::ToggleMaximize, Some(Some(PanelKind::Search))),
        PanelDataEffect::ToggleMaximize(Some(PanelKind::Search))
    );
    assert_eq!(panel_data_effect(PanelCommand::Show, None), PanelDataEffect::Nothing);
    assert_eq!(panel_data_effect(PanelCommand::Show, Some(Some(PanelKind::Terminal))), PanelDataEffect::Show(PanelKind::Terminal));
    assert_eq!(panel_data_effect(PanelCommand::ToggleVisual, Some(Some(PanelKind::FileExplorer))), PanelDataEffect::ToggleVisual(PanelKind::FileExplorer));
}

#[test]
fn source_control_helpers() {
    let diffs = vec![
        (FileDiff::Modified("/w/a.rs".to_string()), true),
        (FileDiff::Renamed("/w/new.rs".to_string(), "/w/old.rs".to_string()), false),
    ];
    assert_eq!(diff_for_path(&diffs, "/w/new.rs"), Some(FileDiff::Renamed("/w/new.rs".to_string(), "/w/old.rs".to_string())));
    assert_eq!(diff_for_path(&diffs, "/w/old.rs"), None);
    assert_eq!(remote_line_url("https://host/repo/blob/main/a.rs", 42), "https://host/repo/blob/main/a.rs#L42");
    assert_eq!(reveal_folder("/w/src/a.rs"), "/w/src");
    assert_eq!(reveal_folder("/"), "/");
    let ws = LapceWorkspace { path: Some("/home/me/texas".to_string()), last_open: 0 };
    assert_eq!(folder_dialog_start(&ws), Some("/home/me".to_string()));
    assert_eq!(folder_dialog_start(&LapceWorkspace::default()), None);
}

#[test]
fn untranslated_status_items() {
    let i18n = english();
    assert_eq!(suffixed_mode_label(&i18n, Mode::Visual(VisualMode::Linewise)), "keymap.visual Line");
    assert_eq!(suffixed_mode_label(&i18n, Mode::Visual(VisualMode::Blockwise)), "keymap.visual Block");
    assert_eq!(suffixed_mode_label(&i18n, Mode::Normal), "Normal");
    assert_eq!(plain_cursor_status(Some((0, 4, 4)), None, 1), "Ln 1, Col 5, Char 4");
    assert_eq!(plain_cursor_status(Some((9, 0, 120)), Some((120, 130)), 2), "Ln 10, Col 1, Char 120 (10 selected) 2 selections");
    assert_eq!(plain_cursor_status(None, None, 0), "");
    assert_eq!(language_label(&i18n, Some("Rust")), "Rust");
    assert_eq!(language_label(&i18n, None), "status.unknown-language");
}

#[test]
fn toggling_a_container_shows_or_hides_its_active_panels() {
    let plan = container_toggle_plan(false, Some(PanelKind::FileExplorer), Some(PanelKind::SourceControl));
    assert!(plan.shown);
    assert_eq!(plan.panels, vec![PanelKind::SourceControl, PanelKind::FileExplorer]);
    let plan = container_toggle_plan(true, None, Some(PanelKind::Search));
    assert!(!plan.shown);
    assert_eq!(plan.panels, vec![PanelKind::Search]);
    assert!(container_toggle_plan(true, None, None).panels.is_empty());
}

#[test]
fn commands_that_reach_the_window_tab() {
    let save = TexasWorkbenchCommand::SaveAll;
    assert_eq!(window_tab_run_command(WindowTabCommand::Workbench(save), Focus::Palette), (WindowTabCommandEffect::RunWorkbench(save), true));
    assert_eq!(
        window_tab_run_command(WindowTabCommand::Split(SplitCommand::Vertical), Focus::Workbench),
        (WindowTabCommandEffect::Split(SplitCommand::Vertical), true)
    );
    assert_eq!(
        window_tab_run_command(WindowTabCommand::Split(SplitCommand::Vertical), Focus::Palette),
        (WindowTabCommandEffect::Nothing, true)
    );
    assert_eq!(window_tab_run_command(WindowTabCommand::OtherFocus, Focus::Workbench), (WindowTabCommandEffect::Nothing, false));
    assert_eq!(window_tab_run_command(WindowTabCommand::OtherFocus, Focus::Palette), (WindowTabCommandEffect::Nothing, true));
    assert_eq!(window_tab_run_command(WindowTabCommand::Other, Focus::Workbench), (WindowTabCommandEffect::Nothing, false));
}

#[test]
fn root_split_of_a_new_window_tab() {
    match texas::window_tab::initial_root_split(Some(vec![1, 2]), true) {
        texas::window_tab::RootSplit::Restored(c) => assert_eq!(c, vec![1, 2]),
        _ => panic!("expected the saved layout"),
    }
    match texas::window_tab::initial_root_split(Some(vec![1, 2]), false) {
        texas::window_tab::RootSplit::Restored(c) => assert!(c.is_empty()),
        _ => panic!("expected the saved layout"),
    }
    match texas::window_tab::initial_root_split::<u8>(None, true) {
        texas::window_tab::RootSplit::Empty(d) => assert_eq!(d, texas::window_tab::SplitDirection::Horizontal),
        _ => panic!("expected an empty root split"),
    }
}
