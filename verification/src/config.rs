//! Editor settings, theme-loading errors and the names of theme colors and
//! icons.
use vstd::prelude::*;

use crate::path::{path_debug, spec_path_debug};
use crate::text::{concat, str_chars};

verus! {

/// `std::io::Error`, carried by [`LoadThemeError::Read`].
#[verifier::external_type_specification]
#[verifier::external_body]
pub struct ExIoError(std::io::Error);

/// Why a color theme could not be loaded.
#[derive(Debug)]
pub enum LoadThemeError {
    ThemesFolderNotFound,
    FileNotFound { themes_folder: String, theme_name: String },
    RecursionLimitReached { variable_name: String },
    VariableNotFound { variable_name: String },
    Read(std::io::Error),
}

impl LoadThemeError {
    /// The text of the error.
    pub open spec fn spec_message(&self) -> Seq<char> {
        match self {
            LoadThemeError::ThemesFolderNotFound =>
                "themes folder not found, possibly it could not be created"@,
            LoadThemeError::FileNotFound { themes_folder, theme_name } =>
                "theme file ("@ + theme_name@ + ".toml) was not found in "@
                    + spec_path_debug(themes_folder@),
            LoadThemeError::RecursionLimitReached { variable_name } =>
                "recursion limit reached for "@ + variable_name@,
            LoadThemeError::VariableNotFound { variable_name } =>
                "variable "@ + variable_name@ + " not found"@,
            LoadThemeError::Read(_) => "There was an error reading the theme file"@,
        }
    }

    /// The text of the error, as it is shown to the user.
    pub fn message(&self) -> (r: String)
        ensures
            r@ == self.spec_message(),
    {
        match self {
            LoadThemeError::ThemesFolderNotFound => String::from_str(
                "themes folder not found, possibly it could not be created",
            ),
            LoadThemeError::FileNotFound { themes_folder, theme_name } => {
                let mut r = concat("theme file (", theme_name.as_str());
                r.append(".toml) was not found in ");
                let q = path_debug(themes_folder.as_str());
                r.append(q.as_str());
                r
            },
            LoadThemeError::RecursionLimitReached { variable_name } => concat(
                "recursion limit reached for ",
                variable_name.as_str(),
            ),
            LoadThemeError::VariableNotFound { variable_name } => {
                let mut r = concat("variable ", variable_name.as_str());
                r.append(" not found");
                r
            },
            LoadThemeError::Read(_) => String::from_str("There was an error reading the theme file"),
        }
    }
}

/// How the file explorer reacts to clicks.
#[derive(Debug, Clone, Copy, PartialEq, Eq, Structural)]
pub enum ClickMode {
    SingleClick,
    DoubleClickFile,
    DoubleClickAll,
}

impl Default for ClickMode {
    /// The default: open on a single click.
    fn default() -> (r: ClickMode)
        ensures
            r == ClickMode::SingleClick,
    {
        ClickMode::SingleClick
    }
}

/// How the editor wraps long lines.
#[derive(Debug, Clone, Copy, PartialEq, Eq, Structural)]
pub enum WrapStyle {
    /// No wrapping
    NoWrap,
    /// Wrap at the editor width
    EditorWidth,
    /// Wrap at a specific width
    WrapWidth,
}

/// The setting value that names a wrap style.
pub open spec fn spec_wrap_style_str(w: WrapStyle) -> Seq<char> {
    match w {
        WrapStyle::NoWrap => "none"@,
        WrapStyle::EditorWidth => "editor-width"@,
        WrapStyle::WrapWidth => "wrap-width"@,
    }
}

/// The wrap style that a setting value names.
pub open spec fn spec_wrap_style_from_str(s: Seq<char>) -> Option<WrapStyle> {
    if s == "none"@ {
        Some(WrapStyle::NoWrap)
    } else if s == "editor-width"@ {
        Some(WrapStyle::EditorWidth)
    } else if s == "wrap-width"@ {
        Some(WrapStyle::WrapWidth)
    } else {
        None
    }
}

impl Default for WrapStyle {
    /// The default: wrap at the editor width.
    fn default() -> (r: WrapStyle)
        ensures
            r == WrapStyle::EditorWidth,
    {
        WrapStyle::EditorWidth
    }
}

impl WrapStyle {
    pub fn as_str(&self) -> (r: &'static str)
        ensures
            r@ == spec_wrap_style_str(*self),
    {
        match self {
            WrapStyle::NoWrap => "none",
            WrapStyle::EditorWidth => "editor-width",
            WrapStyle::WrapWidth => "wrap-width",
        }
    }

    pub fn try_from_str(s: &str) -> (r: Option<WrapStyle>)
        ensures
            r == spec_wrap_style_from_str(s@),
    {
        let t = str_chars(s);
        if crate::text::chars_eq_str(&t, "none") {
            Some(WrapStyle::NoWrap)
        } else if crate::text::chars_eq_str(&t, "editor-width") {
            Some(WrapStyle::EditorWidth)
        } else if crate::text::chars_eq_str(&t, "wrap-width") {
            Some(WrapStyle::WrapWidth)
        } else {
            None
        }
    }

    /// The text that `Display` prints for the style: its setting value.
    pub fn to_display_string(&self) -> (r: String)
        ensures
            r@ == spec_wrap_style_str(*self),
    {
        String::from_str(self.as_str())
    }
}

/// Reading back the setting value of a wrap style gives the same style.
pub proof fn law_wrap_style_round_trip(w: WrapStyle)
    ensures
        spec_wrap_style_from_str(spec_wrap_style_str(w)) == Some(w),
{
    reveal_strlit("none");
    reveal_strlit("editor-width");
    reveal_strlit("wrap-width");
    assert("none"@.len() != "editor-width"@.len());
    assert("none"@.len() != "wrap-width"@.len());
    assert("editor-width"@[0] != "wrap-width"@[0]);
}

/// The editor font size that is used: the configured size, clamped to 6..=32.
pub open spec fn spec_font_size(configured: usize) -> usize {
    if configured < 6 {
        6
    } else if configured > 32 {
        32
    } else {
        configured
    }
}

/// The cursor blink interval that is used, in milliseconds: 0 disables
/// blinking; other values are raised to at least 200.
pub open spec fn spec_blink_interval(configured: u64) -> u64 {
    if configured == 0 {
        0
    } else if configured < 200 {
        200
    } else {
        configured
    }
}

pub fn effective_font_size(configured: usize) -> (r: usize)
    ensures
        r == spec_font_size(configured),
{
    if configured < 6 {
        6
    } else if configured > 32 {
        32
    } else {
        configured
    }
}

pub fn effective_blink_interval(configured: u64) -> (r: u64)
    ensures
        r == spec_blink_interval(configured),
{
    if configured == 0 {
        return 0;
    }
    if configured < 200 {
        200
    } else {
        configured
    }
}

/// The effective settings stay within their bounds, and applying the bound
/// twice changes nothing.
pub proof fn law_effective_settings_are_stable(font: usize, blink: u64)
    ensures
        6 <= spec_font_size(font) <= 32,
        spec_font_size(spec_font_size(font)) == spec_font_size(font),
        spec_blink_interval(blink) == 0 || spec_blink_interval(blink) >= 200,
        spec_blink_interval(spec_blink_interval(blink)) == spec_blink_interval(blink),
{
}

/// Names of the theme colors that the workbench uses.
pub struct LapceColor {}

impl LapceColor {
    pub const LAPCE_WARN: &'static str = "lapce.warn";
    pub const LAPCE_ERROR: &'static str = "lapce.error";
    pub const LAPCE_DROPDOWN_SHADOW: &'static str = "lapce.dropdown_shadow";
    pub const LAPCE_BORDER: &'static str = "lapce.border";
    pub const LAPCE_SCROLL_BAR: &'static str = "lapce.scroll_bar";
    pub const LAPCE_TAB_ACTIVE_UNDERLINE: &'static str = "lapce.tab.active.underline";
    pub const LAPCE_TAB_INACTIVE_UNDERLINE: &'static str = "lapce.tab.inactive.underline";
    pub const LAPCE_ICON_ACTIVE: &'static str = "lapce.icon.active";
    pub const LAPCE_ICON_INACTIVE: &'static str = "lapce.icon.inactive";
    pub const EDITOR_BACKGROUND: &'static str = "editor.background";
    pub const EDITOR_FOREGROUND: &'static str = "editor.foreground";
    pub const EDITOR_DIM: &'static str = "editor.dim";
    pub const EDITOR_FOCUS: &'static str = "editor.focus";
    pub const EDITOR_CARET: &'static str = "editor.caret";
    pub const EDITOR_SELECTION: &'static str = "editor.selection";
    pub const EDITOR_CURRENT_LINE: &'static str = "editor.current_line";
    pub const EDITOR_LINK: &'static str = "editor.link";
    pub const EDITOR_VISIBLE_WHITESPACE: &'static str = "editor.visible_whitespace";
    pub const EDITOR_INDENT_GUIDE: &'static str = "editor.indent_guide";
    pub const EDITOR_DRAG_DROP_BACKGROUND: &'static str = "editor.drag_drop_background";
    pub const EDITOR_STICKY_HEADER_BACKGROUND: &'static str = "editor.sticky_header_background";
    pub const ERROR_LENS_ERROR_FOREGROUND: &'static str = "error_lens.error.foreground";
    pub const ERROR_LENS_ERROR_BACKGROUND: &'static str = "error_lens.error.background";
    pub const SOURCE_CONTROL_ADDED: &'static str = "source_control.added";
    pub const SOURCE_CONTROL_REMOVED: &'static str = "source_control.removed";
    pub const SOURCE_CONTROL_MODIFIED: &'static str = "source_control.modified";
    pub const TERMINAL_CURSOR: &'static str = "terminal.cursor";
    pub const TERMINAL_BACKGROUND: &'static str = "terminal.background";
    pub const TERMINAL_FOREGROUND: &'static str = "terminal.foreground";
    pub const TERMINAL_RED: &'static str = "terminal.red";
    pub const TERMINAL_BLUE: &'static str = "terminal.blue";
    pub const TERMINAL_GREEN: &'static str = "terminal.green";
    pub const TERMINAL_YELLOW: &'static str = "terminal.yellow";
    pub const TERMINAL_BLACK: &'static str = "terminal.black";
    pub const TERMINAL_WHITE: &'static str = "terminal.white";
    pub const TERMINAL_CYAN: &'static str = "terminal.cyan";
    pub const TERMINAL_MAGENTA: &'static str = "terminal.magenta";
    pub const TERMINAL_BRIGHT_RED: &'static str = "terminal.bright_red";
    pub const TERMINAL_BRIGHT_BLUE: &'static str = "terminal.bright_blue";
    pub const TERMINAL_BRIGHT_GREEN: &'static str = "terminal.bright_green";
    pub const TERMINAL_BRIGHT_YELLOW: &'static str = "terminal.bright_yellow";
    pub const TERMINAL_BRIGHT_BLACK: &'static str = "terminal.bright_black";
    pub const TERMINAL_BRIGHT_WHITE: &'static str = "terminal.bright_white";
    pub const TERMINAL_BRIGHT_CYAN: &'static str = "terminal.bright_cyan";
    pub const TERMINAL_BRIGHT_MAGENTA: &'static str = "terminal.bright_magenta";
    pub const PALETTE_BACKGROUND: &'static str = "palette.background";
    pub const PALETTE_CURRENT_BACKGROUND: &'static str = "palette.current.background";
    pub const HOVER_BACKGROUND: &'static str = "hover.background";
    pub const TOOLTIP_BACKGROUND: &'static str = "tooltip.background";
    pub const TOOLTIP_FOREGROUND: &'static str = "tooltip.foreground";
    pub const PANEL_BACKGROUND: &'static str = "panel.background";
    pub const PANEL_FOREGROUND: &'static str = "panel.foreground";
    pub const PANEL_FOREGROUND_DIM: &'static str = "panel.foreground.dim";
    pub const PANEL_CURRENT_BACKGROUND: &'static str = "panel.current.background";
    pub const PANEL_HOVERED_BACKGROUND: &'static str = "panel.hovered.background";
    pub const PANEL_HOVERED_ACTIVE_BACKGROUND: &'static str = "panel.hovered.active.background";
    pub const STATUS_BACKGROUND: &'static str = "status.background";
    pub const STATUS_FOREGROUND: &'static str = "status.foreground";
    pub const STATUS_MODAL_NORMAL_BACKGROUND: &'static str = "status.modal.normal.background";
    pub const STATUS_MODAL_NORMAL_FOREGROUND: &'static str = "status.modal.normal.foreground";
    pub const STATUS_MODAL_INSERT_BACKGROUND: &'static str = "status.modal.insert.background";
    pub const STATUS_MODAL_INSERT_FOREGROUND: &'static str = "status.modal.insert.foreground";
    pub const STATUS_MODAL_VISUAL_BACKGROUND: &'static str = "status.modal.visual.background";
    pub const STATUS_MODAL_VISUAL_FOREGROUND: &'static str = "status.modal.visual.foreground";
    pub const STATUS_MODAL_TERMINAL_BACKGROUND: &'static str = "status.modal.terminal.background";
    pub const STATUS_MODAL_TERMINAL_FOREGROUND: &'static str = "status.modal.terminal.foreground";
}

/// Names of the icons of the panels.
pub struct LapceIcons {}

impl LapceIcons {
    pub const TERMINAL: &'static str = "terminal";
    pub const FILE_EXPLORER: &'static str = "file_explorer";
    pub const SCM: &'static str = "scm";
    pub const SEARCH: &'static str = "search";
}

} // verus!
