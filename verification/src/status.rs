//! What the status bar at the bottom of a window tab shows, and what its
//! parts do when clicked.
use vstd::prelude::*;

use crate::command::TexasWorkbenchCommand;
use crate::config::LapceColor;
use crate::doc::DocContent;
use crate::i18n::{I18n, args_view, substitute_spec};
use crate::text::{concat, decimal, spec_decimal};
use crate::window_tab::{Mode, VisualMode};

verus! {

/// The message key of the label of `mode`.
pub open spec fn spec_mode_label_key(mode: Mode) -> Seq<char> {
    match mode {
        Mode::Normal => "keymap.normal"@,
        Mode::Insert => "keymap.insert"@,
        Mode::Visual(VisualMode::Normal) => "keymap.visual"@,
        Mode::Visual(VisualMode::Linewise) => "keymap.visual-line"@,
        Mode::Visual(VisualMode::Blockwise) => "keymap.visual-block"@,
        Mode::Terminal => "keymap.terminal"@,
    }
}

pub fn mode_label_key(mode: Mode) -> (r: &'static str)
    ensures
        r@ == spec_mode_label_key(mode),
{
    match mode {
        Mode::Normal => "keymap.normal",
        Mode::Insert => "keymap.insert",
        Mode::Visual(VisualMode::Normal) => "keymap.visual",
        Mode::Visual(VisualMode::Linewise) => "keymap.visual-line",
        Mode::Visual(VisualMode::Blockwise) => "keymap.visual-block",
        Mode::Terminal => "keymap.terminal",
    }
}

/// The label of the mode indicator: the translation of the mode's key.
pub fn mode_label(i18n: &I18n, mode: Mode) -> (r: String)
    ensures
        r@ == i18n.spec_text(spec_mode_label_key(mode)),
{
    i18n.text(mode_label_key(mode))
}

/// The theme colors (background, foreground) of the mode indicator.
pub fn mode_colors(mode: Mode) -> (r: (&'static str, &'static str))
    ensures
        r.0@ == (match mode {
            Mode::Normal => LapceColor::STATUS_MODAL_NORMAL_BACKGROUND@,
            Mode::Insert => LapceColor::STATUS_MODAL_INSERT_BACKGROUND@,
            Mode::Visual(_) => LapceColor::STATUS_MODAL_VISUAL_BACKGROUND@,
            Mode::Terminal => LapceColor::STATUS_MODAL_TERMINAL_BACKGROUND@,
        }),
        r.1@ == (match mode {
            Mode::Normal => LapceColor::STATUS_MODAL_NORMAL_FOREGROUND@,
            Mode::Insert => LapceColor::STATUS_MODAL_INSERT_FOREGROUND@,
            Mode::Visual(_) => LapceColor::STATUS_MODAL_VISUAL_FOREGROUND@,
            Mode::Terminal => LapceColor::STATUS_MODAL_TERMINAL_FOREGROUND@,
        }),
{
    match mode {
        Mode::Normal => (LapceColor::STATUS_MODAL_NORMAL_BACKGROUND, LapceColor::STATUS_MODAL_NORMAL_FOREGROUND),
        Mode::Insert => (LapceColor::STATUS_MODAL_INSERT_BACKGROUND, LapceColor::STATUS_MODAL_INSERT_FOREGROUND),
        Mode::Visual(_) => (LapceColor::STATUS_MODAL_VISUAL_BACKGROUND, LapceColor::STATUS_MODAL_VISUAL_FOREGROUND),
        Mode::Terminal => (
            LapceColor::STATUS_MODAL_TERMINAL_BACKGROUND,
            LapceColor::STATUS_MODAL_TERMINAL_FOREGROUND,
        ),
    }
}

/// The source-control label: the branch, marked with `*` while the
/// workspace has changes. The bar hides it when it is empty.
pub fn branch_label(branch: &str, has_changes: bool) -> (r: String)
    ensures
        r@ == branch@ + (if has_changes {
            "*"@
        } else {
            Seq::empty()
        }),
{
    if has_changes {
        concat(branch, "*")
    } else {
        let r = String::from_str(branch);
        assert(r@ =~= branch@ + Seq::<char>::empty());
        r
    }
}

/// What clicking the source-control label does.
pub fn branch_click_command() -> (r: TexasWorkbenchCommand)
    ensures
        r == TexasWorkbenchCommand::PaletteSCMReferences,
{
    TexasWorkbenchCommand::PaletteSCMReferences
}

/// Whether the cursor, line-ending and language items are shown: only for
/// an active editor on a file or a scratch buffer.
pub fn shows_document_status(content: Option<&DocContent>) -> (r: bool)
    ensures
        r == (match content {
            Some(c) => c is File || c is Scratch,
            None => false,
        }),
{
    match content {
        Some(DocContent::File { .. }) => true,
        Some(DocContent::Scratch { .. }) => true,
        _ => false,
    }
}

/// The message of `key`, or `fallback` where no catalog has it.
pub open spec fn template_or(i18n: I18n, key: Seq<char>, fallback: Seq<char>) -> Seq<char> {
    match i18n.spec_template(key) {
        Some(t) => t,
        None => fallback,
    }
}

/// The distance between two offsets.
pub open spec fn spec_abs_diff(a: usize, b: usize) -> nat {
    if a <= b {
        (b - a) as nat
    } else {
        (a - b) as nat
    }
}

/// The cursor item of the status bar, from the cursor's zero-based line,
/// column and character offset (where the buffer can tell them), its
/// selection (anchor and end offsets), and the number of selections.
pub open spec fn spec_cursor_status(
    i18n: I18n,
    position: Option<(usize, usize, usize)>,
    selection: Option<(usize, usize)>,
    selection_count: usize,
) -> Seq<char> {
    let base = match position {
        Some((line, column, character)) => substitute_spec(
            template_or(i18n, "status.cursor-position"@, "Ln {line}, Col {column}, Char {char}"@),
            seq![
                ("line"@, spec_decimal((line + 1) as nat)),
                ("column"@, spec_decimal((column + 1) as nat)),
                ("char"@, spec_decimal(character as nat)),
            ],
        ),
        None => Seq::empty(),
    };
    let selected = match selection {
        Some((start, end)) => if start != end {
            substitute_spec(
                template_or(i18n, "status.selected"@, "{base} ({count} selected)"@),
                seq![("base"@, base), ("count"@, spec_decimal(spec_abs_diff(start, end)))],
            )
        } else {
            base
        },
        None => base,
    };
    if selection_count > 1 {
        substitute_spec(
            template_or(i18n, "status.selections"@, "{base} {count} selections"@),
            seq![("base"@, selected), ("count"@, spec_decimal(selection_count as nat))],
        )
    } else {
        selected
    }
}

/// The text of the cursor item (see [`spec_cursor_status`]).
pub fn cursor_status(
    i18n: &I18n,
    position: Option<(usize, usize, usize)>,
    selection: Option<(usize, usize)>,
    selection_count: usize,
) -> (r: String)
    requires
        position matches Some((line, column, _)) ==> line < usize::MAX && column < usize::MAX,
    ensures
        r@ == spec_cursor_status(*i18n, position, selection, selection_count),
{
    let mut status = String::new();
    match position {
        Some((line, column, character)) => {
            let l = decimal(line + 1);
            let c = decimal(column + 1);
            let ch = decimal(character);
            let args = vec![("line", l.as_str()), ("column", c.as_str()), ("char", ch.as_str())];
            assert(args_view(args@) =~= seq![("line"@, l@), ("column"@, c@), ("char"@, ch@)]);
            status = i18n.text_with_args(
                "status.cursor-position",
                "Ln {line}, Col {column}, Char {char}",
                args.as_slice(),
            );
        },
        None => {},
    }
    match selection {
        Some((start, end)) => {
            if start != end {
                let range = if start <= end {
                    end - start
                } else {
                    start - end
                };
                let n = decimal(range);
                let args = vec![("base", status.as_str()), ("count", n.as_str())];
                assert(args_view(args@) =~= seq![("base"@, status@), ("count"@, n@)]);
                status = i18n.text_with_args("status.selected", "{base} ({count} selected)", args.as_slice());
            }
        },
        None => {},
    }
    if selection_count > 1 {
        let n = decimal(selection_count);
        let args = vec![("base", status.as_str()), ("count", n.as_str())];
        assert(args_view(args@) =~= seq![("base"@, status@), ("count"@, n@)]);
        status = i18n.text_with_args("status.selections", "{base} {count} selections", args.as_slice());
    }
    status
}

/// The number of selected characters written in the cursor item is the
/// distance between the two ends of the selection: the text is the same
/// whichever end is the anchor, and the same as for a selection of that
/// length that starts at offset 0. This holds with or without translations.
pub proof fn law_selected_count_is_the_selection_length(
    i18n: I18n,
    position: Option<(usize, usize, usize)>,
    start: usize,
    end: usize,
    selection_count: usize,
)
    ensures
        spec_cursor_status(i18n, position, Some((start, end)), selection_count) == spec_cursor_status(
            i18n,
            position,
            Some((end, start)),
            selection_count,
        ),
        start <= end ==> spec_cursor_status(i18n, position, Some((start, end)), selection_count)
            == spec_cursor_status(i18n, position, Some((0usize, (end - start) as usize)), selection_count),
        spec_plain_cursor_status(position, Some((start, end)), selection_count) == spec_plain_cursor_status(
            position,
            Some((end, start)),
            selection_count,
        ),
        start <= end ==> spec_plain_cursor_status(position, Some((start, end)), selection_count)
            == spec_plain_cursor_status(position, Some((0usize, (end - start) as usize)), selection_count),
{
    assert(spec_abs_diff(start, end) == spec_abs_diff(end, start));
    if start <= end {
        assert(spec_abs_diff(start, end) == spec_abs_diff(0usize, (end - start) as usize));
    }
}

/// The label of the mode indicator in the status bar without visual-mode
/// keys: the visual line and block modes add ` Line` and ` Block` to the
/// translation of `keymap.visual`.
pub open spec fn spec_suffixed_mode_label(i18n: I18n, mode: Mode) -> Seq<char> {
    match mode {
        Mode::Visual(VisualMode::Linewise) => i18n.spec_text("keymap.visual"@) + " Line"@,
        Mode::Visual(VisualMode::Blockwise) => i18n.spec_text("keymap.visual"@) + " Block"@,
        _ => i18n.spec_text(spec_mode_label_key(mode)),
    }
}

pub fn suffixed_mode_label(i18n: &I18n, mode: Mode) -> (r: String)
    ensures
        r@ == spec_suffixed_mode_label(*i18n, mode),
{
    match mode {
        Mode::Visual(VisualMode::Linewise) => {
            let mut r = i18n.text("keymap.visual");
            r.append(" Line");
            r
        },
        Mode::Visual(VisualMode::Blockwise) => {
            let mut r = i18n.text("keymap.visual");
            r.append(" Block");
            r
        },
        _ => i18n.text(mode_label_key(mode)),
    }
}

/// The cursor item of a status bar without translations (see
/// [`spec_cursor_status`] for the arguments).
pub open spec fn spec_plain_cursor_status(
    position: Option<(usize, usize, usize)>,
    selection: Option<(usize, usize)>,
    selection_count: usize,
) -> Seq<char> {
    let base = match position {
        Some((line, column, character)) => "Ln "@ + spec_decimal((line + 1) as nat) + ", Col "@
            + spec_decimal((column + 1) as nat) + ", Char "@ + spec_decimal(character as nat),
        None => Seq::empty(),
    };
    let selected = match selection {
        Some((start, end)) => if start != end {
            base + " ("@ + spec_decimal(spec_abs_diff(start, end)) + " selected)"@
        } else {
            base
        },
        None => base,
    };
    if selection_count > 1 {
        selected + " "@ + spec_decimal(selection_count as nat) + " selections"@
    } else {
        selected
    }
}

pub fn plain_cursor_status(
    position: Option<(usize, usize, usize)>,
    selection: Option<(usize, usize)>,
    selection_count: usize,
) -> (r: String)
    requires
        position matches Some((line, column, _)) ==> line < usize::MAX && column < usize::MAX,
    ensures
        r@ == spec_plain_cursor_status(position, selection, selection_count),
{
    let mut status = String::new();
    match position {
        Some((line, column, character)) => {
            let mut s = concat("Ln ", decimal(line + 1).as_str());
            s.append(", Col ");
            s.append(decimal(column + 1).as_str());
            s.append(", Char ");
            s.append(decimal(character).as_str());
            status = s;
        },
        None => {},
    }
    match selection {
        Some((start, end)) => {
            if start != end {
                let range = if start <= end {
                    end - start
                } else {
                    start - end
                };
                status.append(" (");
                status.append(decimal(range).as_str());
                status.append(" selected)");
            }
        },
        None => {},
    }
    if selection_count > 1 {
        status.append(" ");
        status.append(decimal(selection_count).as_str());
        status.append(" selections");
    }
    status
}

/// The language item of the status bar: the language of the active
/// editor's document, or the translation of `status.unknown-language`
/// without an active editor.
pub fn language_label(i18n: &I18n, language: Option<&str>) -> (r: String)
    ensures
        r@ == (match language {
            Some(name) => name@,
            None => i18n.spec_text("status.unknown-language"@),
        }),
{
    match language {
        Some(name) => String::from_str(name),
        None => i18n.text("status.unknown-language"),
    }
}

} // verus!
