//! Kinds of command palette and how the palette input selects one.
use vstd::prelude::*;

use crate::command::TexasWorkbenchCommand;

verus! {

/// What the palette lists and searches.
#[derive(Clone, Copy, Debug, PartialEq, Eq, Structural)]
pub enum PaletteKind {
    PaletteHelp,
    File,
    Line,
    Command,
    Workspace,
    ColorTheme,
    IconTheme,
    Language,
    LineEnding,
    SCMReferences,
    TerminalProfile,
    DiffFiles,
    HelpAndFile,
}

/// The prefix character of the kinds that have one.
pub open spec fn symbol_char(kind: PaletteKind) -> Option<char> {
    match kind {
        PaletteKind::PaletteHelp => Some('?'),
        PaletteKind::Line => Some('/'),
        PaletteKind::Workspace => Some('>'),
        PaletteKind::Command => Some(':'),
        PaletteKind::TerminalProfile => Some('<'),
        _ => None,
    }
}

/// The symbol of a kind, as text: its prefix character, or empty.
pub open spec fn spec_symbol(kind: PaletteKind) -> Seq<char> {
    match symbol_char(kind) {
        Some(c) => seq![c],
        None => Seq::empty(),
    }
}

/// The kind that an input selects by its first character.
pub open spec fn spec_from_input(input: Seq<char>) -> PaletteKind {
    if input.len() == 0 {
        PaletteKind::File
    } else if input[0] == '?' {
        PaletteKind::PaletteHelp
    } else if input[0] == '/' {
        PaletteKind::Line
    } else if input[0] == '>' {
        PaletteKind::Workspace
    } else if input[0] == ':' {
        PaletteKind::Command
    } else if input[0] == '<' {
        PaletteKind::TerminalProfile
    } else {
        PaletteKind::File
    }
}

/// The command that opens a kind of palette.
pub open spec fn spec_command(kind: PaletteKind) -> Option<TexasWorkbenchCommand> {
    match kind {
        PaletteKind::PaletteHelp => Some(TexasWorkbenchCommand::PaletteHelp),
        PaletteKind::Line => Some(TexasWorkbenchCommand::PaletteLine),
        PaletteKind::Workspace => Some(TexasWorkbenchCommand::PaletteWorkspace),
        PaletteKind::Command => Some(TexasWorkbenchCommand::PaletteCommand),
        PaletteKind::File => Some(TexasWorkbenchCommand::Palette),
        PaletteKind::HelpAndFile => Some(TexasWorkbenchCommand::PaletteHelpAndFile),
        PaletteKind::ColorTheme => Some(TexasWorkbenchCommand::ChangeColorTheme),
        PaletteKind::IconTheme => Some(TexasWorkbenchCommand::ChangeIconTheme),
        PaletteKind::Language => Some(TexasWorkbenchCommand::ChangeFileLanguage),
        PaletteKind::LineEnding => Some(TexasWorkbenchCommand::ChangeFileLineEnding),
        PaletteKind::SCMReferences => Some(TexasWorkbenchCommand::PaletteSCMReferences),
        PaletteKind::TerminalProfile => None,
        PaletteKind::DiffFiles => Some(TexasWorkbenchCommand::DiffFiles),
    }
}

/// The search text of an input: the input without its first character for
/// the kinds that have a prefix (empty where the first character takes more
/// than one byte, since the prefix is cut at byte 1), else the whole input.
pub open spec fn spec_get_input(kind: PaletteKind, input: Seq<char>) -> Seq<char> {
    if symbol_char(kind) is Some {
        if input.len() > 0 && (input[0] as u32) < 0x80 {
            input.drop_first()
        } else {
            Seq::empty()
        }
    } else {
        input
    }
}

/// The kind that a palette of kind `kind` works as for `input`.
pub open spec fn spec_get_palette_kind(kind: PaletteKind, input: Seq<char>) -> PaletteKind {
    if kind == PaletteKind::HelpAndFile && input.len() == 0 {
        kind
    } else if kind != PaletteKind::File && kind != PaletteKind::HelpAndFile && symbol_char(kind) is None {
        kind
    } else {
        spec_from_input(input)
    }
}

impl PaletteKind {
    /// The symbol/prefix that is used to signify the behavior of the palette.
    pub fn symbol(&self) -> (r: &'static str)
        ensures
            r@ == spec_symbol(*self),
    {
        let r = match self {
            PaletteKind::PaletteHelp => "?",
            PaletteKind::Line => "/",
            PaletteKind::Workspace => ">",
            PaletteKind::Command => ":",
            PaletteKind::TerminalProfile => "<",
            PaletteKind::File
            | PaletteKind::ColorTheme
            | PaletteKind::IconTheme
            | PaletteKind::Language
            | PaletteKind::LineEnding
            | PaletteKind::SCMReferences
            | PaletteKind::HelpAndFile
            | PaletteKind::DiffFiles => "",
        };
        proof {
            reveal_strlit("?");
            reveal_strlit("/");
            reveal_strlit(">");
            reveal_strlit(":");
            reveal_strlit("<");
            reveal_strlit("");
        }
        assert(r@ =~= spec_symbol(*self));
        r
    }

    /// Extract the palette kind from the input string. This is most often a prefix.
    pub fn from_input(input: &str) -> (r: PaletteKind)
        ensures
            r == spec_from_input(input@),
    {
        if input.unicode_len() == 0 {
            return PaletteKind::File;
        }
        let c = input.get_char(0);
        if c == '?' {
            PaletteKind::PaletteHelp
        } else if c == '/' {
            PaletteKind::Line
        } else if c == '>' {
            PaletteKind::Workspace
        } else if c == ':' {
            PaletteKind::Command
        } else if c == '<' {
            PaletteKind::TerminalProfile
        } else {
            PaletteKind::File
        }
    }

    /// Get the [`TexasWorkbenchCommand`] that opens this palette kind, if one exists.
    pub fn command(self) -> (r: Option<TexasWorkbenchCommand>)
        ensures
            r == spec_command(self),
    {
        match self {
            PaletteKind::PaletteHelp => Some(TexasWorkbenchCommand::PaletteHelp),
            PaletteKind::Line => Some(TexasWorkbenchCommand::PaletteLine),
            PaletteKind::Workspace => Some(TexasWorkbenchCommand::PaletteWorkspace),
            PaletteKind::Command => Some(TexasWorkbenchCommand::PaletteCommand),
            PaletteKind::File => Some(TexasWorkbenchCommand::Palette),
            PaletteKind::HelpAndFile => Some(TexasWorkbenchCommand::PaletteHelpAndFile),
            PaletteKind::ColorTheme => Some(TexasWorkbenchCommand::ChangeColorTheme),
            PaletteKind::IconTheme => Some(TexasWorkbenchCommand::ChangeIconTheme),
            PaletteKind::Language => Some(TexasWorkbenchCommand::ChangeFileLanguage),
            PaletteKind::LineEnding => Some(TexasWorkbenchCommand::ChangeFileLineEnding),
            PaletteKind::SCMReferences => Some(TexasWorkbenchCommand::PaletteSCMReferences),
            PaletteKind::TerminalProfile => None,
            PaletteKind::DiffFiles => Some(TexasWorkbenchCommand::DiffFiles),
        }
    }

    /// The part of `input` that the palette searches with.
    pub fn get_input<'a>(&self, input: &'a str) -> (r: &'a str)
        ensures
            r@ == spec_get_input(*self, input@),
    {
        match self {
            PaletteKind::File
            | PaletteKind::ColorTheme
            | PaletteKind::IconTheme
            | PaletteKind::Language
            | PaletteKind::LineEnding
            | PaletteKind::SCMReferences
            | PaletteKind::HelpAndFile
            | PaletteKind::DiffFiles => input,
            PaletteKind::PaletteHelp
            | PaletteKind::Command
            | PaletteKind::Workspace
            | PaletteKind::Line
            | PaletteKind::TerminalProfile => {
                let n = input.unicode_len();
                if n > 0 && (input.get_char(0) as u32) < 0x80 {
                    input.substring_char(1, n)
                } else {
                    let e = input.substring_char(0, 0);
                    assert(e@ =~= Seq::<char>::empty());
                    e
                }
            },
        }
    }

    /// Get the palette kind that it should be considered as based on the current
    /// [`PaletteKind`] and the current input.
    pub fn get_palette_kind(&self, input: &str) -> (r: PaletteKind)
        ensures
            r == spec_get_palette_kind(*self, input@),
    {
        if *self == PaletteKind::HelpAndFile && input.unicode_len() == 0 {
            return *self;
        }
        let has_symbol = match self {
            PaletteKind::PaletteHelp
            | PaletteKind::Line
            | PaletteKind::Workspace
            | PaletteKind::Command
            | PaletteKind::TerminalProfile => true,
            _ => false,
        };
        if *self != PaletteKind::File && *self != PaletteKind::HelpAndFile && !has_symbol {
            return *self;
        }
        PaletteKind::from_input(input)
    }
}

/// A palette kind with a symbol is selected by any input that starts with
/// that symbol, and searches with the rest of the input.
pub proof fn law_symbol_selects_kind(kind: PaletteKind, rest: Seq<char>)
    requires
        symbol_char(kind) is Some,
    ensures
        spec_from_input(spec_symbol(kind) + rest) == kind,
        spec_get_input(kind, spec_symbol(kind) + rest) == rest,
{
    let s = spec_symbol(kind) + rest;
    assert(s[0] == symbol_char(kind).unwrap());
    assert(s.drop_first() =~= rest);
}

/// Kinds without a symbol, other than the file and help-and-file palettes,
/// keep their kind whatever the input.
pub proof fn law_fixed_kinds_ignore_input(kind: PaletteKind, input: Seq<char>)
    requires
        symbol_char(kind) is None,
        kind != PaletteKind::File,
        kind != PaletteKind::HelpAndFile,
    ensures
        spec_get_palette_kind(kind, input) == kind,
{
}

/// Distinct kinds are opened by distinct commands.
pub proof fn law_command_injective(a: PaletteKind, b: PaletteKind)
    requires
        spec_command(a) is Some,
        spec_command(a) == spec_command(b),
    ensures
        a == b,
{
}

} // verus!
