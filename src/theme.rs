//! Output options and token styling.
//!
//! Every token of a line goes through `style` with the role it plays. With
//! no theme the token is left as it is; with a theme it is painted in the
//! theme's colour for that role.
use vstd::prelude::*;
use colored::Colorize;
pub use crate::options::Options;

verus! {

/// A 24-bit colour.
#[derive(Clone, Copy, PartialEq, Eq, Structural)]
pub struct Color {
    pub r: u8,
    pub g: u8,
    pub b: u8,
}

/// The colour with the given red, green and blue components.
pub fn color(r: u8, g: u8, b: u8) -> (c: Color)
    ensures
        c == (Color { r, g, b }),
{
    Color { r, g, b }
}

/// The part a token plays in a line of output.
#[derive(Clone, Copy, PartialEq, Eq, Structural)]
pub enum Role {
    Opcode,
    Error,
    Bytecode,
    Indirect,
    Operand,
    Index,
    Immediate,
    Comment,
    X8,
    X16,
    X32,
    X64,
}

/// A colour for each role.
#[derive(Clone, Copy, PartialEq, Eq, Structural)]
pub struct Theme {
    pub opcode: Color,
    pub error: Color,
    pub bytecode: Color,
    pub indirect: Color,
    pub operand: Color,
    pub index: Color,
    pub immediate: Color,
    pub comment: Color,
    pub x8: Color,
    pub x16: Color,
    pub x32: Color,
    pub x64: Color,
}

impl Theme {
    pub open spec fn spec_color_of(self, role: Role) -> Color {
        match role {
            Role::Opcode => self.opcode,
            Role::Error => self.error,
            Role::Bytecode => self.bytecode,
            Role::Indirect => self.indirect,
            Role::Operand => self.operand,
            Role::Index => self.index,
            Role::Immediate => self.immediate,
            Role::Comment => self.comment,
            Role::X8 => self.x8,
            Role::X16 => self.x16,
            Role::X32 => self.x32,
            Role::X64 => self.x64,
        }
    }

    /// The colour that this theme gives to `role`.
    #[verifier::when_used_as_spec(spec_color_of)]
    pub fn color_of(self, role: Role) -> (c: Color)
        ensures
            c == self.spec_color_of(role),
    {
        match role {
            Role::Opcode => self.opcode,
            Role::Error => self.error,
            Role::Bytecode => self.bytecode,
            Role::Indirect => self.indirect,
            Role::Operand => self.operand,
            Role::Index => self.index,
            Role::Immediate => self.immediate,
            Role::Comment => self.comment,
            Role::X8 => self.x8,
            Role::X16 => self.x16,
            Role::X32 => self.x32,
            Role::X64 => self.x64,
        }
    }
}

/// `out` is `text` as a terminal painter may hand it back: unchanged when
/// colouring is off, else opened by an escape sequence that starts with
/// ESC '[' and closed by the reset sequence ESC "[0m".
pub open spec fn painted(text: Seq<char>, out: Seq<char>) -> bool {
    ||| out == text
    ||| {
        &&& out.len() >= 6
        &&& out.take(2) == seq!['\u{1b}', '[']
        &&& out.skip(out.len() - 4) == seq!['\u{1b}', '[', '0', 'm']
    }
}

/// `out` is `text` styled under `options`: the text itself without a
/// theme, a painting of it with one.
pub open spec fn styled(options: Options, text: Seq<char>, out: Seq<char>) -> bool {
    match options.theme {
        None => out == text,
        Some(_) => painted(text, out),
    }
}

/// Relies on colored's `Colorize::truecolor` and on the `Display` of the
/// `ColoredString` it returns: when colouring is off (colored decides this
/// from the environment and the terminal) the text comes back as it was;
/// otherwise it comes back between a style sequence that begins ESC '[' and
/// the reset sequence ESC "[0m".
#[verifier::external_body]
fn truecolor_string(text: &str, r: u8, g: u8, b: u8) -> (out: String)
    ensures
        painted(text@, out@),
{
    text.truecolor(r, g, b).to_string()
}

/// Paints `string` in `color`.
pub fn colored_string(string: String, color: Color) -> (out: String)
    ensures
        painted(string@, out@),
{
    truecolor_string(string.as_str(), color.r, color.g, color.b)
}

/// Styles `string` for `role` under `options`.
pub fn style(string: String, role: Role, options: &Options) -> (out: String)
    ensures
        styled(*options, string@, out@),
{
    match options.theme {
        Some(theme) => colored_string(string, theme.color_of(role)),
        None => string,
    }
}

pub fn color_opcode(string: String, options: &Options) -> (out: String)
    ensures
        styled(*options, string@, out@),
{
    style(string, Role::Opcode, options)
}

pub fn color_error(string: String, options: &Options) -> (out: String)
    ensures
        styled(*options, string@, out@),
{
    style(string, Role::Error, options)
}

pub fn color_bytecode(string: String, options: &Options) -> (out: String)
    ensures
        styled(*options, string@, out@),
{
    style(string, Role::Bytecode, options)
}

pub fn color_indirect(string: String, options: &Options) -> (out: String)
    ensures
        styled(*options, string@, out@),
{
    style(string, Role::Indirect, options)
}

pub fn color_operand(string: String, options: &Options) -> (out: String)
    ensures
        styled(*options, string@, out@),
{
    style(string, Role::Operand, options)
}

pub fn color_index(string: String, options: &Options) -> (out: String)
    ensures
        styled(*options, string@, out@),
{
    style(string, Role::Index, options)
}

pub fn color_immediate(string: String, options: &Options) -> (out: String)
    ensures
        styled(*options, string@, out@),
{
    style(string, Role::Immediate, options)
}

pub fn color_comment(string: String, options: &Options) -> (out: String)
    ensures
        styled(*options, string@, out@),
{
    style(string, Role::Comment, options)
}

pub fn color_x8(string: String, options: &Options) -> (out: String)
    ensures
        styled(*options, string@, out@),
{
    style(string, Role::X8, options)
}

pub fn color_x16(string: String, options: &Options) -> (out: String)
    ensures
        styled(*options, string@, out@),
{
    style(string, Role::X16, options)
}

pub fn color_x32(string: String, options: &Options) -> (out: String)
    ensures
        styled(*options, string@, out@),
{
    style(string, Role::X32, options)
}

pub fn color_x64(string: String, options: &Options) -> (out: String)
    ensures
        styled(*options, string@, out@),
{
    style(string, Role::X64, options)
}

/// A value that prints as one token group of a line.
pub trait Emit {
    /// The text of the value when no theme is set.
    spec fn plain(&self) -> Seq<char>;

    /// The value's text under `options`.
    fn emit(&self, options: &Options) -> (out: String)
        ensures
            options.theme is None ==> out@ == self.plain(),
    ;
}

} // verus!
