//! ANSI color codes for the colorized transpiler output: a color wraps a
//! text in its escape code and the reset code.

use vstd::prelude::*;
use vstd::string::*;

verus! {

/// The ANSI colors the transpiler output uses. Variants with a leading
/// underscore are part of the palette but currently unused.
#[derive(Debug, Clone, Copy, PartialEq, Eq, Structural)]
pub enum AnsiColor {
    _Black,
    _Red,
    _Green,
    Yellow,
    Blue,
    Magenta,
    Cyan,
    _White,
    BrightBlack,
    BrightRed,
    BrightGreen,
    BrightYellow,
    BrightBlue,
    _BrightMagenta,
    _BrightCyan,
    _BrightWhite,
}

/// The escape code of a color.
pub open spec fn sp_color_code(c: AnsiColor) -> Seq<char> {
    match c {
        AnsiColor::_Black => "\x1b[30m"@,
        AnsiColor::_Red => "\x1b[31m"@,
        AnsiColor::_Green => "\x1b[32m"@,
        AnsiColor::Yellow => "\x1b[33m"@,
        AnsiColor::Blue => "\x1b[34m"@,
        AnsiColor::Magenta => "\x1b[35m"@,
        AnsiColor::Cyan => "\x1b[36m"@,
        AnsiColor::_White => "\x1b[37m"@,
        AnsiColor::BrightBlack => "\x1b[90m"@,
        AnsiColor::BrightRed => "\x1b[91m"@,
        AnsiColor::BrightGreen => "\x1b[92m"@,
        AnsiColor::BrightYellow => "\x1b[93m"@,
        AnsiColor::BrightBlue => "\x1b[94m"@,
        AnsiColor::_BrightMagenta => "\x1b[95m"@,
        AnsiColor::_BrightCyan => "\x1b[96m"@,
        AnsiColor::_BrightWhite => "\x1b[97m"@,
    }
}

/// A text wrapped in a color's escape code and the reset code.
pub open spec fn sp_colorize(text: Seq<char>, color: AnsiColor) -> Seq<char> {
    sp_color_code(color) + text + "\x1b[0m"@
}

impl AnsiColor {
    fn to_code(&self) -> (r: &'static str)
        ensures
            r@ == sp_color_code(*self),
    {
        match self {
            AnsiColor::_Black => "\x1b[30m",
            AnsiColor::_Red => "\x1b[31m",
            AnsiColor::_Green => "\x1b[32m",
            AnsiColor::Yellow => "\x1b[33m",
            AnsiColor::Blue => "\x1b[34m",
            AnsiColor::Magenta => "\x1b[35m",
            AnsiColor::Cyan => "\x1b[36m",
            AnsiColor::_White => "\x1b[37m",
            AnsiColor::BrightBlack => "\x1b[90m",
            AnsiColor::BrightRed => "\x1b[91m",
            AnsiColor::BrightGreen => "\x1b[92m",
            AnsiColor::BrightYellow => "\x1b[93m",
            AnsiColor::BrightBlue => "\x1b[94m",
            AnsiColor::_BrightMagenta => "\x1b[95m",
            AnsiColor::_BrightCyan => "\x1b[96m",
            AnsiColor::_BrightWhite => "\x1b[97m",
        }
    }
}

/// Wraps `text` in the escape code of `color` and the reset code.
pub fn colorize(text: &str, color: AnsiColor) -> (r: String)
    ensures
        r@ == sp_colorize(text@, color),
{
    let mut s = color.to_code().to_owned();
    s.append(text);
    s.append("\x1b[0m");
    s
}

} // verus!
