use vstd::prelude::*;
use vstd::string::StringExecFns;

verus! {

/// The sixteen colours of the text console.
#[derive(Debug, Clone, Copy, PartialEq, Eq, Structural)]
pub enum ConsoleColor {
    Black,
    Red,
    Green,
    Yellow,
    Blue,
    Magenta,
    Cyan,
    White,
    BrightBlack,
    BrightRed,
    BrightGreen,
    BrightYellow,
    BrightBlue,
    BrightMagenta,
    BrightCyan,
    BrightWhite,
}

/// The colour that an ANSI foreground code (30..=37, 90..=97) selects.
pub open spec fn color_of_fg_code(code: u8) -> Option<ConsoleColor> {
    if code == 30 { Some(ConsoleColor::Black) }
    else if code == 31 { Some(ConsoleColor::Red) }
    else if code == 32 { Some(ConsoleColor::Green) }
    else if code == 33 { Some(ConsoleColor::Yellow) }
    else if code == 34 { Some(ConsoleColor::Blue) }
    else if code == 35 { Some(ConsoleColor::Magenta) }
    else if code == 36 { Some(ConsoleColor::Cyan) }
    else if code == 37 { Some(ConsoleColor::White) }
    else if code == 90 { Some(ConsoleColor::BrightBlack) }
    else if code == 91 { Some(ConsoleColor::BrightRed) }
    else if code == 92 { Some(ConsoleColor::BrightGreen) }
    else if code == 93 { Some(ConsoleColor::BrightYellow) }
    else if code == 94 { Some(ConsoleColor::BrightBlue) }
    else if code == 95 { Some(ConsoleColor::BrightMagenta) }
    else if code == 96 { Some(ConsoleColor::BrightCyan) }
    else if code == 97 { Some(ConsoleColor::BrightWhite) }
    else { None }
}

/// The ANSI foreground code of a colour; the background code is ten more.
pub open spec fn fg_code(c: ConsoleColor) -> u8 {
    match c {
        ConsoleColor::Black => 30,
        ConsoleColor::Red => 31,
        ConsoleColor::Green => 32,
        ConsoleColor::Yellow => 33,
        ConsoleColor::Blue => 34,
        ConsoleColor::Magenta => 35,
        ConsoleColor::Cyan => 36,
        ConsoleColor::White => 37,
        ConsoleColor::BrightBlack => 90,
        ConsoleColor::BrightRed => 91,
        ConsoleColor::BrightGreen => 92,
        ConsoleColor::BrightYellow => 93,
        ConsoleColor::BrightBlue => 94,
        ConsoleColor::BrightMagenta => 95,
        ConsoleColor::BrightCyan => 96,
        ConsoleColor::BrightWhite => 97,
    }
}

/// Maps an ANSI SGR colour code to a console colour. Foreground codes are
/// 30..=37 and 90..=97; background codes are the same plus ten, and are
/// accepted only when `is_background` is set.
pub fn ansi_color_to_console_color(code: u8, is_background: bool) -> (r: Option<ConsoleColor>)
    ensures
        !is_background ==> r == color_of_fg_code(code),
        is_background ==> r == (if code >= 10 { color_of_fg_code((code - 10) as u8) } else { None }),
{
    let fg: u8 = if is_background {
        if code < 40 {
            return None;
        }
        code - 10
    } else {
        code
    };
    match fg {
        30 => Some(ConsoleColor::Black),
        31 => Some(ConsoleColor::Red),
        32 => Some(ConsoleColor::Green),
        33 => Some(ConsoleColor::Yellow),
        34 => Some(ConsoleColor::Blue),
        35 => Some(ConsoleColor::Magenta),
        36 => Some(ConsoleColor::Cyan),
        37 => Some(ConsoleColor::White),
        90 => Some(ConsoleColor::BrightBlack),
        91 => Some(ConsoleColor::BrightRed),
        92 => Some(ConsoleColor::BrightGreen),
        93 => Some(ConsoleColor::BrightYellow),
        94 => Some(ConsoleColor::BrightBlue),
        95 => Some(ConsoleColor::BrightMagenta),
        96 => Some(ConsoleColor::BrightCyan),
        97 => Some(ConsoleColor::BrightWhite),
        _ => None,
    }
}

/// A colour as red, green and blue intensities.
#[derive(Debug, Clone, Copy, PartialEq, Eq, Structural)]
pub struct Rgb888 {
    pub r: u8,
    pub g: u8,
    pub b: u8,
}

/// The red, green and blue intensities of each console colour (the VGA palette).
pub open spec fn rgb_of(c: ConsoleColor) -> (u8, u8, u8) {
    match c {
        ConsoleColor::Black => (0, 0, 0),
        ConsoleColor::Red => (170, 0, 0),
        ConsoleColor::Green => (0, 170, 0),
        ConsoleColor::Yellow => (170, 85, 0),
        ConsoleColor::Blue => (0, 0, 170),
        ConsoleColor::Magenta => (170, 0, 170),
        ConsoleColor::Cyan => (0, 170, 170),
        ConsoleColor::White => (170, 170, 170),
        ConsoleColor::BrightBlack => (85, 85, 85),
        ConsoleColor::BrightRed => (255, 85, 85),
        ConsoleColor::BrightGreen => (85, 255, 85),
        ConsoleColor::BrightYellow => (255, 255, 85),
        ConsoleColor::BrightBlue => (85, 85, 255),
        ConsoleColor::BrightMagenta => (255, 85, 255),
        ConsoleColor::BrightCyan => (85, 255, 255),
        ConsoleColor::BrightWhite => (255, 255, 255),
    }
}

impl ConsoleColor {
    /// The colour's red, green and blue intensities.
    pub fn to_rgb888(&self) -> (r: Rgb888)
        ensures
            (r.r, r.g, r.b) == rgb_of(*self),
    {
        let (r, g, b): (u8, u8, u8) = match self {
            ConsoleColor::Black => (0, 0, 0),
            ConsoleColor::Red => (170, 0, 0),
            ConsoleColor::Green => (0, 170, 0),
            ConsoleColor::Yellow => (170, 85, 0),
            ConsoleColor::Blue => (0, 0, 170),
            ConsoleColor::Magenta => (170, 0, 170),
            ConsoleColor::Cyan => (0, 170, 170),
            ConsoleColor::White => (170, 170, 170),
            ConsoleColor::BrightBlack => (85, 85, 85),
            ConsoleColor::BrightRed => (255, 85, 85),
            ConsoleColor::BrightGreen => (85, 255, 85),
            ConsoleColor::BrightYellow => (255, 255, 85),
            ConsoleColor::BrightBlue => (85, 85, 255),
            ConsoleColor::BrightMagenta => (255, 85, 255),
            ConsoleColor::BrightCyan => (85, 255, 255),
            ConsoleColor::BrightWhite => (255, 255, 255),
        };
        Rgb888 { r, g, b }
    }
}

/// The character of a decimal digit.
pub open spec fn digit_char(d: int) -> char {
    if d == 0 { '0' }
    else if d == 1 { '1' }
    else if d == 2 { '2' }
    else if d == 3 { '3' }
    else if d == 4 { '4' }
    else if d == 5 { '5' }
    else if d == 6 { '6' }
    else if d == 7 { '7' }
    else if d == 8 { '8' }
    else { '9' }
}

/// The escape sequence `ESC [ code m` for a two-digit SGR code.
pub open spec fn sgr(code: int) -> Seq<char> {
    seq!['\x1b', '[', digit_char(code / 10), digit_char(code % 10), 'm']
}

/// The escape sequence that resets all attributes, `ESC [ 0 m`.
pub open spec fn sgr_reset() -> Seq<char> {
    seq!['\x1b', '[', '0', 'm']
}

/// `text` wrapped so that a terminal shows it in `color`: the colour's
/// foreground escape sequence, the text, then the reset sequence.
pub open spec fn colored_spec(text: Seq<char>, color: ConsoleColor) -> Seq<char> {
    sgr(fg_code(color) as int) + text + sgr_reset()
}

/// The foreground escape sequence of a colour.
fn fg_prefix(color: ConsoleColor) -> (r: &'static str)
    ensures
        r@ == sgr(fg_code(color) as int),
{
    match color {
        ConsoleColor::Black => { proof { reveal_strlit("\x1b[30m"); } "\x1b[30m" },
        ConsoleColor::Red => { proof { reveal_strlit("\x1b[31m"); } "\x1b[31m" },
        ConsoleColor::Green => { proof { reveal_strlit("\x1b[32m"); } "\x1b[32m" },
        ConsoleColor::Yellow => { proof { reveal_strlit("\x1b[33m"); } "\x1b[33m" },
        ConsoleColor::Blue => { proof { reveal_strlit("\x1b[34m"); } "\x1b[34m" },
        ConsoleColor::Magenta => { proof { reveal_strlit("\x1b[35m"); } "\x1b[35m" },
        ConsoleColor::Cyan => { proof { reveal_strlit("\x1b[36m"); } "\x1b[36m" },
        ConsoleColor::White => { proof { reveal_strlit("\x1b[37m"); } "\x1b[37m" },
        ConsoleColor::BrightBlack => { proof { reveal_strlit("\x1b[90m"); } "\x1b[90m" },
        ConsoleColor::BrightRed => { proof { reveal_strlit("\x1b[91m"); } "\x1b[91m" },
        ConsoleColor::BrightGreen => { proof { reveal_strlit("\x1b[92m"); } "\x1b[92m" },
        ConsoleColor::BrightYellow => { proof { reveal_strlit("\x1b[93m"); } "\x1b[93m" },
        ConsoleColor::BrightBlue => { proof { reveal_strlit("\x1b[94m"); } "\x1b[94m" },
        ConsoleColor::BrightMagenta => { proof { reveal_strlit("\x1b[95m"); } "\x1b[95m" },
        ConsoleColor::BrightCyan => { proof { reveal_strlit("\x1b[96m"); } "\x1b[96m" },
        ConsoleColor::BrightWhite => { proof { reveal_strlit("\x1b[97m"); } "\x1b[97m" },
    }
}

/// `text` wrapped in the escape sequences that show it in `color`.
pub fn colored(text: &str, color: ConsoleColor) -> (r: String)
    ensures
        r@ == colored_spec(text@, color),
{
    let mut r = String::from_str(fg_prefix(color));
    r.append(text);
    proof {
        reveal_strlit("\x1b[0m");
    }
    r.append("\x1b[0m");
    r
}

/// Text that can be shown in a console colour.
pub trait ColoredWriting {
    /// The characters of the text.
    spec fn text(&self) -> Seq<char>;

    /// The text wrapped in the escape sequences that show it in `color`.
    fn fg(&self, color: ConsoleColor) -> (r: String)
        ensures
            r@ == colored_spec(self.text(), color),
    ;
}

impl ColoredWriting for str {
    open spec fn text(&self) -> Seq<char> {
        self@
    }

    fn fg(&self, color: ConsoleColor) -> (r: String) {
        colored(self, color)
    }
}

} // verus!
