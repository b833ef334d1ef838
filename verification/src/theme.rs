//! Themes: palettes, the style of each interface component, and how the
//! colors and styles written in a theme file are read.

use vstd::prelude::*;

use crate::merge::merge_bindings;
use crate::text::{chars_of, spells};

verus! {

/// A terminal color.
#[derive(Debug, Clone, Copy, PartialEq, Eq, Structural)]
pub enum TermColor {
    Reset,
    Black,
    Red,
    Green,
    Yellow,
    Blue,
    Magenta,
    Cyan,
    Gray,
    DarkGray,
    LightRed,
    LightGreen,
    LightYellow,
    LightBlue,
    LightMagenta,
    LightCyan,
    White,
    Rgb(u8, u8, u8),
    Indexed(u8),
}

/// Bold text.
pub const MODIFIER_BOLD: u16 = 0b0000_0000_0001;

/// Italic text.
pub const MODIFIER_ITALIC: u16 = 0b0000_0000_0100;

/// Text with foreground and background swapped.
pub const MODIFIER_REVERSED: u16 = 0b0000_0100_0000;

/// How text is drawn: colors, and the modifiers added and removed, as bit
/// sets.
#[derive(Debug, Clone, Copy, PartialEq, Eq, Structural)]
pub struct TextStyle {
    pub fg: Option<TermColor>,
    pub bg: Option<TermColor>,
    pub add_modifier: u16,
    pub sub_modifier: u16,
}

/// The style that changes nothing.
pub open spec fn plain_style() -> TextStyle {
    TextStyle { fg: None, bg: None, add_modifier: 0, sub_modifier: 0 }
}

/// `t` with the modifiers `m` added (and no longer removed).
pub open spec fn with_modifier(t: TextStyle, m: u16) -> TextStyle {
    TextStyle { add_modifier: t.add_modifier | m, sub_modifier: t.sub_modifier & !m, ..t }
}

impl TextStyle {
    /// The style that changes nothing.
    pub fn new() -> (r: Self)
        ensures
            r == plain_style(),
    {
        TextStyle { fg: None, bg: None, add_modifier: 0, sub_modifier: 0 }
    }

    /// This style with foreground `color`.
    pub fn fg(self, color: TermColor) -> (r: Self)
        ensures
            r == (TextStyle { fg: Some(color), ..self }),
    {
        TextStyle { fg: Some(color), ..self }
    }

    /// This style with background `color`.
    pub fn bg(self, color: TermColor) -> (r: Self)
        ensures
            r == (TextStyle { bg: Some(color), ..self }),
    {
        TextStyle { bg: Some(color), ..self }
    }

    /// This style with the modifiers `m` added.
    pub fn add_modifier(self, m: u16) -> (r: Self)
        ensures
            r == with_modifier(self, m),
    {
        TextStyle { add_modifier: self.add_modifier | m, sub_modifier: self.sub_modifier & !m, ..self }
    }
}

/// A color of a theme: one of the palette's, or an RGB value.
#[derive(Debug, Clone, Copy, PartialEq, Eq, Structural)]
pub enum StyleColor {
    Black,
    Blue,
    Cyan,
    Green,
    Magenta,
    Red,
    White,
    Yellow,
    BrightBlack,
    BrightWhite,
    BrightRed,
    BrightMagenta,
    BrightGreen,
    BrightCyan,
    BrightBlue,
    BrightYellow,
    Rgb { r: u8, g: u8, b: u8 },
}

/// A text modifier of a theme.
#[derive(Debug, Clone, Copy, PartialEq, Eq, Structural)]
pub enum StyleModifier {
    Bold,
    Italic,
    Reversed,
}

/// The modifier bits of `m`.
pub open spec fn modifier_bits(m: StyleModifier) -> u16 {
    match m {
        StyleModifier::Bold => MODIFIER_BOLD,
        StyleModifier::Italic => MODIFIER_ITALIC,
        StyleModifier::Reversed => MODIFIER_REVERSED,
    }
}

impl StyleModifier {
    /// The modifier bits of this modifier.
    pub fn bits(self) -> (r: u16)
        ensures
            r == modifier_bits(self),
    {
        match self {
            StyleModifier::Bold => MODIFIER_BOLD,
            StyleModifier::Italic => MODIFIER_ITALIC,
            StyleModifier::Reversed => MODIFIER_REVERSED,
        }
    }
}

/// The terminal colors a theme's named colors stand for.
#[derive(Debug, Clone, Copy, PartialEq, Eq, Structural)]
pub struct Palette {
    pub background: Option<TermColor>,
    pub foreground: Option<TermColor>,
    pub black: TermColor,
    pub blue: TermColor,
    pub cyan: TermColor,
    pub green: TermColor,
    pub magenta: TermColor,
    pub red: TermColor,
    pub white: TermColor,
    pub yellow: TermColor,
    pub bright_black: TermColor,
    pub bright_white: TermColor,
    pub bright_red: TermColor,
    pub bright_magenta: TermColor,
    pub bright_green: TermColor,
    pub bright_cyan: TermColor,
    pub bright_blue: TermColor,
    pub bright_yellow: TermColor,
}

/// The palette of the terminal's own ANSI colors.
pub open spec fn default_palette() -> Palette {
    Palette {
        background: None,
        foreground: None,
        black: TermColor::Black,
        red: TermColor::Red,
        green: TermColor::Green,
        yellow: TermColor::Yellow,
        blue: TermColor::Blue,
        magenta: TermColor::Magenta,
        cyan: TermColor::Cyan,
        white: TermColor::Gray,
        bright_black: TermColor::DarkGray,
        bright_red: TermColor::LightRed,
        bright_green: TermColor::LightGreen,
        bright_yellow: TermColor::LightYellow,
        bright_blue: TermColor::LightBlue,
        bright_magenta: TermColor::LightMagenta,
        bright_cyan: TermColor::LightCyan,
        bright_white: TermColor::White,
    }
}

impl Default for Palette {
    fn default() -> (r: Self)
        ensures
            r == default_palette(),
    {
        Palette {
            background: None,
            foreground: None,
            black: TermColor::Black,
            red: TermColor::Red,
            green: TermColor::Green,
            yellow: TermColor::Yellow,
            blue: TermColor::Blue,
            magenta: TermColor::Magenta,
            cyan: TermColor::Cyan,
            white: TermColor::Gray,
            bright_black: TermColor::DarkGray,
            bright_red: TermColor::LightRed,
            bright_green: TermColor::LightGreen,
            bright_yellow: TermColor::LightYellow,
            bright_blue: TermColor::LightBlue,
            bright_magenta: TermColor::LightMagenta,
            bright_cyan: TermColor::LightCyan,
            bright_white: TermColor::White,
        }
    }
}

/// The terminal color `c` stands for in palette `p`.
pub open spec fn color_in(c: StyleColor, p: Palette) -> TermColor {
    match c {
        StyleColor::Black => p.black,
        StyleColor::Blue => p.blue,
        StyleColor::Cyan => p.cyan,
        StyleColor::Green => p.green,
        StyleColor::Magenta => p.magenta,
        StyleColor::Red => p.red,
        StyleColor::White => p.white,
        StyleColor::Yellow => p.yellow,
        StyleColor::BrightBlack => p.bright_black,
        StyleColor::BrightWhite => p.bright_white,
        StyleColor::BrightRed => p.bright_red,
        StyleColor::BrightMagenta => p.bright_magenta,
        StyleColor::BrightGreen => p.bright_green,
        StyleColor::BrightCyan => p.bright_cyan,
        StyleColor::BrightBlue => p.bright_blue,
        StyleColor::BrightYellow => p.bright_yellow,
        StyleColor::Rgb { r, g, b } => TermColor::Rgb(r, g, b),
    }
}

/// Each named color of a theme reads the palette entry of its own name and
/// no other: setting one entry of the palette to `x` makes the color of
/// that name resolve to `x` and leaves every other color as it resolved
/// before; RGB colors never read the palette.
pub proof fn law_named_colors_read_their_own_entry(p: Palette, x: TermColor, r: u8, g: u8, b: u8)
    ensures
        forall|c: StyleColor|
            #[trigger] color_in(c, Palette { black: x, ..p }) == if c == StyleColor::Black {
                x
            } else {
                color_in(c, p)
            },
        forall|c: StyleColor|
            #[trigger] color_in(c, Palette { blue: x, ..p }) == if c == StyleColor::Blue {
                x
            } else {
                color_in(c, p)
            },
        forall|c: StyleColor|
            #[trigger] color_in(c, Palette { cyan: x, ..p }) == if c == StyleColor::Cyan {
                x
            } else {
                color_in(c, p)
            },
        forall|c: StyleColor|
            #[trigger] color_in(c, Palette { green: x, ..p }) == if c == StyleColor::Green {
                x
            } else {
                color_in(c, p)
            },
        forall|c: StyleColor|
            #[trigger] color_in(c, Palette { magenta: x, ..p }) == if c == StyleColor::Magenta {
                x
            } else {
                color_in(c, p)
            },
        forall|c: StyleColor|
            #[trigger] color_in(c, Palette { red: x, ..p }) == if c == StyleColor::Red {
                x
            } else {
                color_in(c, p)
            },
        forall|c: StyleColor|
            #[trigger] color_in(c, Palette { white: x, ..p }) == if c == StyleColor::White {
                x
            } else {
                color_in(c, p)
            },
        forall|c: StyleColor|
            #[trigger] color_in(c, Palette { yellow: x, ..p }) == if c == StyleColor::Yellow {
                x
            } else {
                color_in(c, p)
            },
        forall|c: StyleColor|
            #[trigger] color_in(c, Palette { bright_black: x, ..p }) == if c == StyleColor::BrightBlack {
                x
            } else {
                color_in(c, p)
            },
        forall|c: StyleColor|
            #[trigger] color_in(c, Palette { bright_white: x, ..p }) == if c == StyleColor::BrightWhite {
                x
            } else {
                color_in(c, p)
            },
        forall|c: StyleColor|
            #[trigger] color_in(c, Palette { bright_red: x, ..p }) == if c == StyleColor::BrightRed {
                x
            } else {
                color_in(c, p)
            },
        forall|c: StyleColor|
            #[trigger] color_in(c, Palette { bright_magenta: x, ..p }) == if c == StyleColor::BrightMagenta {
                x
            } else {
                color_in(c, p)
            },
        forall|c: StyleColor|
            #[trigger] color_in(c, Palette { bright_green: x, ..p }) == if c == StyleColor::BrightGreen {
                x
            } else {
                color_in(c, p)
            },
        forall|c: StyleColor|
            #[trigger] color_in(c, Palette { bright_cyan: x, ..p }) == if c == StyleColor::BrightCyan {
                x
            } else {
                color_in(c, p)
            },
        forall|c: StyleColor|
            #[trigger] color_in(c, Palette { bright_blue: x, ..p }) == if c == StyleColor::BrightBlue {
                x
            } else {
                color_in(c, p)
            },
        forall|c: StyleColor|
            #[trigger] color_in(c, Palette { bright_yellow: x, ..p }) == if c == StyleColor::BrightYellow {
                x
            } else {
                color_in(c, p)
            },
        forall|q: Palette| #[trigger] color_in(StyleColor::Rgb { r, g, b }, q) == TermColor::Rgb(r, g, b),
{
}

impl StyleColor {
    /// The terminal color this color stands for in `palette`.
    pub fn color(&self, palette: &Palette) -> (r: TermColor)
        ensures
            r == color_in(*self, *palette),
    {
        match *self {
            StyleColor::Black => palette.black,
            StyleColor::Blue => palette.blue,
            StyleColor::Cyan => palette.cyan,
            StyleColor::Green => palette.green,
            StyleColor::Magenta => palette.magenta,
            StyleColor::Red => palette.red,
            StyleColor::White => palette.white,
            StyleColor::Yellow => palette.yellow,
            StyleColor::BrightBlack => palette.bright_black,
            StyleColor::BrightWhite => palette.bright_white,
            StyleColor::BrightRed => palette.bright_red,
            StyleColor::BrightMagenta => palette.bright_magenta,
            StyleColor::BrightGreen => palette.bright_green,
            StyleColor::BrightCyan => palette.bright_cyan,
            StyleColor::BrightBlue => palette.bright_blue,
            StyleColor::BrightYellow => palette.bright_yellow,
            StyleColor::Rgb { r, g, b } => TermColor::Rgb(r, g, b),
        }
    }
}

/// The number of bytes of `c` in UTF-8.
pub open spec fn utf8_width(c: char) -> nat {
    if (c as u32) < 0x80 {
        1
    } else if (c as u32) < 0x800 {
        2
    } else if (c as u32) < 0x10000 {
        3
    } else {
        4
    }
}

/// The number of bytes of `s` in UTF-8.
pub open spec fn utf8_len(s: Seq<char>) -> nat
    decreases s.len(),
{
    if s.len() == 0 {
        0
    } else {
        utf8_len(s.drop_last()) + utf8_width(s.last())
    }
}

/// Byte offset `b` of the UTF-8 encoding of `s` falls between two characters.
pub open spec fn is_char_boundary(s: Seq<char>, b: nat) -> bool {
    exists|k: int| 0 <= k <= s.len() && #[trigger] utf8_len(s.take(k)) == b
}

/// `s` is written like a hexadecimal color, seven bytes after a `#`, but its
/// two-digit fields cut a character in two: the text cannot be read as one.
pub open spec fn hex_fields_cut_char(s: Seq<char>) -> bool {
    &&& s.len() > 0
    &&& s[0] == '#'
    &&& utf8_len(s) == 7
    &&& !(is_char_boundary(s, 3) && is_char_boundary(s, 5))
}

/// The value of a hexadecimal digit.
pub open spec fn hex_digit_value(c: char) -> Option<u8> {
    let v = c as u32;
    if 0x30 <= v <= 0x39 {
        Some((v - 0x30) as u8)
    } else if 0x61 <= v <= 0x66 {
        Some((v - 0x61 + 10) as u8)
    } else if 0x41 <= v <= 0x46 {
        Some((v - 0x41 + 10) as u8)
    } else {
        None
    }
}

/// The byte a two-character hexadecimal field stands for: two digits, or a
/// `+` sign and one digit.
pub open spec fn hex_field(a: char, b: char) -> Option<u8> {
    if a == '+' {
        hex_digit_value(b)
    } else {
        match (hex_digit_value(a), hex_digit_value(b)) {
            (Some(x), Some(y)) => Some((16 * x + y) as u8),
            _ => None,
        }
    }
}

/// The red, green and blue bytes of a color written `#rrggbb`.
pub open spec fn rgb_of_hex(s: Seq<char>) -> Option<(u8, u8, u8)> {
    if s.len() == 7 && s[0] == '#' {
        match (hex_field(s[1], s[2]), hex_field(s[3], s[4]), hex_field(s[5], s[6])) {
            (Some(r), Some(g), Some(b)) => Some((r, g, b)),
            _ => None,
        }
    } else {
        None
    }
}

/// The theme color written `s`: a palette color's name, or `#rrggbb`.
pub open spec fn style_color_named(s: Seq<char>) -> Option<StyleColor> {
    if s == "Black"@ {
        Some(StyleColor::Black)
    } else if s == "Blue"@ {
        Some(StyleColor::Blue)
    } else if s == "Cyan"@ {
        Some(StyleColor::Cyan)
    } else if s == "Green"@ {
        Some(StyleColor::Green)
    } else if s == "Magenta"@ {
        Some(StyleColor::Magenta)
    } else if s == "Red"@ {
        Some(StyleColor::Red)
    } else if s == "White"@ {
        Some(StyleColor::White)
    } else if s == "Yellow"@ {
        Some(StyleColor::Yellow)
    } else if s == "BrightBlack"@ {
        Some(StyleColor::BrightBlack)
    } else if s == "BrightWhite"@ {
        Some(StyleColor::BrightWhite)
    } else if s == "BrightRed"@ {
        Some(StyleColor::BrightRed)
    } else if s == "BrightMagenta"@ {
        Some(StyleColor::BrightMagenta)
    } else if s == "BrightGreen"@ {
        Some(StyleColor::BrightGreen)
    } else if s == "BrightCyan"@ {
        Some(StyleColor::BrightCyan)
    } else if s == "BrightBlue"@ {
        Some(StyleColor::BrightBlue)
    } else if s == "BrightYellow"@ {
        Some(StyleColor::BrightYellow)
    } else {
        match rgb_of_hex(s) {
            Some((r, g, b)) => Some(StyleColor::Rgb { r, g, b }),
            None => None,
        }
    }
}

/// The value of the hexadecimal digit `c`.
fn hex_digit(c: char) -> (r: Option<u8>)
    ensures
        r == hex_digit_value(c),
{
    let v = c as u32;
    if 0x30 <= v && v <= 0x39 {
        Some((v - 0x30) as u8)
    } else if 0x61 <= v && v <= 0x66 {
        Some((v - 0x61 + 10) as u8)
    } else if 0x41 <= v && v <= 0x46 {
        Some((v - 0x41 + 10) as u8)
    } else {
        None
    }
}

/// The byte the field `a b` stands for.
fn hex_field_value(a: char, b: char) -> (r: Option<u8>)
    ensures
        r == hex_field(a, b),
{
    if a == '+' {
        return hex_digit(b);
    }
    match (hex_digit(a), hex_digit(b)) {
        (Some(x), Some(y)) => {
            assert(16 * x + y < 256);
            Some(16 * x + y)
        },
        _ => None,
    }
}

/// The red, green and blue bytes of the color written `c`.
fn rgb_from_hex(c: &[char]) -> (r: Option<(u8, u8, u8)>)
    ensures
        r == rgb_of_hex(c@),
{
    if c.len() != 7 || c[0] != '#' {
        return None;
    }
    match (hex_field_value(c[1], c[2]), hex_field_value(c[3], c[4]), hex_field_value(c[5], c[6])) {
        (Some(r), Some(g), Some(b)) => Some((r, g, b)),
        _ => None,
    }
}

impl StyleColor {
    /// The theme color written `s`, if `s` names one.
    pub fn parse(s: &str) -> (r: Option<StyleColor>)
        requires
            !hex_fields_cut_char(s@),
        ensures
            r == style_color_named(s@),
    {
        let chars = chars_of(s);
        let c = chars.as_slice();
        if spells(c, "Black") {
            return Some(StyleColor::Black);
        }
        if spells(c, "Blue") {
            return Some(StyleColor::Blue);
        }
        if spells(c, "Cyan") {
            return Some(StyleColor::Cyan);
        }
        if spells(c, "Green") {
            return Some(StyleColor::Green);
        }
        if spells(c, "Magenta") {
            return Some(StyleColor::Magenta);
        }
        if spells(c, "Red") {
            return Some(StyleColor::Red);
        }
        if spells(c, "White") {
            return Some(StyleColor::White);
        }
        if spells(c, "Yellow") {
            return Some(StyleColor::Yellow);
        }
        if spells(c, "BrightBlack") {
            return Some(StyleColor::BrightBlack);
        }
        if spells(c, "BrightWhite") {
            return Some(StyleColor::BrightWhite);
        }
        if spells(c, "BrightRed") {
            return Some(StyleColor::BrightRed);
        }
        if spells(c, "BrightMagenta") {
            return Some(StyleColor::BrightMagenta);
        }
        if spells(c, "BrightGreen") {
            return Some(StyleColor::BrightGreen);
        }
        if spells(c, "BrightCyan") {
            return Some(StyleColor::BrightCyan);
        }
        if spells(c, "BrightBlue") {
            return Some(StyleColor::BrightBlue);
        }
        if spells(c, "BrightYellow") {
            return Some(StyleColor::BrightYellow);
        }
        match rgb_from_hex(c) {
            Some((r, g, b)) => Some(StyleColor::Rgb { r, g, b }),
            None => None,
        }
    }
}

/// A style of a theme: colors, and modifiers added in order.
#[derive(Debug)]
pub struct Style {
    pub fg: Option<StyleColor>,
    pub bg: Option<StyleColor>,
    pub modifiers: Vec<StyleModifier>,
}

/// The abstract value of a `Style`.
pub struct StyleView {
    pub fg: Option<StyleColor>,
    pub bg: Option<StyleColor>,
    pub modifiers: Seq<StyleModifier>,
}

impl View for Style {
    type V = StyleView;

    open spec fn view(&self) -> StyleView {
        StyleView { fg: self.fg, bg: self.bg, modifiers: self.modifiers@ }
    }
}

/// `t` with the modifiers of `ms` added one after the other.
pub open spec fn with_modifiers(t: TextStyle, ms: Seq<StyleModifier>) -> TextStyle
    decreases ms.len(),
{
    if ms.len() == 0 {
        t
    } else {
        with_modifier(with_modifiers(t, ms.drop_last()), modifier_bits(ms.last()))
    }
}

/// How text in style `s` is drawn with palette `p`.
pub open spec fn text_style_of(s: StyleView, p: Palette) -> TextStyle {
    let colored = TextStyle {
        fg: match s.fg {
            Some(c) => Some(color_in(c, p)),
            None => None,
        },
        bg: match s.bg {
            Some(c) => Some(color_in(c, p)),
            None => None,
        },
        ..plain_style()
    };
    with_modifiers(colored, s.modifiers)
}

impl Default for Style {
    fn default() -> (r: Self)
        ensures
            r@ == (StyleView { fg: None, bg: None, modifiers: seq![] }),
    {
        Style { fg: None, bg: None, modifiers: Vec::new() }
    }
}

impl Style {
    /// This style with foreground `fg`.
    pub fn fg(self, fg: StyleColor) -> (r: Self)
        ensures
            r@ == (StyleView { fg: Some(fg), ..self@ }),
    {
        let mut s = self;
        s.fg = Some(fg);
        s
    }

    /// This style with background `bg`.
    pub fn bg(self, bg: StyleColor) -> (r: Self)
        ensures
            r@ == (StyleView { bg: Some(bg), ..self@ }),
    {
        let mut s = self;
        s.bg = Some(bg);
        s
    }

    /// This style with modifiers `modifiers`.
    pub fn modifiers(self, modifiers: Vec<StyleModifier>) -> (r: Self)
        ensures
            r@ == (StyleView { modifiers: modifiers@, ..self@ }),
    {
        let mut s = self;
        s.modifiers = modifiers;
        s
    }

    /// How text in this style is drawn with `palette`.
    pub fn style(&self, palette: &Palette) -> (r: TextStyle)
        ensures
            r == text_style_of(self@, *palette),
    {
        let mut style = TextStyle::new();
        if let Some(fg) = self.fg {
            style = style.fg(fg.color(palette));
        }
        if let Some(bg) = self.bg {
            style = style.bg(bg.color(palette));
        }
        let ghost colored = style;
        let n = self.modifiers.len();
        let mut i: usize = 0;
        while i < n
            invariant
                n == self.modifiers@.len(),
                i <= n,
                style == with_modifiers(colored, self.modifiers@.take(i as int)),
            decreases n - i,
        {
            proof {
                let t = self.modifiers@.take(i + 1);
                assert(t.drop_last() =~= self.modifiers@.take(i as int));
                assert(t.last() == self.modifiers@[i as int]);
            }
            style = style.add_modifier(self.modifiers[i].bits());
            i = i + 1;
        }
        assert(self.modifiers@.take(n as int) =~= self.modifiers@);
        style
    }

    /// A copy of this style.
    pub fn duplicate(&self) -> (r: Self)
        ensures
            r@ == self@,
    {
        let mut modifiers: Vec<StyleModifier> = Vec::new();
        let mut i: usize = 0;
        while i < self.modifiers.len()
            invariant
                i <= self.modifiers@.len(),
                modifiers@ == self.modifiers@.take(i as int),
            decreases self.modifiers@.len() - i,
        {
            modifiers.push(self.modifiers[i]);
            i = i + 1;
            assert(modifiers@ =~= self.modifiers@.take(i as int));
        }
        assert(self.modifiers@.take(i as int) =~= self.modifiers@);
        Style { fg: self.fg, bg: self.bg, modifiers }
    }
}

/// The abstract value of an optional style.
pub open spec fn style_view(s: Option<Style>) -> Option<StyleView> {
    match s {
        Some(s) => Some(s@),
        None => None,
    }
}

/// A copy of an optional style.
fn duplicate_style(s: &Option<Style>) -> (r: Option<Style>)
    ensures
        style_view(r) == style_view(*s),
{
    match s {
        Some(s) => Some(s.duplicate()),
        None => None,
    }
}

/// The styles a theme sets for interface components; a component it leaves
/// unset is drawn in its default style.
#[derive(Debug)]
pub struct ComponentStyle {
    pub block_title: Option<Style>,
    pub border: Option<Style>,
    pub playback_track: Option<Style>,
    pub playback_artists: Option<Style>,
    pub playback_album: Option<Style>,
    pub playback_metadata: Option<Style>,
    pub playback_progress_bar: Option<Style>,
    pub current_playing: Option<Style>,
    pub page_desc: Option<Style>,
    pub table_header: Option<Style>,
    pub selection: Option<Style>,
}

/// The abstract value of a `ComponentStyle`.
pub struct ComponentStyleView {
    pub block_title: Option<StyleView>,
    pub border: Option<StyleView>,
    pub playback_track: Option<StyleView>,
    pub playback_artists: Option<StyleView>,
    pub playback_album: Option<StyleView>,
    pub playback_metadata: Option<StyleView>,
    pub playback_progress_bar: Option<StyleView>,
    pub current_playing: Option<StyleView>,
    pub page_desc: Option<StyleView>,
    pub table_header: Option<StyleView>,
    pub selection: Option<StyleView>,
}

impl View for ComponentStyle {
    type V = ComponentStyleView;

    open spec fn view(&self) -> ComponentStyleView {
        ComponentStyleView {
            block_title: style_view(self.block_title),
            border: style_view(self.border),
            playback_track: style_view(self.playback_track),
            playback_artists: style_view(self.playback_artists),
            playback_album: style_view(self.playback_album),
            playback_metadata: style_view(self.playback_metadata),
            playback_progress_bar: style_view(self.playback_progress_bar),
            current_playing: style_view(self.current_playing),
            page_desc: style_view(self.page_desc),
            table_header: style_view(self.table_header),
            selection: style_view(self.selection),
        }
    }
}

impl Default for ComponentStyle {
    fn default() -> (r: Self)
        ensures
            r@.block_title is None,
            r@.border is None,
            r@.playback_track is None,
            r@.playback_artists is None,
            r@.playback_album is None,
            r@.playback_metadata is None,
            r@.playback_progress_bar is None,
            r@.current_playing is None,
            r@.page_desc is None,
            r@.table_header is None,
            r@.selection is None,
    {
        ComponentStyle {
            block_title: None,
            border: None,
            playback_track: None,
            playback_artists: None,
            playback_album: None,
            playback_metadata: None,
            playback_progress_bar: None,
            current_playing: None,
            page_desc: None,
            table_header: None,
            selection: None,
        }
    }
}

impl ComponentStyle {
    /// A copy of these styles.
    pub fn duplicate(&self) -> (r: Self)
        ensures
            r@ == self@,
    {
        ComponentStyle {
            block_title: duplicate_style(&self.block_title),
            border: duplicate_style(&self.border),
            playback_track: duplicate_style(&self.playback_track),
            playback_artists: duplicate_style(&self.playback_artists),
            playback_album: duplicate_style(&self.playback_album),
            playback_metadata: duplicate_style(&self.playback_metadata),
            playback_progress_bar: duplicate_style(&self.playback_progress_bar),
            current_playing: duplicate_style(&self.current_playing),
            page_desc: duplicate_style(&self.page_desc),
            table_header: duplicate_style(&self.table_header),
            selection: duplicate_style(&self.selection),
        }
    }
}

/// A named theme.
#[derive(Debug)]
pub struct Theme {
    pub name: String,
    pub palette: Palette,
    pub component_style: ComponentStyle,
}

/// The abstract value of a `Theme`.
pub struct ThemeView {
    pub name: Seq<char>,
    pub palette: Palette,
    pub component_style: ComponentStyleView,
}

impl View for Theme {
    type V = ThemeView;

    open spec fn view(&self) -> ThemeView {
        ThemeView { name: self.name@, palette: self.palette, component_style: self.component_style@ }
    }
}

/// The style a component is drawn in: the theme's, else `fallback`.
pub open spec fn component_text_style(set: Option<StyleView>, fallback: StyleView, p: Palette) -> TextStyle {
    match set {
        Some(s) => text_style_of(s, p),
        None => text_style_of(fallback, p),
    }
}

/// The default style of a component: `fg`, `bg` and `modifiers`.
pub open spec fn fallback(fg: Option<StyleColor>, bg: Option<StyleColor>, modifiers: Seq<StyleModifier>) -> StyleView {
    StyleView { fg, bg, modifiers }
}

impl Default for Theme {
    fn default() -> (r: Self)
        ensures
            r@.name == "default"@,
            r.palette == default_palette(),
            r@.component_style.block_title is None,
            r@.component_style.border is None,
            r@.component_style.playback_track is None,
            r@.component_style.playback_artists is None,
            r@.component_style.playback_album is None,
            r@.component_style.playback_metadata is None,
            r@.component_style.playback_progress_bar is None,
            r@.component_style.current_playing is None,
            r@.component_style.page_desc is None,
            r@.component_style.table_header is None,
            r@.component_style.selection is None,
    {
        Theme {
            name: "default".to_owned(),
            palette: Palette::default(),
            component_style: ComponentStyle::default(),
        }
    }
}

impl Theme {
    /// A copy of this theme.
    pub fn duplicate(&self) -> (r: Self)
        ensures
            r@ == self@,
    {
        Theme {
            name: self.name.clone(),
            palette: self.palette,
            component_style: self.component_style.duplicate(),
        }
    }

    /// The style of the whole application: the palette's background and
    /// foreground, where set.
    pub fn app_style(&self) -> (r: TextStyle)
        ensures
            r == (TextStyle { fg: self.palette.foreground, bg: self.palette.background, ..plain_style() }),
    {
        let mut style = TextStyle::new();
        if let Some(c) = self.palette.background {
            style = style.bg(c);
        }
        if let Some(c) = self.palette.foreground {
            style = style.fg(c);
        }
        style
    }

    /// The style of the selected item: reversed bold text unless the theme
    /// sets one; nothing when the window is not active.
    pub fn selection_style(&self, is_active: bool) -> (r: TextStyle)
        ensures
            r == (if !is_active {
                plain_style()
            } else {
                match self@.component_style.selection {
                    Some(s) => text_style_of(s, self.palette),
                    None => with_modifier(with_modifier(plain_style(), MODIFIER_REVERSED), MODIFIER_BOLD),
                }
            }),
    {
        if is_active {
            match &self.component_style.selection {
                None => TextStyle::new().add_modifier(MODIFIER_REVERSED).add_modifier(MODIFIER_BOLD),
                Some(s) => s.style(&self.palette),
            }
        } else {
            TextStyle::new()
        }
    }

    /// The style of window titles.
    pub fn block_title(&self) -> (r: TextStyle)
        ensures
            r == component_text_style(
                self@.component_style.block_title,
                fallback(Some(StyleColor::Magenta), None, seq![]),
                self.palette,
            ),
    {
        match &self.component_style.block_title {
            None => Style::default().fg(StyleColor::Magenta).style(&self.palette),
            Some(s) => s.style(&self.palette),
        }
    }

    /// The style of window borders.
    pub fn border(&self) -> (r: TextStyle)
        ensures
            r == component_text_style(
                self@.component_style.border,
                fallback(None, None, seq![]),
                self.palette,
            ),
    {
        match &self.component_style.border {
            None => Style::default().style(&self.palette),
            Some(s) => s.style(&self.palette),
        }
    }

    /// The style of the playing track's name.
    pub fn playback_track(&self) -> (r: TextStyle)
        ensures
            r == component_text_style(
                self@.component_style.playback_track,
                fallback(Some(StyleColor::Cyan), None, seq![StyleModifier::Bold]),
                self.palette,
            ),
    {
        match &self.component_style.playback_track {
            None => {
                let bold = vec![StyleModifier::Bold];
                assert(bold@ =~= seq![StyleModifier::Bold]);
                Style::default().fg(StyleColor::Cyan).modifiers(bold).style(&self.palette)
            },
            Some(s) => s.style(&self.palette),
        }
    }

    /// The style of the playing track's artists.
    pub fn playback_artists(&self) -> (r: TextStyle)
        ensures
            r == component_text_style(
                self@.component_style.playback_artists,
                fallback(Some(StyleColor::Cyan), None, seq![StyleModifier::Bold]),
                self.palette,
            ),
    {
        match &self.component_style.playback_artists {
            None => {
                let bold = vec![StyleModifier::Bold];
                assert(bold@ =~= seq![StyleModifier::Bold]);
                Style::default().fg(StyleColor::Cyan).modifiers(bold).style(&self.palette)
            },
            Some(s) => s.style(&self.palette),
        }
    }

    /// The style of the playing track's album.
    pub fn playback_album(&self) -> (r: TextStyle)
        ensures
            r == component_text_style(
                self@.component_style.playback_album,
                fallback(Some(StyleColor::Yellow), None, seq![]),
                self.palette,
            ),
    {
        match &self.component_style.playback_album {
            None => Style::default().fg(StyleColor::Yellow).style(&self.palette),
            Some(s) => s.style(&self.palette),
        }
    }

    /// The style of the playback metadata line.
    pub fn playback_metadata(&self) -> (r: TextStyle)
        ensures
            r == component_text_style(
                self@.component_style.playback_metadata,
                fallback(Some(StyleColor::BrightBlack), None, seq![]),
                self.palette,
            ),
    {
        match &self.component_style.playback_metadata {
            None => Style::default().fg(StyleColor::BrightBlack).style(&self.palette),
            Some(s) => s.style(&self.palette),
        }
    }

    /// The style of the playback progress bar.
    pub fn playback_progress_bar(&self) -> (r: TextStyle)
        ensures
            r == component_text_style(
                self@.component_style.playback_progress_bar,
                fallback(Some(StyleColor::Green), Some(StyleColor::BrightBlack), seq![]),
                self.palette,
            ),
    {
        match &self.component_style.playback_progress_bar {
            None => Style::default().bg(StyleColor::BrightBlack).fg(StyleColor::Green).style(&self.palette),
            Some(s) => s.style(&self.palette),
        }
    }

    /// The style of the playing item in lists.
    pub fn current_playing(&self) -> (r: TextStyle)
        ensures
            r == component_text_style(
                self@.component_style.current_playing,
                fallback(Some(StyleColor::Green), None, seq![StyleModifier::Bold]),
                self.palette,
            ),
    {
        match &self.component_style.current_playing {
            None => {
                let bold = vec![StyleModifier::Bold];
                assert(bold@ =~= seq![StyleModifier::Bold]);
                Style::default().fg(StyleColor::Green).modifiers(bold).style(&self.palette)
            },
            Some(s) => s.style(&self.palette),
        }
    }

    /// The style of page descriptions.
    pub fn page_desc(&self) -> (r: TextStyle)
        ensures
            r == component_text_style(
                self@.component_style.page_desc,
                fallback(Some(StyleColor::Cyan), None, seq![StyleModifier::Bold]),
                self.palette,
            ),
    {
        match &self.component_style.page_desc {
            None => {
                let bold = vec![StyleModifier::Bold];
                assert(bold@ =~= seq![StyleModifier::Bold]);
                Style::default().fg(StyleColor::Cyan).modifiers(bold).style(&self.palette)
            },
            Some(s) => s.style(&self.palette),
        }
    }

    /// The style of table headers.
    pub fn table_header(&self) -> (r: TextStyle)
        ensures
            r == component_text_style(
                self@.component_style.table_header,
                fallback(Some(StyleColor::Blue), None, seq![]),
                self.palette,
            ),
    {
        match &self.component_style.table_header {
            None => Style::default().fg(StyleColor::Blue).style(&self.palette),
            Some(s) => s.style(&self.palette),
        }
    }
}

/// The application's themes.
#[derive(Debug)]
pub struct ThemeConfig {
    pub themes: Vec<Theme>,
}

impl View for ThemeConfig {
    type V = Seq<(Seq<char>, ThemeView)>;

    /// Each theme with its name.
    open spec fn view(&self) -> Seq<(Seq<char>, ThemeView)> {
        self.themes@.map_values(|t: Theme| (t.name@, t@))
    }
}

/// The first theme named `name`.
pub open spec fn theme_named(themes: Seq<(Seq<char>, ThemeView)>, name: Seq<char>) -> Option<ThemeView>
    decreases themes.len(),
{
    if themes.len() == 0 {
        None
    } else if themes[0].0 == name {
        Some(themes[0].1)
    } else {
        theme_named(themes.drop_first(), name)
    }
}

impl Default for ThemeConfig {
    /// The default theme alone.
    fn default() -> (r: Self)
        ensures
            r@.len() == 1,
            r@[0].0 == "default"@,
            r@[0].1.palette == default_palette(),
    {
        let themes = vec![Theme::default()];
        ThemeConfig { themes }
    }
}

/// Whether `themes` has a theme named `name`.
fn has_theme_named(themes: &Vec<Theme>, name: &String) -> (r: bool)
    ensures
        r == crate::merge::binds(themes@.map_values(|t: Theme| (t.name@, t@)), name@),
{
    let ghost v = themes@.map_values(|t: Theme| (t.name@, t@));
    let mut i: usize = 0;
    while i < themes.len()
        invariant
            v == themes@.map_values(|t: Theme| (t.name@, t@)),
            i <= themes.len(),
            forall|j: int| 0 <= j < i ==> #[trigger] v[j].0 != name@,
        decreases themes.len() - i,
    {
        if themes[i].name == *name {
            assert(v[i as int].0 == name@);
            return true;
        }
        i = i + 1;
    }
    false
}

impl ThemeConfig {
    /// A copy of the first theme named `name`.
    pub fn find_theme(&self, name: &str) -> (r: Option<Theme>)
        ensures
            match theme_named(self@, name@) {
                Some(t) => r matches Some(found) && found@ == t,
                None => r is None,
            },
    {
        let ghost themes = self@;
        let n = self.themes.len();
        let mut i: usize = 0;
        assert(themes.skip(0) =~= themes);
        while i < n
            invariant
                n == self.themes@.len(),
                themes == self@,
                i <= n,
                theme_named(themes.skip(i as int), name@) == theme_named(themes, name@),
            decreases n - i,
        {
            let theme = &self.themes[i];
            assert(themes.skip(i as int)[0] == (theme.name@, theme@));
            let chars = chars_of(theme.name.as_str());
            if spells(chars.as_slice(), name) {
                return Some(theme.duplicate());
            }
            assert(themes.skip(i as int).drop_first() =~= themes.skip(i + 1));
            i = i + 1;
        }
        assert(themes.skip(n as int).len() == 0);
        None
    }

    /// Adds each of the user's themes whose name no theme has yet, in order.
    pub fn add_user_themes(&mut self, user: ThemeConfig)
        ensures
            final(self)@ == merge_bindings(old(self)@, user@),
    {
        let ghost target = merge_bindings(self@, user@);
        let mut rest = user.themes;
        while rest.len() > 0
            invariant
                merge_bindings(self@, rest@.map_values(|t: Theme| (t.name@, t@))) == target,
            decreases rest.len(),
        {
            let ghost before = rest@.map_values(|t: Theme| (t.name@, t@));
            let theme = rest.remove(0);
            assert(rest@.map_values(|t: Theme| (t.name@, t@)) =~= before.drop_first());
            if !has_theme_named(&self.themes, &theme.name) {
                let ghost cur = self@;
                self.themes.push(theme);
                assert(self@ =~= cur.push(before[0]));
            }
        }
    }
}

/// The themes with the first one named `current` moved to the front, the
/// others in order.
pub open spec fn current_first(themes: Seq<(Seq<char>, ThemeView)>, current: Seq<char>) -> Seq<(Seq<char>, ThemeView)> {
    match first_named_index(themes, current) {
        Some(i) => seq![themes[i]] + themes.remove(i),
        None => themes,
    }
}

/// The position of the first theme named `name`.
pub open spec fn first_named_index(themes: Seq<(Seq<char>, ThemeView)>, name: Seq<char>) -> Option<int>
    decreases themes.len(),
{
    if themes.len() == 0 {
        None
    } else if themes[0].0 == name {
        Some(0)
    } else {
        match first_named_index(themes.drop_first(), name) {
            Some(i) => Some(i + 1),
            None => None,
        }
    }
}

impl ThemeConfig {
    /// Copies of the themes to choose from, the one named `current` first.
    pub fn themes_current_first(&self, current: &str) -> (r: Vec<Theme>)
        ensures
            r@.map_values(|t: Theme| (t.name@, t@)) == current_first(self@, current@),
    {
        let ghost themes = self@;
        let n = self.themes.len();
        let mut copies: Vec<Theme> = Vec::new();
        let mut found: Option<usize> = None;
        let mut i: usize = 0;
        assert(themes.skip(0) =~= themes);
        while i < n
            invariant
                n == self.themes@.len(),
                themes == self@,
                i <= n,
                copies@.map_values(|t: Theme| (t.name@, t@)) == themes.take(i as int),
                match found {
                    Some(f) => f < i && first_named_index(themes, current@) == Some(f as int),
                    None => first_named_index(themes, current@) == match first_named_index(
                        themes.skip(i as int),
                        current@,
                    ) {
                        Some(j) => Some(j + i),
                        None => None,
                    },
                },
            decreases n - i,
        {
            let theme = &self.themes[i];
            let ghost before = copies@.map_values(|t: Theme| (t.name@, t@));
            if found.is_none() {
                assert(themes.skip(i as int)[0] == (theme.name@, theme@));
                let chars = chars_of(theme.name.as_str());
                if spells(chars.as_slice(), current) {
                    found = Some(i);
                } else {
                    assert(themes.skip(i as int).drop_first() =~= themes.skip(i + 1));
                }
            }
            copies.push(theme.duplicate());
            assert(copies@.map_values(|t: Theme| (t.name@, t@)) =~= before.push((theme.name@, theme@)));
            assert(themes.take(i + 1) =~= themes.take(i as int).push(themes[i as int]));
            i = i + 1;
        }
        assert(themes.take(n as int) =~= themes);
        match found {
            Some(f) => {
                let ghost v = copies@.map_values(|t: Theme| (t.name@, t@));
                let current_theme = copies.remove(f);
                copies.insert(0, current_theme);
                assert(copies@.map_values(|t: Theme| (t.name@, t@)) =~= seq![v[f as int]] + v.remove(f as int));
            },
            None => {
                assert(themes.skip(n as int).len() == 0);
            },
        }
        copies
    }
}

} // verus!
