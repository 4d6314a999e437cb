use vstd::prelude::*;
use vstd::slice::slice_to_vec;

use crate::font::Font;

verus! {

/// The direction text is laid out in when drawn, counted
/// counterclockwise from left.
#[derive(Debug, Clone, Copy, PartialEq, Eq, Structural)]
pub enum Direction {
    Left,
    Up,
    Right,
    Down,
}

impl Direction {
    /// The engine's encoding of the direction: left, up, right and down
    /// count 0 to 3.
    pub fn code(&self) -> (r: i32)
        ensures
            r == match *self {
                Direction::Left => 0int,
                Direction::Up => 1int,
                Direction::Right => 2int,
                Direction::Down => 3int,
            },
    {
        match self {
            Direction::Left => 0,
            Direction::Up => 1,
            Direction::Right => 2,
            Direction::Down => 3,
        }
    }
}

impl Default for Direction {
    /// Text is laid out upward by default.
    fn default() -> (d: Self)
        ensures
            d == Direction::Up,
    {
        Direction::Up
    }
}

/// The engine's encoding of a centered justification.
pub const JUSTIFICATION_CENTER: u32 = 0;

/// The engine's encoding of the left justification bit.
pub const JUSTIFICATION_LEFT: u32 = 1;

/// The engine's encoding of the right justification bit.
pub const JUSTIFICATION_RIGHT: u32 = 2;

/// The engine's encoding of the top justification bit.
pub const JUSTIFICATION_TOP: u32 = 4;

/// The engine's encoding of the bottom justification bit.
pub const JUSTIFICATION_BOTTOM: u32 = 8;

/// Where text sits in the rectangle it is drawn into: a word of the
/// engine's justification bits.
#[derive(Debug, Clone, Copy, PartialEq, Eq, Hash, Structural)]
pub struct Justification {
    bits: u32,
}

impl View for Justification {
    type V = u32;

    closed spec fn view(&self) -> u32 {
        self.bits
    }
}

impl Justification {
    /// A justification holding exactly the given bits, known or not.
    pub fn from_bits_retain(bits: u32) -> (j: Self)
        ensures
            j@ == bits,
    {
        Justification { bits }
    }

    /// The justification bits.
    pub fn bits(&self) -> (r: u32)
        ensures
            r == self@,
    {
        self.bits
    }

    /// Centered both ways.
    pub fn center() -> (j: Self)
        ensures
            j@ == JUSTIFICATION_CENTER,
    {
        Justification { bits: JUSTIFICATION_CENTER }
    }

    /// Against the left edge, centered vertically.
    pub fn left() -> (j: Self)
        ensures
            j@ == JUSTIFICATION_LEFT,
    {
        Justification { bits: JUSTIFICATION_LEFT }
    }

    /// Against the right edge, centered vertically.
    pub fn right() -> (j: Self)
        ensures
            j@ == JUSTIFICATION_RIGHT,
    {
        Justification { bits: JUSTIFICATION_RIGHT }
    }

    /// Against the top edge, centered horizontally.
    pub fn top() -> (j: Self)
        ensures
            j@ == JUSTIFICATION_TOP,
    {
        Justification { bits: JUSTIFICATION_TOP }
    }

    /// Against the bottom edge, centered horizontally.
    pub fn bottom() -> (j: Self)
        ensures
            j@ == JUSTIFICATION_BOTTOM,
    {
        Justification { bits: JUSTIFICATION_BOTTOM }
    }

    /// In the top left corner.
    pub fn top_left() -> (j: Self)
        ensures
            j@ == (JUSTIFICATION_TOP | JUSTIFICATION_LEFT),
    {
        Justification { bits: JUSTIFICATION_TOP | JUSTIFICATION_LEFT }
    }

    /// In the bottom left corner.
    pub fn bottom_left() -> (j: Self)
        ensures
            j@ == (JUSTIFICATION_BOTTOM | JUSTIFICATION_LEFT),
    {
        Justification { bits: JUSTIFICATION_BOTTOM | JUSTIFICATION_LEFT }
    }

    /// In the top right corner.
    pub fn top_right() -> (j: Self)
        ensures
            j@ == (JUSTIFICATION_TOP | JUSTIFICATION_RIGHT),
    {
        Justification { bits: JUSTIFICATION_TOP | JUSTIFICATION_RIGHT }
    }

    /// In the bottom right corner.
    pub fn bottom_right() -> (j: Self)
        ensures
            j@ == (JUSTIFICATION_BOTTOM | JUSTIFICATION_RIGHT),
    {
        Justification { bits: JUSTIFICATION_BOTTOM | JUSTIFICATION_RIGHT }
    }
}

#[verifier::external_type_specification]
#[verifier::external_body]
pub struct ExUtf32String(widestring::Utf32String);

/// The characters a UTF-32 string holds.
pub uninterp spec fn utf32_content(s: widestring::Utf32String) -> Seq<char>;

/// Relies on widestring::Utf32String::from_chars: the built string holds
/// exactly the given characters.
#[verifier::external_body]
fn utf32_from_chars(chars: Vec<char>) -> (r: widestring::Utf32String)
    ensures
        utf32_content(r) == chars@,
{
    widestring::Utf32String::from_chars(chars)
}

/// Relies on widestring::Utf32Str::as_char_slice: the slice holds exactly
/// the string's characters.
#[verifier::external_body]
fn utf32_to_chars(s: &widestring::Utf32String) -> (r: Vec<char>)
    ensures
        r@ == utf32_content(*s),
{
    s.as_char_slice().to_vec()
}

/// The text settings handed to the engine when the text is drawn.
#[derive(Debug)]
pub struct TextState {
    pub content: Vec<char>,
    pub font: Font,
    pub justification: Justification,
    pub multi_line: bool,
    pub character_override: i32,
}

/// The observable state of a text object.
pub struct TextView {
    pub content: Seq<char>,
    pub font: Seq<u8>,
    pub justification: u32,
    pub multi_line: bool,
    pub character_override: i32,
}

impl View for TextState {
    type V = TextView;

    open spec fn view(&self) -> TextView {
        TextView {
            content: self.content@,
            font: self.font@,
            justification: self.justification@,
            multi_line: self.multi_line,
            character_override: self.character_override,
        }
    }
}

/// A piece of text with the font and layout settings it is drawn with.
#[derive(Debug)]
pub struct Text {
    state: TextState,
}

impl View for Text {
    type V = TextView;

    closed spec fn view(&self) -> TextView {
        self.state@
    }
}

impl Text {
    /// Empty text drawn with the given font, centered, on a single line,
    /// with no character override.
    pub fn new(font: &Font) -> (t: Self)
        ensures
            t@ == (TextView {
                content: Seq::<char>::empty(),
                font: font@,
                justification: JUSTIFICATION_CENTER,
                multi_line: false,
                character_override: 0,
            }),
    {
        let t = Text {
            state: TextState {
                content: Vec::new(),
                font: font.clone(),
                justification: Justification::center(),
                multi_line: false,
                character_override: 0,
            },
        };
        proof {
            assert(t@.content =~= Seq::<char>::empty());
        }
        t
    }

    /// Replaces the characters.
    pub fn set_text(&mut self, s: &widestring::Utf32String)
        ensures
            final(self)@ == (TextView { content: utf32_content(*s), ..old(self)@ }),
    {
        self.state.content = utf32_to_chars(s);
    }

    /// The characters, as a UTF-32 string.
    pub fn text(&self) -> (r: widestring::Utf32String)
        ensures
            utf32_content(r) == self@.content,
    {
        utf32_from_chars(slice_to_vec(self.state.content.as_slice()))
    }

    /// Replaces the font; text already drawn with the old font is
    /// untouched.
    pub fn set_font(&mut self, font: &Font)
        ensures
            final(self)@ == (TextView { font: font@, ..old(self)@ }),
    {
        self.state.font = font.clone();
    }

    /// Places the text in the rectangle it is drawn into.
    pub fn set_justification(&mut self, justification: Justification)
        ensures
            final(self)@ == (TextView { justification: justification@, ..old(self)@ }),
    {
        self.state.justification = justification;
    }

    /// Where the text sits in the rectangle it is drawn into.
    pub fn justification(&self) -> (r: Justification)
        ensures
            r@ == self@.justification,
    {
        self.state.justification
    }

    /// Chooses between one line and as many lines as the text breaks
    /// into.
    pub fn set_multi_line(&mut self, multi_line: bool)
        ensures
            final(self)@ == (TextView { multi_line, ..old(self)@ }),
    {
        self.state.multi_line = multi_line;
    }

    /// Whether the text breaks into several lines.
    pub fn multi_line(&self) -> (r: bool)
        ensures
            r == self@.multi_line,
    {
        self.state.multi_line
    }

    /// Draws every character as the given character instead, as password
    /// fields do; zero turns the override off.
    pub fn set_character_override(&mut self, character_override: i32)
        ensures
            final(self)@ == (TextView { character_override, ..old(self)@ }),
    {
        self.state.character_override = character_override;
    }

    /// The character every character is drawn as, or zero for none.
    pub fn character_override(&self) -> (r: i32)
        ensures
            r == self@.character_override,
    {
        self.state.character_override
    }

    /// The text settings themselves.
    pub fn raw(&self) -> (r: &TextState)
        ensures
            r@ == self@,
    {
        &self.state
    }
}

impl Clone for Text {
    /// A clone holds the same characters and settings.
    fn clone(&self) -> (t: Self)
        ensures
            t@ == self@,
    {
        Text {
            state: TextState {
                content: slice_to_vec(self.state.content.as_slice()),
                font: self.state.font.clone(),
                justification: self.state.justification,
                multi_line: self.state.multi_line,
                character_override: self.state.character_override,
            },
        }
    }
}

} // verus!
