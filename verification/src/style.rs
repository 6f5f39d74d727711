//! Colors, text attributes and the style of a cell, held as plain values.

use vstd::prelude::*;

verus! {

/// A terminal color.
#[derive(Debug, Clone, Copy, PartialEq, Eq, Hash, Structural)]
pub enum Color {
    /// The terminal's default color.
    Reset,
    Black,
    DarkGrey,
    Red,
    DarkRed,
    Green,
    DarkGreen,
    Yellow,
    DarkYellow,
    Blue,
    DarkBlue,
    Magenta,
    DarkMagenta,
    Cyan,
    DarkCyan,
    White,
    Grey,
    /// A 24-bit color.
    Rgb { r: u8, g: u8, b: u8 },
    /// One of the 256 indexed colors.
    AnsiValue(u8),
}

/// A single text attribute.
#[derive(Debug, Clone, Copy, PartialEq, Eq, Hash, Structural)]
pub enum Attribute {
    Reset,
    Bold,
    Dim,
    Italic,
    Underlined,
    DoubleUnderlined,
    Undercurled,
    Underdotted,
    Underdashed,
    SlowBlink,
    RapidBlink,
    Reverse,
    Hidden,
    CrossedOut,
    Fraktur,
    NoBold,
    NormalIntensity,
    NoItalic,
    NoUnderline,
    NoBlink,
    NoReverse,
    NoHidden,
    NotCrossedOut,
    Framed,
    Encircled,
    OverLined,
    NotFramedOrEncircled,
    NotOverLined,
}

impl Attribute {
    /// The position of the attribute in the list of attributes, starting at 0.
    pub open spec fn spec_ordinal(self) -> u32 {
        match self {
            Attribute::Reset => 0,
            Attribute::Bold => 1,
            Attribute::Dim => 2,
            Attribute::Italic => 3,
            Attribute::Underlined => 4,
            Attribute::DoubleUnderlined => 5,
            Attribute::Undercurled => 6,
            Attribute::Underdotted => 7,
            Attribute::Underdashed => 8,
            Attribute::SlowBlink => 9,
            Attribute::RapidBlink => 10,
            Attribute::Reverse => 11,
            Attribute::Hidden => 12,
            Attribute::CrossedOut => 13,
            Attribute::Fraktur => 14,
            Attribute::NoBold => 15,
            Attribute::NormalIntensity => 16,
            Attribute::NoItalic => 17,
            Attribute::NoUnderline => 18,
            Attribute::NoBlink => 19,
            Attribute::NoReverse => 20,
            Attribute::NoHidden => 21,
            Attribute::NotCrossedOut => 22,
            Attribute::Framed => 23,
            Attribute::Encircled => 24,
            Attribute::OverLined => 25,
            Attribute::NotFramedOrEncircled => 26,
            Attribute::NotOverLined => 27,
        }
    }

    /// The position of the attribute in the list of attributes.
    #[verifier::when_used_as_spec(spec_ordinal)]
    pub fn ordinal(self) -> (i: u32)
        ensures
            i == self.spec_ordinal(),
            i <= 27,
    {
        match self {
            Attribute::Reset => 0,
            Attribute::Bold => 1,
            Attribute::Dim => 2,
            Attribute::Italic => 3,
            Attribute::Underlined => 4,
            Attribute::DoubleUnderlined => 5,
            Attribute::Undercurled => 6,
            Attribute::Underdotted => 7,
            Attribute::Underdashed => 8,
            Attribute::SlowBlink => 9,
            Attribute::RapidBlink => 10,
            Attribute::Reverse => 11,
            Attribute::Hidden => 12,
            Attribute::CrossedOut => 13,
            Attribute::Fraktur => 14,
            Attribute::NoBold => 15,
            Attribute::NormalIntensity => 16,
            Attribute::NoItalic => 17,
            Attribute::NoUnderline => 18,
            Attribute::NoBlink => 19,
            Attribute::NoReverse => 20,
            Attribute::NoHidden => 21,
            Attribute::NotCrossedOut => 22,
            Attribute::Framed => 23,
            Attribute::Encircled => 24,
            Attribute::OverLined => 25,
            Attribute::NotFramedOrEncircled => 26,
            Attribute::NotOverLined => 27,
        }
    }

    /// The bit that stands for the attribute in an `Attributes` set: bit `index + 1`.
    pub open spec fn spec_bytes(self) -> u32 {
        1u32 << ((self.spec_ordinal() + 1) as u32)
    }

    /// The bit that stands for the attribute in an `Attributes` set.
    #[verifier::when_used_as_spec(spec_bytes)]
    pub fn bytes(self) -> (b: u32)
        ensures
            b == self.spec_bytes(),
    {
        let shift: u32 = self.ordinal() + 1;
        1u32 << shift
    }
}

/// A set of text attributes, one bit for each.
#[derive(Debug, Clone, Copy, PartialEq, Eq, Hash, Structural)]
pub struct Attributes {
    pub bits: u32,
}

impl Attributes {
    /// Whether the attribute is in the set.
    pub open spec fn spec_has(self, attribute: Attribute) -> bool {
        self.bits & attribute.spec_bytes() != 0
    }

    /// The empty set.
    pub fn none() -> (a: Self)
        ensures
            a.bits == 0,
            forall|attribute: Attribute| !a.spec_has(attribute),
    {
        assert forall|attribute: Attribute| !(Attributes { bits: 0 }).spec_has(attribute) by {
            let m: u32 = attribute.spec_bytes();
            assert(0u32 & m == 0) by (bit_vector);
        }
        Attributes { bits: 0 }
    }

    /// The set with `attribute` added.
    pub fn with(self, attribute: Attribute) -> (a: Self)
        ensures
            a.bits == self.bits | attribute.spec_bytes(),
            forall|other: Attribute| a.spec_has(other) == (other == attribute || self.spec_has(other)),
    {
        let a = Attributes { bits: self.bits | attribute.bytes() };
        assert forall|other: Attribute| a.spec_has(other) == (other == attribute || self.spec_has(
            other,
        )) by {
            lemma_bits_distinct(attribute, other);
            let b: u32 = self.bits;
            let i: u32 = (attribute.spec_ordinal() + 1) as u32;
            let j: u32 = (other.spec_ordinal() + 1) as u32;
            assert(i < 32 && j < 32 ==> (((b | (1u32 << i)) & (1u32 << j) != 0) == (i == j || (b & (
            1u32 << j) != 0)))) by (bit_vector);
        }
        a
    }

    /// The set with `attribute` taken out.
    pub fn without(self, attribute: Attribute) -> (a: Self)
        ensures
            a.bits == self.bits & !attribute.spec_bytes(),
            forall|other: Attribute| a.spec_has(other) == (other != attribute && self.spec_has(other)),
    {
        let a = Attributes { bits: self.bits & !attribute.bytes() };
        assert forall|other: Attribute| a.spec_has(other) == (other != attribute && self.spec_has(
            other,
        )) by {
            lemma_bits_distinct(attribute, other);
            let b: u32 = self.bits;
            let i: u32 = (attribute.spec_ordinal() + 1) as u32;
            let j: u32 = (other.spec_ordinal() + 1) as u32;
            assert(i < 32 && j < 32 ==> (((b & !(1u32 << i)) & (1u32 << j) != 0) == (i != j && (b & (
            1u32 << j) != 0)))) by (bit_vector);
        }
        a
    }

    /// Whether the attribute is in the set.
    #[verifier::when_used_as_spec(spec_has)]
    pub fn has(self, attribute: Attribute) -> (r: bool)
        ensures
            r == self.spec_has(attribute),
    {
        self.bits & attribute.bytes() != 0
    }

    /// Whether no attribute is in the set.
    pub fn is_empty(self) -> (r: bool)
        ensures
            r == (self.bits == 0),
    {
        self.bits == 0
    }
}

/// Two attributes have the same position only if they are the same attribute.
pub proof fn lemma_bits_distinct(a: Attribute, b: Attribute)
    ensures
        a.spec_ordinal() <= 27,
        b.spec_ordinal() <= 27,
        (a.spec_ordinal() == b.spec_ordinal()) == (a == b),
{
}

impl Default for Attributes {
    fn default() -> (a: Self)
        ensures
            a.bits == 0,
    {
        Attributes { bits: 0 }
    }
}

/// How a cell is shown: its colors and its text attributes.
#[derive(Debug, Clone, Copy, PartialEq, Eq, Hash, Structural)]
pub struct Style {
    /// The color of the character, or `None` to leave the terminal's own.
    pub foreground_color: Option<Color>,
    /// The color behind the character, or `None` to leave the terminal's own.
    pub background_color: Option<Color>,
    /// The text attributes.
    pub attributes: Attributes,
}

impl Style {
    /// The style without colors and without attributes.
    pub open spec fn plain() -> Style {
        Style {
            foreground_color: None,
            background_color: None,
            attributes: Attributes { bits: 0 },
        }
    }

    /// A style with the given foreground color and nothing else.
    pub fn foreground(color: Color) -> (s: Self)
        ensures
            s == (Style { foreground_color: Some(color), ..Style::plain() }),
    {
        Style {
            foreground_color: Some(color),
            background_color: None,
            attributes: Attributes { bits: 0 },
        }
    }

    /// A style with the given background color and nothing else.
    pub fn background(color: Color) -> (s: Self)
        ensures
            s == (Style { background_color: Some(color), ..Style::plain() }),
    {
        Style {
            foreground_color: None,
            background_color: Some(color),
            attributes: Attributes { bits: 0 },
        }
    }

    /// The same style with the given attributes.
    pub fn with_attributes(self, attributes: Attributes) -> (s: Self)
        ensures
            s == (Style { attributes, ..self }),
    {
        Style {
            foreground_color: self.foreground_color,
            background_color: self.background_color,
            attributes,
        }
    }
}

impl Default for Style {
    fn default() -> (s: Self)
        ensures
            s == Style::plain(),
    {
        Style {
            foreground_color: None,
            background_color: None,
            attributes: Attributes { bits: 0 },
        }
    }
}

} // verus!
