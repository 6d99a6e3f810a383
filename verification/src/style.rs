//! Per-character display styling: colors, text attributes and the `Style`
//! record attached to every character of a styled buffer.

use vstd::prelude::*;

verus! {

/// A terminal color, either a named palette entry, a 24-bit value or an
/// ANSI 256-palette index.  The host application translates these into its
/// terminal protocol.
#[derive(Clone, Copy, PartialEq, Eq, Structural, Debug)]
pub enum Color {
    Reset,
    Black,
    DarkGrey,
    Red,
    DarkRed,
    Green,
    DarkGreen,
    Yellow,
    DarkYellow,
    Blue,
    DarkBlue,
    Magenta,
    DarkMagenta,
    Cyan,
    DarkCyan,
    White,
    Grey,
    Rgb { r: u8, g: u8, b: u8 },
    AnsiValue(u8),
}

/// A text attribute such as bold or italic.
#[derive(Clone, Copy, PartialEq, Eq, Structural, Debug)]
pub enum Attribute {
    Reset,
    Bold,
    Dim,
    Italic,
    Underlined,
    DoubleUnderlined,
    Undercurled,
    Underdotted,
    Underdashed,
    SlowBlink,
    RapidBlink,
    Reverse,
    Hidden,
    CrossedOut,
}

/// The mathematical value of a [`Style`]: its two optional colors and the
/// sequence of attributes.
pub struct StyleModel {
    pub fg: Option<Color>,
    pub bg: Option<Color>,
    pub attrs: Seq<Attribute>,
}

impl StyleModel {
    /// The blank style: no colors, no attributes.
    pub open spec fn empty() -> StyleModel {
        StyleModel { fg: None, bg: None, attrs: Seq::empty() }
    }
}

/// The foreground color, background color and attributes of one character.
#[derive(Debug, PartialEq, Eq)]
pub struct Style {
    /// Optional foreground color.
    foreground: Option<Color>,
    /// Optional background color.
    background: Option<Color>,
    /// Attributes such as bold or italic, in the order they were added.
    attributes: Vec<Attribute>,
}

impl View for Style {
    type V = StyleModel;

    closed spec fn view(&self) -> StyleModel {
        StyleModel { fg: self.foreground, bg: self.background, attrs: self.attributes@ }
    }
}

impl DeepView for Style {
    type V = StyleModel;

    open spec fn deep_view(&self) -> StyleModel {
        self.view()
    }
}

/// Copies a vector of attributes element by element.
fn copy_attributes(src: &Vec<Attribute>) -> (r: Vec<Attribute>)
    ensures
        r@ == src@,
{
    let mut r: Vec<Attribute> = Vec::new();
    let mut i: usize = 0;
    while i < src.len()
        invariant
            i <= src.len(),
            r@ == src@.take(i as int),
        decreases src.len() - i,
    {
        r.push(src[i]);
        proof {
            assert(src@.take(i as int).push(src@[i as int]) =~= src@.take(i as int + 1));
        }
        i += 1;
    }
    proof {
        assert(src@.take(src@.len() as int) =~= src@);
    }
    r
}

impl Clone for Style {
    fn clone(&self) -> (r: Self)
        ensures
            r@ == self@,
    {
        Style {
            foreground: self.foreground,
            background: self.background,
            attributes: copy_attributes(&self.attributes),
        }
    }
}

impl Default for Style {
    /// The blank style.
    fn default() -> (r: Style)
        ensures
            r@ == StyleModel::empty(),
    {
        let r = Style { foreground: None, background: None, attributes: Vec::new() };
        proof {
            assert(r@.attrs =~= Seq::<Attribute>::empty());
        }
        r
    }
}

impl Style {
    /// Set the style foreground color.
    pub fn set_foreground_color(&mut self, color: Color)
        ensures
            final(self)@ == (StyleModel { fg: Some(color), ..old(self)@ }),
    {
        self.foreground = Some(color);
    }

    /// Get the style foreground color.
    pub fn foreground_color(&self) -> (r: &Option<Color>)
        ensures
            *r == self@.fg,
    {
        &self.foreground
    }

    /// Set the style background color.
    pub fn set_background_color(&mut self, color: Color)
        ensures
            final(self)@ == (StyleModel { bg: Some(color), ..old(self)@ }),
    {
        self.background = Some(color);
    }

    /// Get the style background color.
    pub fn background_color(&self) -> (r: &Option<Color>)
        ensures
            *r == self@.bg,
    {
        &self.background
    }

    /// Get the style attributes.
    pub fn attributes(&self) -> (r: &Vec<Attribute>)
        ensures
            r@ == self@.attrs,
    {
        &self.attributes
    }

    /// Add an attribute to this style.
    pub fn add_attribute(&mut self, attribute: Attribute)
        ensures
            final(self)@ == (StyleModel { attrs: old(self)@.attrs.push(attribute), ..old(self)@ }),
    {
        self.attributes.push(attribute);
    }

    /// Remove all attributes from this style.
    pub fn clear_attributes(&mut self)
        ensures
            final(self)@ == (StyleModel { attrs: Seq::empty(), ..old(self)@ }),
    {
        self.attributes.clear();
        proof {
            assert(self.attributes@ =~= Seq::<Attribute>::empty());
        }
    }
}

} // verus!
