//! Presentation attributes shared by every kind of chat component.
//!
//! A style is a flat bag of optional attributes. An attribute that is absent
//! is inherited from the enclosing component when the text is rendered.
use crate::text::{borrowed_text, copied_text, owned_text, text_of, IntoText};
use vstd::prelude::*;

verus! {

/// What a [`ComponentStyle`] holds, as plain mathematical values.
pub struct StyleView {
    pub bold: Option<bool>,
    pub italic: Option<bool>,
    pub underlined: Option<bool>,
    pub strikethrough: Option<bool>,
    pub obfuscated: Option<bool>,
    pub color: Option<Seq<char>>,
    pub insertion: Option<Seq<char>>,
    pub font: Option<Seq<char>>,
}

impl StyleView {
    /// The style with no attribute set.
    pub open spec fn empty() -> StyleView {
        StyleView {
            bold: None,
            italic: None,
            underlined: None,
            strikethrough: None,
            obfuscated: None,
            color: None,
            insertion: None,
            font: None,
        }
    }

    /// This style with the bold attribute set or cleared.
    pub open spec fn with_bold(self, bold: Option<bool>) -> StyleView {
        StyleView { bold, ..self }
    }

    /// This style with the italic attribute set or cleared.
    pub open spec fn with_italic(self, italic: Option<bool>) -> StyleView {
        StyleView { italic, ..self }
    }

    /// This style with the underlined attribute set or cleared.
    pub open spec fn with_underlined(self, underlined: Option<bool>) -> StyleView {
        StyleView { underlined, ..self }
    }

    /// This style with the strikethrough attribute set or cleared.
    pub open spec fn with_strikethrough(self, strikethrough: Option<bool>) -> StyleView {
        StyleView { strikethrough, ..self }
    }

    /// This style with the obfuscated attribute set or cleared.
    pub open spec fn with_obfuscated(self, obfuscated: Option<bool>) -> StyleView {
        StyleView { obfuscated, ..self }
    }

    /// This style with the color attribute set or cleared.
    pub open spec fn with_color(self, color: Option<Seq<char>>) -> StyleView {
        StyleView { color, ..self }
    }

    /// This style with the insertion attribute set or cleared.
    pub open spec fn with_insertion(self, insertion: Option<Seq<char>>) -> StyleView {
        StyleView { insertion, ..self }
    }

    /// This style with the font attribute set or cleared.
    pub open spec fn with_font(self, font: Option<Seq<char>>) -> StyleView {
        StyleView { font, ..self }
    }
}

/// The presentation attributes of a chat component.
#[derive(Debug, PartialEq, Eq)]
pub struct ComponentStyle {
    bold: Option<bool>,
    italic: Option<bool>,
    underlined: Option<bool>,
    strikethrough: Option<bool>,
    obfuscated: Option<bool>,
    color: Option<String>,
    insertion: Option<String>,
    font: Option<String>,
}

impl View for ComponentStyle {
    type V = StyleView;

    closed spec fn view(&self) -> StyleView {
        StyleView {
            bold: self.bold,
            italic: self.italic,
            underlined: self.underlined,
            strikethrough: self.strikethrough,
            obfuscated: self.obfuscated,
            color: text_of(self.color),
            insertion: text_of(self.insertion),
            font: text_of(self.font),
        }
    }
}

impl Default for ComponentStyle {
    fn default() -> (r: Self)
        ensures
            r@ == StyleView::empty(),
    {
        ComponentStyle::new()
    }
}

impl Clone for ComponentStyle {
    fn clone(&self) -> (r: Self)
        ensures
            r@ == self@,
    {
        ComponentStyle {
            bold: self.bold,
            italic: self.italic,
            underlined: self.underlined,
            strikethrough: self.strikethrough,
            obfuscated: self.obfuscated,
            color: copied_text(&self.color),
            insertion: copied_text(&self.insertion),
            font: copied_text(&self.font),
        }
    }
}

impl ComponentStyle {
    /// A style with no attribute set.
    pub fn new() -> (r: Self)
        ensures
            r@ == StyleView::empty(),
    {
        ComponentStyle {
            bold: None,
            italic: None,
            underlined: None,
            strikethrough: None,
            obfuscated: None,
            color: None,
            insertion: None,
            font: None,
        }
    }

    /// Whether no attribute is set.
    pub fn is_empty(&self) -> (r: bool)
        ensures
            r == (self@ == StyleView::empty()),
    {
        self.bold.is_none() && self.italic.is_none() && self.underlined.is_none()
            && self.strikethrough.is_none() && self.obfuscated.is_none() && self.color.is_none()
            && self.insertion.is_none() && self.font.is_none()
    }

    /// Whether the text is bold, if the style says so.
    pub fn get_bold(&self) -> (r: Option<bool>)
        ensures
            r == self@.bold,
    {
        self.bold
    }

    /// Sets or clears the bold attribute.
    pub fn set_bold(&mut self, bold: Option<bool>)
        ensures
            final(self)@ == old(self)@.with_bold(bold),
    {
        self.bold = bold;
    }

    /// This style with the bold attribute set or cleared.
    pub fn bold(self, bold: Option<bool>) -> (r: Self)
        ensures
            r@ == self@.with_bold(bold),
    {
        let mut style = self;
        style.set_bold(bold);
        style
    }

    /// Whether the text is italic, if the style says so.
    pub fn get_italic(&self) -> (r: Option<bool>)
        ensures
            r == self@.italic,
    {
        self.italic
    }

    /// Sets or clears the italic attribute.
    pub fn set_italic(&mut self, italic: Option<bool>)
        ensures
            final(self)@ == old(self)@.with_italic(italic),
    {
        self.italic = italic;
    }

    /// This style with the italic attribute set or cleared.
    pub fn italic(self, italic: Option<bool>) -> (r: Self)
        ensures
            r@ == self@.with_italic(italic),
    {
        let mut style = self;
        style.set_italic(italic);
        style
    }

    /// Whether the text is underlined, if the style says so.
    pub fn get_underlined(&self) -> (r: Option<bool>)
        ensures
            r == self@.underlined,
    {
        self.underlined
    }

    /// Sets or clears the underlined attribute.
    pub fn set_underlined(&mut self, underlined: Option<bool>)
        ensures
            final(self)@ == old(self)@.with_underlined(underlined),
    {
        self.underlined = underlined;
    }

    /// This style with the underlined attribute set or cleared.
    pub fn underlined(self, underlined: Option<bool>) -> (r: Self)
        ensures
            r@ == self@.with_underlined(underlined),
    {
        let mut style = self;
        style.set_underlined(underlined);
        style
    }

    /// Whether the text is struck through, if the style says so.
    pub fn get_strikethrough(&self) -> (r: Option<bool>)
        ensures
            r == self@.strikethrough,
    {
        self.strikethrough
    }

    /// Sets or clears the strikethrough attribute.
    pub fn set_strikethrough(&mut self, strikethrough: Option<bool>)
        ensures
            final(self)@ == old(self)@.with_strikethrough(strikethrough),
    {
        self.strikethrough = strikethrough;
    }

    /// This style with the strikethrough attribute set or cleared.
    pub fn strikethrough(self, strikethrough: Option<bool>) -> (r: Self)
        ensures
            r@ == self@.with_strikethrough(strikethrough),
    {
        let mut style = self;
        style.set_strikethrough(strikethrough);
        style
    }

    /// Whether the text is obfuscated, if the style says so.
    pub fn get_obfuscated(&self) -> (r: Option<bool>)
        ensures
            r == self@.obfuscated,
    {
        self.obfuscated
    }

    /// Sets or clears the obfuscated attribute.
    pub fn set_obfuscated(&mut self, obfuscated: Option<bool>)
        ensures
            final(self)@ == old(self)@.with_obfuscated(obfuscated),
    {
        self.obfuscated = obfuscated;
    }

    /// This style with the obfuscated attribute set or cleared.
    pub fn obfuscated(self, obfuscated: Option<bool>) -> (r: Self)
        ensures
            r@ == self@.with_obfuscated(obfuscated),
    {
        let mut style = self;
        style.set_obfuscated(obfuscated);
        style
    }

    /// The colour, if the style names one.
    pub fn get_color(&self) -> (r: Option<&String>)
        ensures
            text_of(r) == self@.color,
    {
        borrowed_text(&self.color)
    }

    /// Sets or clears the color attribute.
    pub fn set_color<T: IntoText>(&mut self, color: Option<T>)
        ensures
            final(self)@ == old(self)@.with_color(text_of(color)),
    {
        self.color = owned_text(color);
    }

    /// This style with the color attribute set or cleared.
    pub fn color<T: IntoText>(self, color: Option<T>) -> (r: Self)
        ensures
            r@ == self@.with_color(text_of(color)),
    {
        let mut style = self;
        style.set_color(color);
        style
    }

    /// The text inserted into the chat box on shift-click, if the style names one.
    pub fn get_insertion(&self) -> (r: Option<&String>)
        ensures
            text_of(r) == self@.insertion,
    {
        borrowed_text(&self.insertion)
    }

    /// Sets or clears the insertion attribute.
    pub fn set_insertion<T: IntoText>(&mut self, insertion: Option<T>)
        ensures
            final(self)@ == old(self)@.with_insertion(text_of(insertion)),
    {
        self.insertion = owned_text(insertion);
    }

    /// This style with the insertion attribute set or cleared.
    pub fn insertion<T: IntoText>(self, insertion: Option<T>) -> (r: Self)
        ensures
            r@ == self@.with_insertion(text_of(insertion)),
    {
        let mut style = self;
        style.set_insertion(insertion);
        style
    }

    /// The font, if the style names one.
    pub fn get_font(&self) -> (r: Option<&String>)
        ensures
            text_of(r) == self@.font,
    {
        borrowed_text(&self.font)
    }

    /// Sets or clears the font attribute.
    pub fn set_font<T: IntoText>(&mut self, font: Option<T>)
        ensures
            final(self)@ == old(self)@.with_font(text_of(font)),
    {
        self.font = owned_text(font);
    }

    /// This style with the font attribute set or cleared.
    pub fn font<T: IntoText>(self, font: Option<T>) -> (r: Self)
        ensures
            r@ == self@.with_font(text_of(font)),
    {
        let mut style = self;
        style.set_font(font);
        style
    }
}

} // verus!
