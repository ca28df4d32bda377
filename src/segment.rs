//! A piece of prompt text with its style, and how it is painted.

use crate::style::{bold_rgb_painted, paint_bold, paint_plain, Colour};
use vstd::prelude::*;

verus! {

/// How a piece of text is shown: as it is, or bold in a colour.
#[derive(Clone, Copy, Debug, PartialEq, Eq, Structural)]
pub enum Emphasis {
    Plain,
    Bold(Colour),
}

/// One piece of the prompt, and whether a space follows it.
pub struct PromptComponent {
    pub text: String,
    pub style: Emphasis,
    pub space_after: bool,
}

/// What a component is made of: its text, its style and its trailing space.
pub struct ComponentModel {
    pub text: Seq<char>,
    pub style: Emphasis,
    pub space_after: bool,
}

/// The characters that the terminal receives for `text` shown in `style`.
pub open spec fn painted(text: Seq<char>, style: Emphasis) -> Seq<char> {
    match style {
        Emphasis::Plain => text,
        Emphasis::Bold(c) => bold_rgb_painted(c.rgb(), text),
    }
}

impl PromptComponent {
    pub open spec fn model(&self) -> ComponentModel {
        ComponentModel { text: self.text@, style: self.style, space_after: self.space_after }
    }

    /// A component with `text` in `style`, followed by a space.
    pub fn new(text: &str, style: Emphasis) -> (r: Self)
        ensures
            r.model() == (ComponentModel { text: text@, style, space_after: true }),
    {
        PromptComponent { text: text.to_owned(), style, space_after: true }
    }

    /// A component with `text` bold in `colour`, followed by a space.
    pub fn bold(text: &str, colour: Colour) -> (r: Self)
        ensures
            r.model() == (ComponentModel {
                text: text@,
                style: Emphasis::Bold(colour),
                space_after: true,
            }),
    {
        Self::new(text, Emphasis::Bold(colour))
    }

    /// A component with `text` as it is, followed by a space.
    pub fn unstyled(text: &str) -> (r: Self)
        ensures
            r.model() == (ComponentModel { text: text@, style: Emphasis::Plain, space_after: true }),
    {
        PromptComponent { text: text.to_owned(), style: Emphasis::Plain, space_after: true }
    }

    /// The same component with no space after it.
    pub fn no_space(self) -> (r: Self)
        ensures
            r.model() == (ComponentModel {
                text: self.text@,
                style: self.style,
                space_after: false,
            }),
    {
        PromptComponent { text: self.text, style: self.style, space_after: false }
    }

    /// The component's text as the terminal receives it.
    pub fn render(&self) -> (r: String)
        ensures
            r@ == painted(self.text@, self.style),
    {
        match self.style {
            Emphasis::Plain => paint_plain(self.text.as_str()),
            Emphasis::Bold(c) => paint_bold(c.to_ansi(), self.text.as_str()),
        }
    }
}

} // verus!
