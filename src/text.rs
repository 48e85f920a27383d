//! A run of text and its style. Measuring it takes font metrics, which a
//! renderer supplies.
use vstd::prelude::*;
use crate::base::{Shader, Widget};
use crate::math::Positive;

verus! {

pub struct Text {
    value: String,
    style: Style,
}

#[derive(Clone)]
pub struct Style {
    pub shader: Shader,
    pub background: Shader,
    pub font: String,
    pub family: String,
    pub size: Positive,
    pub weight: Positive,
    pub underline: Option<Positive>,
    pub strikeout: Option<Positive>,
    pub overline: Option<Positive>,
    pub italic: bool,
    pub letter_spacing: Positive,
    pub word_spacing: Positive,
}

impl Text {
    pub closed spec fn spec_value(&self) -> Seq<char> {
        self.value@
    }

    pub closed spec fn spec_style(&self) -> Style {
        self.style
    }

    pub fn new(text: String, style: Style) -> (r: Text)
        ensures
            r.spec_value() == text@,
            r.spec_style() == style,
    {
        Text { value: text, style }
    }

    pub fn value(&self) -> (r: &str)
        ensures
            r@ == self.spec_value(),
    {
        self.value.as_str()
    }

    pub fn style(&self) -> (r: &Style)
        ensures
            *r == self.spec_style(),
    {
        &self.style
    }
}

impl Widget for Text {
}

} // verus!
