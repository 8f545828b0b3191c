use vstd::prelude::*;

verus! {

/// The color category of a spin, read from its color name. A name other
/// than the three known ones is `Other`: it counts as neither red nor black.
#[derive(Clone, Copy, Debug, PartialEq, Eq, Structural)]
pub enum Color {
    Red,
    Black,
    Green,
    Other,
}

/// The category that a color name stands for.
pub open spec fn color_of(name: Seq<char>) -> Color {
    if name == "RED"@ {
        Color::Red
    } else if name == "BLACK"@ {
        Color::Black
    } else if name == "GREEN"@ {
        Color::Green
    } else {
        Color::Other
    }
}

/// One completed spin: the pocket number and the name of its color
/// ("RED", "BLACK" or "GREEN"; any other name is kept as it is).
#[derive(Debug)]
pub struct SpinResult {
    pub value: u32,
    pub color: String,
}

/// What a spin is, as contracts see it.
pub struct SpinView {
    pub value: u32,
    pub color: Seq<char>,
}

impl View for SpinResult {
    type V = SpinView;

    open spec fn view(&self) -> SpinView {
        SpinView { value: self.value, color: self.color@ }
    }
}

impl SpinResult {
    pub fn new(value: u32, color: String) -> (r: SpinResult)
        ensures
            r@ == (SpinView { value, color: color@ }),
    {
        SpinResult { value, color }
    }

    /// The category of this spin's color name.
    pub fn color_kind(&self) -> (c: Color)
        ensures
            c == color_of(self.color@),
    {
        if self.color == String::from_str("RED") {
            Color::Red
        } else if self.color == String::from_str("BLACK") {
            Color::Black
        } else if self.color == String::from_str("GREEN") {
            Color::Green
        } else {
            Color::Other
        }
    }
}

} // verus!
