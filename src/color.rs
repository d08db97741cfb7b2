use vstd::prelude::*;
use vstd::string::StrSliceExecFns;

verus! {

/// Whether two strings hold the same characters.
pub fn str_equals(a: &str, b: &str) -> (r: bool)
    ensures
        r == (a@ == b@),
{
    let n = a.unicode_len();
    if n != b.unicode_len() {
        return false;
    }
    let mut i: usize = 0;
    while i < n
        invariant
            n == a@.len(),
            n == b@.len(),
            i <= n,
            forall|j: int| 0 <= j < i ==> a@[j] == b@[j],
        decreases n - i,
    {
        if a.get_char(i) != b.get_char(i) {
            return false;
        }
        i += 1;
    }
    assert(a@ =~= b@);
    true
}

/// The drawing colours, by name.
#[derive(Clone, Copy, Debug, PartialEq, Eq, Structural)]
pub enum CurrentColor {
    Red,
    Blue,
    Yellow,
    Green,
    Orange,
    Black,
    NotSupported,
}

impl CurrentColor {
    pub open spec fn spec_value(self) -> u32 {
        match self {
            CurrentColor::Red => 0xffff3c3c,
            CurrentColor::Blue => 0xff1e6ec8,
            CurrentColor::Yellow => 0xffebb437,
            CurrentColor::Green => 0xff78af46,
            CurrentColor::Orange => 0xffeb7d0f,
            CurrentColor::Black => 0xff242424,
            CurrentColor::NotSupported => 0x00,
        }
    }

    /// The colour named `name`; an unknown name gives `NotSupported`.
    pub open spec fn spec_from_name(name: Seq<char>) -> CurrentColor {
        if name == "red"@ {
            CurrentColor::Red
        } else if name == "blue"@ {
            CurrentColor::Blue
        } else if name == "yellow"@ {
            CurrentColor::Yellow
        } else if name == "green"@ {
            CurrentColor::Green
        } else if name == "orange"@ {
            CurrentColor::Orange
        } else if name == "black"@ {
            CurrentColor::Black
        } else {
            CurrentColor::NotSupported
        }
    }

    /// The colour as opaque ARGB; `NotSupported` is 0.
    pub fn value(&self) -> (r: u32)
        ensures
            r == self.spec_value(),
    {
        match self {
            CurrentColor::Red => 0xffff3c3c,
            CurrentColor::Blue => 0xff1e6ec8,
            CurrentColor::Yellow => 0xffebb437,
            CurrentColor::Green => 0xff78af46,
            CurrentColor::Orange => 0xffeb7d0f,
            CurrentColor::Black => 0xff242424,
            CurrentColor::NotSupported => 0x00,
        }
    }

    /// The colour named `name`; an unknown name gives `NotSupported`.
    pub fn from_name(name: &str) -> (r: CurrentColor)
        ensures
            r == CurrentColor::spec_from_name(name@),
    {
        if str_equals(name, "red") {
            CurrentColor::Red
        } else if str_equals(name, "blue") {
            CurrentColor::Blue
        } else if str_equals(name, "yellow") {
            CurrentColor::Yellow
        } else if str_equals(name, "green") {
            CurrentColor::Green
        } else if str_equals(name, "orange") {
            CurrentColor::Orange
        } else if str_equals(name, "black") {
            CurrentColor::Black
        } else {
            CurrentColor::NotSupported
        }
    }
}

/// The colour strokes are drawn in, changed by name.
#[derive(Clone, Copy, Debug)]
pub struct CurrentColorSingleton {
    pub current: CurrentColor,
}

impl CurrentColorSingleton {
    /// Starts with yellow.
    pub fn new() -> (r: CurrentColorSingleton)
        ensures
            r.current == CurrentColor::Yellow,
    {
        CurrentColorSingleton { current: CurrentColor::Yellow }
    }

    /// Switches to the colour named `name` (`NotSupported` for an unknown name).
    pub fn set(&mut self, name: &str)
        ensures
            final(self).current == CurrentColor::spec_from_name(name@),
    {
        self.current = CurrentColor::from_name(name);
    }

    /// The current colour as opaque ARGB.
    pub fn value(&self) -> (r: u32)
        ensures
            r == self.current.spec_value(),
    {
        self.current.value()
    }
}

/// Stroke widths, in pixels.
#[derive(Clone, Copy, Debug, PartialEq, Eq, Structural)]
pub enum LineWidth {
    Thin,
    Normal,
    Wide,
}

impl LineWidth {
    pub open spec fn spec_pixels(self) -> u32 {
        match self {
            LineWidth::Thin => 1,
            LineWidth::Normal => 2,
            LineWidth::Wide => 3,
        }
    }

    /// The width in pixels.
    pub fn pixels(self) -> (r: u32)
        ensures
            r == self.spec_pixels(),
    {
        match self {
            LineWidth::Thin => 1,
            LineWidth::Normal => 2,
            LineWidth::Wide => 3,
        }
    }
}

} // verus!
