//! Sizes.

use vstd::prelude::*;
use vstd::string::StringExecFns;

verus! {

/// The character of a single decimal digit.
pub open spec fn digit(d: nat) -> char {
    if d == 0 {
        '0'
    } else if d == 1 {
        '1'
    } else if d == 2 {
        '2'
    } else if d == 3 {
        '3'
    } else if d == 4 {
        '4'
    } else if d == 5 {
        '5'
    } else if d == 6 {
        '6'
    } else if d == 7 {
        '7'
    } else if d == 8 {
        '8'
    } else {
        '9'
    }
}

/// The decimal numeral of `n`, without leading zeros.
pub open spec fn decimal(n: nat) -> Seq<char>
    decreases n,
{
    if n < 10 {
        seq![digit(n)]
    } else {
        decimal(n / 10).push(digit(n % 10))
    }
}

/// The text of a single decimal digit.
fn digit_text(d: u32) -> (text: &'static str)
    requires
        d < 10,
    ensures
        text@ == seq![digit(d as nat)],
{
    proof {
        reveal_strlit("0");
        reveal_strlit("1");
        reveal_strlit("2");
        reveal_strlit("3");
        reveal_strlit("4");
        reveal_strlit("5");
        reveal_strlit("6");
        reveal_strlit("7");
        reveal_strlit("8");
        reveal_strlit("9");
    }
    let text = if d == 0 {
        "0"
    } else if d == 1 {
        "1"
    } else if d == 2 {
        "2"
    } else if d == 3 {
        "3"
    } else if d == 4 {
        "4"
    } else if d == 5 {
        "5"
    } else if d == 6 {
        "6"
    } else if d == 7 {
        "7"
    } else if d == 8 {
        "8"
    } else {
        "9"
    };
    assert(text@ =~= seq![digit(d as nat)]);
    text
}

/// Writes the decimal numeral of `n` at the end of `text`.
fn append_decimal(text: &mut String, n: u32)
    ensures
        final(text)@ == old(text)@ + decimal(n as nat),
    decreases n,
{
    if n >= 10 {
        append_decimal(text, n / 10);
    }
    text.append(digit_text(n % 10));
    assert(final(text)@ =~= old(text)@ + decimal(n as nat));
}

/// A width and a height, in whole units.
#[derive(Debug, Clone, Copy, PartialEq, Eq, PartialOrd, Ord, Hash, Structural)]
pub struct Size {
    /// width
    pub width: u32,
    /// height
    pub height: u32,
}

impl Size {
    /// The size of the given width and height.
    #[must_use]
    pub fn new(width: u32, height: u32) -> (size: Self)
        ensures
            size == (Size { width, height }),
    {
        Size { width, height }
    }

    /// The same size with the width replaced.
    #[must_use]
    pub fn w(self, width: u32) -> (size: Self)
        ensures
            size == (Size { width, ..self }),
    {
        Size { width, height: self.height }
    }

    /// The same size with the height replaced.
    #[must_use]
    pub fn h(self, height: u32) -> (size: Self)
        ensures
            size == (Size { height, ..self }),
    {
        Size { width: self.width, height }
    }

    /// The same size with the width replaced.
    #[must_use]
    pub fn width(self, width: u32) -> (size: Self)
        ensures
            size == (Size { width, ..self }),
    {
        self.w(width)
    }

    /// The same size with the height replaced.
    #[must_use]
    pub fn height(self, height: u32) -> (size: Self)
        ensures
            size == (Size { height, ..self }),
    {
        self.h(height)
    }

    /// The text of a size: the width, an `x`, the height.
    pub open spec fn text(self) -> Seq<char> {
        decimal(self.width as nat) + seq!['x'] + decimal(self.height as nat)
    }

    /// The size as text, such as `300x600`.
    #[must_use]
    pub fn to_string(&self) -> (text: String)
        ensures
            text@ == self.text(),
    {
        let mut text = String::new();
        append_decimal(&mut text, self.width);
        proof {
            reveal_strlit("x");
        }
        text.append("x");
        append_decimal(&mut text, self.height);
        assert(text@ =~= self.text());
        text
    }

    /// The larger of width and height.
    #[must_use]
    pub fn max_dim(&self) -> (dim: u32)
        ensures
            dim >= self.width,
            dim >= self.height,
            dim == self.width || dim == self.height,
    {
        if self.width >= self.height {
            self.width
        } else {
            self.height
        }
    }

    /// The smaller of width and height.
    #[must_use]
    pub fn min_dim(&self) -> (dim: u32)
        ensures
            dim <= self.width,
            dim <= self.height,
            dim == self.width || dim == self.height,
    {
        if self.width <= self.height {
            self.width
        } else {
            self.height
        }
    }
}

} // verus!
