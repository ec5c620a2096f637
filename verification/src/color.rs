//! The colors that Bulma components come in.

use vstd::prelude::*;

verus! {

/// A color variant of a component.
#[derive(Clone, Copy, Debug, PartialEq, Eq, Structural, Hash)]
pub enum Color {
    Primary,
    Link,
    Info,
    Success,
    Warning,
    Danger,
    White,
    Black,
    Light,
    Dark,
}

impl Color {
    /// The suffix token that Bulma spells this color with.
    pub open spec fn token(self) -> Seq<char> {
        match self {
            Color::Primary => "primary"@,
            Color::Link => "link"@,
            Color::Info => "info"@,
            Color::Success => "success"@,
            Color::Warning => "warning"@,
            Color::Danger => "danger"@,
            Color::White => "white"@,
            Color::Black => "black"@,
            Color::Light => "light"@,
            Color::Dark => "dark"@,
        }
    }

    /// The suffix token of this color, in lower case.
    pub fn as_str(&self) -> (token: &'static str)
        ensures
            token@ == self.token(),
    {
        match self {
            Color::Primary => "primary",
            Color::Link => "link",
            Color::Info => "info",
            Color::Success => "success",
            Color::Warning => "warning",
            Color::Danger => "danger",
            Color::White => "white",
            Color::Black => "black",
            Color::Light => "light",
            Color::Dark => "dark",
        }
    }

    /// The suffix token of this color as an owned text.
    pub fn to_string(&self) -> (token: String)
        ensures
            token@ == self.token(),
    {
        String::from_str(self.as_str())
    }
}

/// Every color has a token, the same one each time it is asked for: it is not
/// empty, holds no space, and no two colors share it.
pub proof fn lemma_color_token(a: Color, b: Color)
    ensures
        a.token().len() > 0,
        !a.token().contains(' '),
        a == b ==> a.token() == b.token(),
        a != b ==> a.token() != b.token(),
{
    reveal_strlit("primary");
    reveal_strlit("link");
    reveal_strlit("info");
    reveal_strlit("success");
    reveal_strlit("warning");
    reveal_strlit("danger");
    reveal_strlit("white");
    reveal_strlit("black");
    reveal_strlit("light");
    reveal_strlit("dark");
    if a != b {
        assert(a.token()[0] != b.token()[0] || a.token()[2] != b.token()[2]);
    }
}

} // verus!
