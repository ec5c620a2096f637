//! The sizes that Bulma components come in.

use vstd::prelude::*;

verus! {

/// A size variant of a component.
#[derive(Clone, Copy, Debug, PartialEq, Eq, Structural, Hash)]
pub enum Size {
    Small,
    Normal,
    Medium,
    Large,
}

impl Size {
    /// The suffix token that Bulma spells this size with.
    pub open spec fn token(self) -> Seq<char> {
        match self {
            Size::Small => "small"@,
            Size::Normal => "normal"@,
            Size::Medium => "medium"@,
            Size::Large => "large"@,
        }
    }

    /// The suffix token of this size, in lower case.
    pub fn as_str(&self) -> (token: &'static str)
        ensures
            token@ == self.token(),
    {
        match self {
            Size::Small => "small",
            Size::Normal => "normal",
            Size::Medium => "medium",
            Size::Large => "large",
        }
    }

    /// The suffix token of this size as an owned text.
    pub fn to_string(&self) -> (token: String)
        ensures
            token@ == self.token(),
    {
        String::from_str(self.as_str())
    }
}

/// Every size has a token, the same one each time it is asked for: it is not
/// empty, holds no space, and no two sizes share it.
pub proof fn lemma_size_token(a: Size, b: Size)
    ensures
        a.token().len() > 0,
        !a.token().contains(' '),
        a == b ==> a.token() == b.token(),
        a != b ==> a.token() != b.token(),
{
    reveal_strlit("small");
    reveal_strlit("normal");
    reveal_strlit("medium");
    reveal_strlit("large");
    if a != b {
        assert(a.token()[0] != b.token()[0]);
    }
}

} // verus!
