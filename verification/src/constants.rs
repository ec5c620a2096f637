//! The fixed words of Bulma's class vocabulary.

use vstd::prelude::*;

verus! {

/// The word that starts a modifier class, as in `is-large`.
pub const IS_PREFIX: &'static str = "is";

/// The modifier class of a suffix token: the prefix word, a hyphen, the token.
pub open spec fn modifier_class(token: Seq<char>) -> Seq<char> {
    "is"@ + seq!['-'] + token
}

/// Builds the modifier class of `token`, `is-large` for `large`.
pub fn is_modifier(token: &str) -> (class: String)
    ensures
        class@ == modifier_class(token@),
{
    let mut class = String::from_str(IS_PREFIX);
    proof {
        reveal_strlit("-");
        assert("-"@ =~= seq!['-']);
    }
    class.append("-");
    class.append(token);
    class
}

/// A modifier class is three characters longer than its token, and it holds
/// no space where its token holds none.
pub proof fn lemma_modifier_class_plain(token: Seq<char>)
    requires
        !token.contains(' '),
    ensures
        modifier_class(token).len() == token.len() + 3,
        !modifier_class(token).contains(' '),
{
    reveal_strlit("is");
    let class = modifier_class(token);
    assert("is"@ =~= seq!['i', 's']);
    assert forall|i: int| 0 <= i < class.len() implies class[i] != ' ' by {
        if i >= 3 {
            assert(token.contains(token[i - 3]));
        }
    }
}

} // verus!
