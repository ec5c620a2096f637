//! Ordered composition of CSS class fragments into one `class` attribute.

use vstd::prelude::*;

verus! {

/// The fragments that contribute to a class string: the non-empty ones, in the
/// order in which they were supplied. Equal fragments are all kept.
pub open spec fn kept_fragments(fragments: Seq<Seq<char>>) -> Seq<Seq<char>> {
    fragments.filter(|f: Seq<char>| f.len() > 0)
}

/// `parts` written one after the other with a single space between neighbours.
pub open spec fn join_with_space(parts: Seq<Seq<char>>) -> Seq<char>
    decreases parts.len(),
{
    if parts.len() == 0 {
        Seq::empty()
    } else if parts.len() == 1 {
        parts[0]
    } else {
        join_with_space(parts.drop_last()) + seq![' '] + parts.last()
    }
}

/// The class string of a sequence of fragments: empty fragments are left out,
/// the others are joined by single spaces in the order supplied.
pub open spec fn class_string(fragments: Seq<Seq<char>>) -> Seq<char> {
    join_with_space(kept_fragments(fragments))
}

/// What a fragment adds behind a non-empty class string: nothing where it is
/// empty, else a space and the fragment.
pub open spec fn appended(fragment: Seq<char>) -> Seq<char> {
    if fragment.len() == 0 {
        Seq::empty()
    } else {
        seq![' '] + fragment
    }
}

/// Whether `s` neither starts nor ends with a space and holds no two spaces in
/// a row.
pub open spec fn well_spaced(s: Seq<char>) -> bool {
    &&& s.len() > 0 ==> s[0] != ' ' && s[s.len() - 1] != ' '
    &&& forall|i: int| #![trigger s[i]] 0 <= i < s.len() - 1 ==> !(s[i] == ' ' && s[i + 1] == ' ')
}

/// The number of spaces in `s`.
pub open spec fn space_count(s: Seq<char>) -> nat
    decreases s.len(),
{
    if s.len() == 0 {
        0
    } else {
        space_count(s.drop_last()) + if s.last() == ' ' {
            1nat
        } else {
            0nat
        }
    }
}

/// The number of pieces that the spaces of `s` part it into; the empty text
/// has none.
pub open spec fn token_count(s: Seq<char>) -> nat {
    if s.len() == 0 {
        0
    } else {
        space_count(s) + 1
    }
}

/// The number of spaces in all of `parts` together.
pub open spec fn total_spaces(parts: Seq<Seq<char>>) -> nat
    decreases parts.len(),
{
    if parts.len() == 0 {
        0
    } else {
        total_spaces(parts.drop_last()) + space_count(parts.last())
    }
}

/// Accumulates class fragments in order and joins them into a class string.
pub struct ClassBuilder {
    classes: Vec<String>,
}

impl View for ClassBuilder {
    type V = Seq<Seq<char>>;

    /// The fragments supplied so far, oldest first.
    closed spec fn view(&self) -> Seq<Seq<char>> {
        self.classes@.map_values(|s: String| s@)
    }
}

impl ClassBuilder {
    /// A builder that holds no fragment yet.
    pub fn new() -> (builder: Self)
        ensures
            builder@ == Seq::<Seq<char>>::empty(),
    {
        let builder = ClassBuilder { classes: Vec::new() };
        assert(builder@ =~= Seq::<Seq<char>>::empty());
        builder
    }

    /// Appends `custom_class` to the fragments. Any text is taken as it is,
    /// the empty text too.
    pub fn with_custom_class(self, custom_class: &str) -> (builder: Self)
        ensures
            builder@ == self@.push(custom_class@),
    {
        let mut classes = self.classes;
        classes.push(String::from_str(custom_class));
        let builder = ClassBuilder { classes };
        assert(builder@ =~= self@.push(custom_class@));
        builder
    }

    /// The class string of the fragments supplied so far. The builder is left
    /// as it was.
    pub fn build(&self) -> (class: String)
        ensures
            class@ == class_string(self@),
            (forall|i: int| 0 <= i < self@.len() ==> (#[trigger] self@[i]).len() == 0)
                ==> class@.len() == 0,
            well_spaced(class@) <==> (forall|i: int|
                0 <= i < self@.len() ==> well_spaced(#[trigger] self@[i])),
            token_count(class@) == kept_fragments(self@).len() + total_spaces(self@),
            (forall|i: int| 0 <= i < self@.len() ==> !(#[trigger] self@[i]).contains(' '))
                ==> token_count(class@) == kept_fragments(self@).len(),
    {
        let mut class = String::new();
        let mut i: usize = 0;
        proof {
            reveal(Seq::filter);
            assert(self@.take(0).len() == 0);
        }
        while i < self.classes.len()
            invariant
                i <= self.classes.len(),
                class@ == class_string(self@.take(i as int)),
            decreases self.classes.len() - i,
        {
            let fragment = self.classes[i].as_str();
            proof {
                assert(self@.take(i + 1) =~= self@.take(i as int).push(fragment@));
                lemma_class_string_push(self@.take(i as int), fragment@);
                reveal_strlit(" ");
                assert(" "@ =~= seq![' ']);
            }
            if !fragment.is_empty() {
                if !class.as_str().is_empty() {
                    class.append(" ");
                }
                class.append(fragment);
            }
            i += 1;
        }
        proof {
            assert(self@.take(i as int) =~= self@);
            if forall|i: int| 0 <= i < self@.len() ==> (#[trigger] self@[i]).len() == 0 {
                lemma_class_string_all_empty(self@);
            }
            lemma_class_string_well_spaced(self@);
            lemma_class_string_tokens(self@);
            if forall|i: int| 0 <= i < self@.len() ==> !(#[trigger] self@[i]).contains(' ') {
                lemma_class_string_token_count(self@);
            }
        }
        class
    }
}

impl Default for ClassBuilder {
    /// A builder that holds no fragment yet.
    fn default() -> (builder: Self)
        ensures
            builder@ == Seq::<Seq<char>>::empty(),
    {
        ClassBuilder::new()
    }
}

/// Where every fragment is empty, the class string is empty.
pub proof fn lemma_class_string_all_empty(fragments: Seq<Seq<char>>)
    requires
        forall|i: int| 0 <= i < fragments.len() ==> (#[trigger] fragments[i]).len() == 0,
    ensures
        class_string(fragments) == Seq::<char>::empty(),
{
    lemma_kept_non_empty(fragments);
    lemma_kept_supplied(fragments);
    let kept = kept_fragments(fragments);
    if kept.len() > 0 {
        assert(fragments.contains(kept[0]));
        assert(kept[0].len() > 0);
    }
}

/// A class string neither starts nor ends with a space and holds no two spaces
/// in a row exactly where each fragment is itself so: the builder takes a
/// fragment as it is and trims nothing.
pub proof fn lemma_class_string_well_spaced(fragments: Seq<Seq<char>>)
    ensures
        well_spaced(class_string(fragments)) <==> (forall|i: int|
            0 <= i < fragments.len() ==> well_spaced(#[trigger] fragments[i])),
{
    let kept = kept_fragments(fragments);
    lemma_kept_non_empty(fragments);
    lemma_kept_supplied(fragments);
    if forall|i: int| 0 <= i < fragments.len() ==> well_spaced(#[trigger] fragments[i]) {
        lemma_join_well_spaced(kept);
    }
    if well_spaced(class_string(fragments)) {
        lemma_join_parts_well_spaced(kept);
        assert forall|i: int| 0 <= i < fragments.len() implies well_spaced(
            #[trigger] fragments[i],
        ) by {
            if fragments[i].len() > 0 {
                fragments.lemma_filter_contains(|f: Seq<char>| f.len() > 0, i);
                assert(kept.contains(fragments[i]));
            }
        }
    }
}

/// A class string has one token for each non-empty fragment and one more for
/// each space inside a fragment; equal fragments count each time they occur.
pub proof fn lemma_class_string_tokens(fragments: Seq<Seq<char>>)
    ensures
        token_count(class_string(fragments)) == kept_fragments(fragments).len() + total_spaces(
            fragments,
        ),
{
    lemma_kept_non_empty(fragments);
    lemma_kept_total_spaces(fragments);
    lemma_join_token_count(kept_fragments(fragments));
}

/// Where no fragment holds a space, the class string has as many tokens as
/// there are non-empty fragments; equal fragments count each time they occur.
pub proof fn lemma_class_string_token_count(fragments: Seq<Seq<char>>)
    requires
        forall|i: int| 0 <= i < fragments.len() ==> !(#[trigger] fragments[i]).contains(' '),
    ensures
        token_count(class_string(fragments)) == kept_fragments(fragments).len(),
{
    lemma_class_string_tokens(fragments);
    lemma_total_spaces_none(fragments);
}

/// Supplying one more fragment: an empty one changes nothing, a non-empty one
/// is appended, after a space unless it is the first to be kept.
pub proof fn lemma_class_string_push(fragments: Seq<Seq<char>>, fragment: Seq<char>)
    ensures
        class_string(fragments.push(fragment)) == if fragment.len() == 0 {
            class_string(fragments)
        } else if class_string(fragments).len() == 0 {
            fragment
        } else {
            class_string(fragments) + seq![' '] + fragment
        },
{
    let pred = |f: Seq<char>| f.len() > 0;
    fragments.lemma_filter_push(fragment, pred);
    lemma_kept_non_empty(fragments);
    lemma_join_len(kept_fragments(fragments));
    if fragment.len() > 0 {
        let kept = kept_fragments(fragments);
        assert(kept.push(fragment).drop_last() =~= kept);
        if kept.len() == 0 {
            assert(join_with_space(kept.push(fragment)) == fragment);
        }
    }
}

/// The class string of a single fragment is that fragment.
pub proof fn lemma_class_string_single(fragment: Seq<char>)
    ensures
        class_string(seq![fragment]) == fragment,
{
    let none = Seq::<Seq<char>>::empty();
    lemma_class_string_push(none, fragment);
    assert(none.push(fragment) =~= seq![fragment]);
    assert(class_string(none).len() == 0) by {
        reveal(Seq::filter);
    }
    assert(class_string(seq![fragment]) =~= fragment);
}

/// Behind a class string that is not empty, one more fragment adds nothing
/// where it is empty, else a space and itself.
pub proof fn lemma_class_string_append(fragments: Seq<Seq<char>>, fragment: Seq<char>)
    requires
        class_string(fragments).len() > 0,
    ensures
        class_string(fragments.push(fragment)) == class_string(fragments) + appended(fragment),
{
    let before = class_string(fragments);
    lemma_class_string_push(fragments, fragment);
    if fragment.len() == 0 {
        assert(before + Seq::<char>::empty() =~= before);
    } else {
        assert(before + seq![' '] + fragment =~= before + (seq![' '] + fragment));
    }
}

/// A join of non-empty parts is empty only when there are no parts.
pub proof fn lemma_join_len(parts: Seq<Seq<char>>)
    requires
        forall|i: int| 0 <= i < parts.len() ==> (#[trigger] parts[i]).len() > 0,
    ensures
        (join_with_space(parts).len() == 0) == (parts.len() == 0),
    decreases parts.len(),
{
    if parts.len() > 1 {
        lemma_join_len(parts.drop_last());
    }
}

/// Every kept fragment is non-empty.
pub proof fn lemma_kept_non_empty(fragments: Seq<Seq<char>>)
    ensures
        forall|i: int|
            0 <= i < kept_fragments(fragments).len() ==> (#[trigger] kept_fragments(
                fragments,
            )[i]).len() > 0,
{
    let pred = |f: Seq<char>| f.len() > 0;
    assert forall|i: int| 0 <= i < fragments.filter(pred).len() implies (
    #[trigger] fragments.filter(pred)[i]).len() > 0 by {
        fragments.lemma_filter_pred(pred, i);
    }
}

/// Each kept fragment is one of the fragments supplied.
pub proof fn lemma_kept_supplied(fragments: Seq<Seq<char>>)
    ensures
        forall|i: int|
            0 <= i < kept_fragments(fragments).len() ==> fragments.contains(
                #[trigger] kept_fragments(fragments)[i],
            ),
{
    let pred = |f: Seq<char>| f.len() > 0;
    assert forall|i: int| 0 <= i < fragments.filter(pred).len() implies fragments.contains(
        #[trigger] fragments.filter(pred)[i],
    ) by {
        assert(fragments.filter(pred).contains(fragments.filter(pred)[i]));
        fragments.lemma_filter_contains_rev(pred, fragments.filter(pred)[i]);
    }
}

/// The fragments that are left out are empty, so the kept ones hold all the
/// spaces.
pub proof fn lemma_kept_total_spaces(fragments: Seq<Seq<char>>)
    ensures
        total_spaces(kept_fragments(fragments)) == total_spaces(fragments),
    decreases fragments.len(),
{
    reveal(Seq::filter);
    if fragments.len() > 0 {
        let kept_before = kept_fragments(fragments.drop_last());
        let last = fragments.last();
        lemma_kept_total_spaces(fragments.drop_last());
        if last.len() > 0 {
            assert(kept_before.push(last).drop_last() =~= kept_before);
        }
    }
}

/// Spaces are counted piece by piece.
pub proof fn lemma_space_count_concat(a: Seq<char>, b: Seq<char>)
    ensures
        space_count(a + b) == space_count(a) + space_count(b),
    decreases b.len(),
{
    if b.len() == 0 {
        assert(a + b =~= a);
    } else {
        assert((a + b).drop_last() =~= a + b.drop_last());
        lemma_space_count_concat(a, b.drop_last());
    }
}

/// A text without a space counts none.
pub proof fn lemma_space_count_none(s: Seq<char>)
    requires
        !s.contains(' '),
    ensures
        space_count(s) == 0,
    decreases s.len(),
{
    if s.len() > 0 {
        assert(s[s.len() - 1] != ' ');
        assert forall|i: int| 0 <= i < s.drop_last().len() implies s.drop_last()[i] != ' ' by {
            assert(s[i] == s.drop_last()[i]);
        }
        lemma_space_count_none(s.drop_last());
    }
}

/// A text without a space is well spaced.
pub proof fn lemma_space_free_well_spaced(s: Seq<char>)
    requires
        !s.contains(' '),
    ensures
        well_spaced(s),
{
    assert forall|i: int| 0 <= i < s.len() implies s[i] != ' ' by {
        assert(s.contains(s[i]));
    }
}

/// Parts without a space hold none together.
pub proof fn lemma_total_spaces_none(parts: Seq<Seq<char>>)
    requires
        forall|i: int| 0 <= i < parts.len() ==> !(#[trigger] parts[i]).contains(' '),
    ensures
        total_spaces(parts) == 0,
    decreases parts.len(),
{
    if parts.len() > 0 {
        assert forall|i: int| 0 <= i < parts.drop_last().len() implies !(
        #[trigger] parts.drop_last()[i]).contains(' ') by {
            assert(parts.drop_last()[i] == parts[i]);
        }
        lemma_total_spaces_none(parts.drop_last());
        lemma_space_count_none(parts.last());
    }
}

/// Joining well-spaced, non-empty parts gives a well-spaced text.
pub proof fn lemma_join_well_spaced(parts: Seq<Seq<char>>)
    requires
        forall|i: int| 0 <= i < parts.len() ==> (#[trigger] parts[i]).len() > 0,
        forall|i: int| 0 <= i < parts.len() ==> well_spaced(#[trigger] parts[i]),
    ensures
        well_spaced(join_with_space(parts)),
    decreases parts.len(),
{
    if parts.len() > 1 {
        let head = join_with_space(parts.drop_last());
        let last = parts.last();
        let joined = join_with_space(parts);
        lemma_join_well_spaced(parts.drop_last());
        lemma_join_len(parts.drop_last());
        assert(well_spaced(last));
        let n = head.len() as int;
        assert forall|i: int| 0 <= i < joined.len() - 1 implies !(#[trigger] joined[i] == ' '
            && joined[i + 1] == ' ') by {
            if i + 1 < n {
                assert(joined[i] == head[i] && joined[i + 1] == head[i + 1]);
            } else if i + 1 == n {
                assert(joined[i] == head[n - 1]);
            } else if i == n {
                assert(joined[i + 1] == last[0]);
            } else {
                assert(joined[i] == last[i - n - 1] && joined[i + 1] == last[i - n - 1 + 1]);
            }
        }
        assert(joined[0] == head[0]);
        assert(joined[joined.len() - 1] == last[last.len() - 1]);
    } else if parts.len() == 1 {
        assert(well_spaced(parts[0]));
    }
}

/// Where a join of non-empty parts is well spaced, so is each part.
pub proof fn lemma_join_parts_well_spaced(parts: Seq<Seq<char>>)
    requires
        forall|i: int| 0 <= i < parts.len() ==> (#[trigger] parts[i]).len() > 0,
        well_spaced(join_with_space(parts)),
    ensures
        forall|i: int| 0 <= i < parts.len() ==> well_spaced(#[trigger] parts[i]),
    decreases parts.len(),
{
    if parts.len() > 1 {
        let head = join_with_space(parts.drop_last());
        let last = parts.last();
        let joined = join_with_space(parts);
        lemma_join_len(parts.drop_last());
        let n = head.len() as int;
        assert(joined[n] == ' ');
        assert(joined[0] == head[0]);
        assert(joined[n - 1] == head[n - 1]);
        assert(joined[n + 1] == last[0]);
        assert(joined[joined.len() - 1] == last[last.len() - 1]);
        assert forall|i: int| 0 <= i < head.len() - 1 implies !(#[trigger] head[i] == ' ' && head[i
            + 1] == ' ') by {
            assert(joined[i] == head[i] && joined[i + 1] == head[i + 1]);
        }
        assert forall|i: int| 0 <= i < last.len() - 1 implies !(#[trigger] last[i] == ' ' && last[i
            + 1] == ' ') by {
            assert(joined[n + 1 + i] == last[i] && joined[n + 1 + i + 1] == last[i + 1]);
        }
        assert(well_spaced(head));
        assert(well_spaced(last));
        lemma_join_parts_well_spaced(parts.drop_last());
        assert forall|i: int| 0 <= i < parts.len() implies well_spaced(#[trigger] parts[i]) by {
            if i < parts.len() - 1 {
                assert(parts[i] == parts.drop_last()[i]);
            }
        }
    }
}

/// A join of non-empty parts has one token for each part and one more for each
/// space inside a part.
pub proof fn lemma_join_token_count(parts: Seq<Seq<char>>)
    requires
        forall|i: int| 0 <= i < parts.len() ==> (#[trigger] parts[i]).len() > 0,
    ensures
        token_count(join_with_space(parts)) == parts.len() + total_spaces(parts),
    decreases parts.len(),
{
    if parts.len() > 1 {
        let head = join_with_space(parts.drop_last());
        let last = parts.last();
        lemma_join_token_count(parts.drop_last());
        lemma_join_len(parts.drop_last());
        lemma_space_count_concat(head + seq![' '], last);
        lemma_space_count_concat(head, seq![' ']);
        assert(seq![' '].drop_last() =~= Seq::<char>::empty());
        assert(space_count(seq![' ']) == 1) by {
            reveal_with_fuel(space_count, 2);
        }
    } else if parts.len() == 1 {
        assert(total_spaces(parts.drop_last()) == 0);
    }
}

} // verus!
