//! The Bulma section: a layout container that comes in two larger sizes.

use vstd::prelude::*;
use crate::class::{
    appended, class_string, lemma_class_string_append, lemma_class_string_single,
    lemma_class_string_well_spaced, lemma_space_free_well_spaced, well_spaced, ClassBuilder,
};
use crate::constants::{is_modifier, lemma_modifier_class_plain, modifier_class};
use crate::element::{clone_text, custom_class_text, custom_fragment, Element};
use crate::size::{lemma_size_token, Size};

verus! {

/// The options of a section.
#[derive(Clone, Debug, PartialEq, Eq)]
pub struct SectionProperties {
    /// The identifier of the root element.
    pub id: Option<String>,
    /// A custom class, put behind the section's own classes.
    pub class: Option<String>,
    /// The size of the section. Only `Medium` and `Large` show; any other
    /// size is passed over in silence.
    pub size: Option<Size>,
}

impl SectionProperties {
    /// The fragment of the size: `is-medium` or `is-large` for those two
    /// sizes, the empty fragment for any other size and for none.
    pub open spec fn size_fragment(self) -> Seq<char> {
        match self.size {
            Some(Size::Medium) => modifier_class(Size::Medium.token()),
            Some(Size::Large) => modifier_class(Size::Large.token()),
            _ => Seq::empty(),
        }
    }

    /// The fragments of the class string in their order: the base class, the
    /// size, the custom class.
    pub open spec fn fragments(self) -> Seq<Seq<char>> {
        seq!["section"@, self.size_fragment(), custom_fragment(self.class)]
    }
}

impl Default for SectionProperties {
    /// The options with nothing set.
    fn default() -> (props: Self)
        ensures
            props.id is None,
            props.class is None,
            props.size is None,
    {
        SectionProperties { id: None, class: None, size: None }
    }
}

/// The root element of a section: a `div` with the identifier of the
/// properties and the class string of their fragments.
pub fn section(props: &SectionProperties) -> (root: Element)
    ensures
        root.tag@ == "div"@,
        root.id == props.id,
        root.class@ == class_string(props.fragments()),
        root.class@ == "section"@ + appended(props.size_fragment()) + appended(
            custom_fragment(props.class),
        ),
        well_spaced(root.class@) <==> well_spaced(custom_fragment(props.class)),
{
    let size = match &props.size {
        Some(size) => {
            if *size != Size::Medium && *size != Size::Large {
                String::new()
            } else {
                is_modifier(size.as_str())
            }
        },
        None => String::new(),
    };
    let builder = ClassBuilder::default().with_custom_class("section").with_custom_class(
        size.as_str(),
    ).with_custom_class(custom_class_text(&props.class));
    proof {
        assert(builder@ =~= props.fragments());
        lemma_section_class(*props);
        lemma_section_class_well_spaced(*props);
    }
    Element { tag: String::from_str("div"), id: clone_text(&props.id), class: builder.build() }
}

/// The class string of a section written out: the base class, then the size
/// and the custom class, each behind a space where it is not empty.
pub proof fn lemma_section_class(props: SectionProperties)
    ensures
        class_string(props.fragments()) == "section"@ + appended(props.size_fragment())
            + appended(custom_fragment(props.class)),
{
    reveal_strlit("section");
    let size = props.size_fragment();
    let custom = custom_fragment(props.class);
    lemma_class_string_single("section"@);
    lemma_class_string_append(seq!["section"@], size);
    lemma_class_string_append(seq!["section"@].push(size), custom);
    assert(props.fragments() =~= seq!["section"@].push(size).push(custom));
}

/// The class string of a section is well spaced exactly where its custom
/// class is: the section's own classes hold no space.
pub proof fn lemma_section_class_well_spaced(props: SectionProperties)
    ensures
        well_spaced(class_string(props.fragments())) <==> well_spaced(custom_fragment(props.class)),
{
    reveal_strlit("section");
    lemma_size_token(Size::Medium, Size::Large);
    lemma_size_token(Size::Large, Size::Medium);
    lemma_modifier_class_plain(Size::Medium.token());
    lemma_modifier_class_plain(Size::Large.token());
    lemma_space_free_well_spaced(props.size_fragment());
    assert(well_spaced("section"@));
    lemma_class_string_well_spaced(props.fragments());
    assert(props.fragments()[props.fragments().len() - 1] == custom_fragment(props.class));
}

} // verus!
