//! The Bulma notification: a colored block that draws the eye.

use vstd::prelude::*;
use crate::class::{
    appended, class_string, lemma_class_string_append, lemma_class_string_single,
    lemma_class_string_well_spaced, lemma_space_free_well_spaced, well_spaced, ClassBuilder,
};
use crate::color::{lemma_color_token, Color};
use crate::constants::{is_modifier, lemma_modifier_class_plain, modifier_class};
use crate::element::{clone_text, custom_class_text, custom_fragment, Element};

verus! {

/// The options of a notification.
#[derive(Clone, Debug, PartialEq, Eq)]
pub struct NotificationProperties {
    /// The identifier of the root element.
    pub id: Option<String>,
    /// A custom class, put behind the notification's own classes.
    pub class: Option<String>,
    /// The color of the notification. Every color shows.
    pub color: Option<Color>,
    /// Whether the light shade of the color is used.
    pub light: bool,
}

impl NotificationProperties {
    /// The fragment of the shade: `is-light` where the light shade is asked
    /// for, else the empty fragment.
    pub open spec fn light_fragment(self) -> Seq<char> {
        if self.light {
            modifier_class("light"@)
        } else {
            Seq::empty()
        }
    }

    /// The fragment of the color: its modifier class, or the empty fragment
    /// where no color is set.
    pub open spec fn color_fragment(self) -> Seq<char> {
        match self.color {
            Some(color) => modifier_class(color.token()),
            None => Seq::empty(),
        }
    }

    /// The fragments of the class string in their order: the base class, the
    /// shade, the color, the custom class.
    pub open spec fn fragments(self) -> Seq<Seq<char>> {
        seq![
            "notification"@,
            self.light_fragment(),
            self.color_fragment(),
            custom_fragment(self.class),
        ]
    }
}

impl Default for NotificationProperties {
    /// The options with nothing set: no color, and the full shade.
    fn default() -> (props: Self)
        ensures
            props.id is None,
            props.class is None,
            props.color is None,
            !props.light,
    {
        NotificationProperties { id: None, class: None, color: None, light: false }
    }
}

/// The root element of a notification: a `div` with the identifier of the
/// properties and the class string of their fragments.
pub fn notification(props: &NotificationProperties) -> (root: Element)
    ensures
        root.tag@ == "div"@,
        root.id == props.id,
        root.class@ == class_string(props.fragments()),
        root.class@ == "notification"@ + appended(props.light_fragment()) + appended(
            props.color_fragment(),
        ) + appended(custom_fragment(props.class)),
        well_spaced(root.class@) <==> well_spaced(custom_fragment(props.class)),
{
    let light = if props.light {
        is_modifier("light")
    } else {
        String::new()
    };
    let color = match &props.color {
        Some(color) => is_modifier(color.as_str()),
        None => String::new(),
    };
    let builder = ClassBuilder::default().with_custom_class("notification").with_custom_class(
        light.as_str(),
    ).with_custom_class(color.as_str()).with_custom_class(custom_class_text(&props.class));
    proof {
        assert(builder@ =~= props.fragments());
        lemma_notification_class(*props);
        lemma_notification_class_well_spaced(*props);
    }
    Element { tag: String::from_str("div"), id: clone_text(&props.id), class: builder.build() }
}

/// The class string of a notification written out: the base class, then the
/// shade, the color and the custom class, each behind a space where it is not
/// empty.
pub proof fn lemma_notification_class(props: NotificationProperties)
    ensures
        class_string(props.fragments()) == "notification"@ + appended(props.light_fragment())
            + appended(props.color_fragment()) + appended(custom_fragment(props.class)),
{
    reveal_strlit("notification");
    let light = props.light_fragment();
    let color = props.color_fragment();
    let custom = custom_fragment(props.class);
    lemma_class_string_single("notification"@);
    lemma_class_string_append(seq!["notification"@], light);
    lemma_class_string_append(seq!["notification"@].push(light), color);
    lemma_class_string_append(seq!["notification"@].push(light).push(color), custom);
    assert(props.fragments() =~= seq!["notification"@].push(light).push(color).push(custom));
}

/// The class string of a notification is well spaced exactly where its custom
/// class is: the notification's own classes hold no space.
pub proof fn lemma_notification_class_well_spaced(props: NotificationProperties)
    ensures
        well_spaced(class_string(props.fragments())) <==> well_spaced(custom_fragment(props.class)),
{
    reveal_strlit("notification");
    reveal_strlit("light");
    if let Some(color) = props.color {
        lemma_color_token(color, color);
        lemma_modifier_class_plain(color.token());
    }
    lemma_modifier_class_plain("light"@);
    lemma_space_free_well_spaced(props.light_fragment());
    lemma_space_free_well_spaced(props.color_fragment());
    assert(well_spaced("notification"@));
    lemma_class_string_well_spaced(props.fragments());
    assert(props.fragments()[props.fragments().len() - 1] == custom_fragment(props.class));
}

} // verus!
