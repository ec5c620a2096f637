use yew_and_bulma::color::Color;
use yew_and_bulma::element::{clone_text, custom_class_text};
use yew_and_bulma::notification::{notification, NotificationProperties};
use yew_and_bulma::section::{section, SectionProperties};
use yew_and_bulma::size::Size;

fn section_class(size: Option<Size>, class: Option<&str>) -> String {
    section(&SectionProperties { id: None, class: class.map(|c| c.to_owned()), size }).class
}

fn notification_class(color: Option<Color>, light: bool, class: Option<&str>) -> String {
    notification(&NotificationProperties {
        id: None,
        class: class.map(|c| c.to_owned()),
        color,
        light,
    })
    .class
}

#[test]
fn notification_light_primary() {
    assert_eq!(notification_class(Some(Color::Primary), true, None), "notification is-light is-primary");
}

#[test]
fn notification_color_only() {
    assert_eq!(notification_class(Some(Color::Primary), false, None), "notification is-primary");
    assert_eq!(notification_class(Some(Color::Link), false, None), "notification is-link");
}

#[test]
fn notification_light_only() {
    assert_eq!(notification_class(None, true, None), "notification is-light");
}

#[test]
fn notification_with_everything_set() {
    assert_eq!(
        notification_class(Some(Color::Danger), true, Some("mt-2")),
        "notification is-light is-danger mt-2"
    );
}

#[test]
fn notification_with_nothing_set_is_its_base_class() {
    let root = notification(&NotificationProperties {
        id: None,
        class: None,
        color: None,
        light: false,
    });
    assert_eq!(root.class, "notification");
    assert_eq!(root.tag, "div");
    assert_eq!(root.id, None);
}

#[test]
fn section_with_nothing_set_is_its_base_class() {
    let root = section(&SectionProperties { id: None, class: None, size: None });
    assert_eq!(root.class, "section");
    assert_eq!(root.tag, "div");
    assert_eq!(root.id, None);
}

#[test]
fn section_passes_over_small_and_normal() {
    assert_eq!(section_class(Some(Size::Small), None), "section");
    assert_eq!(section_class(Some(Size::Normal), None), "section");
    assert_eq!(section_class(Some(Size::Small), Some("my-extra")), "section my-extra");
}

#[test]
fn section_shows_medium_and_large() {
    assert_eq!(section_class(Some(Size::Medium), None), "section is-medium");
    assert_eq!(section_class(Some(Size::Large), None), "section is-large");
    assert_eq!(section_class(Some(Size::Large), Some("my-extra")), "section is-large my-extra");
}

#[test]
fn section_with_empty_custom_class() {
    assert_eq!(section_class(None, Some("")), "section");
    assert_eq!(section_class(Some(Size::Medium), Some("")), "section is-medium");
}

#[test]
fn identifier_is_handed_through() {
    let root = section(&SectionProperties {
        id: Some("intro".to_owned()),
        class: None,
        size: None,
    });
    assert_eq!(root.id, Some("intro".to_owned()));
    let root = notification(&NotificationProperties {
        id: Some("note".to_owned()),
        class: None,
        color: None,
        light: false,
    });
    assert_eq!(root.id, Some("note".to_owned()));
}

#[test]
fn component_classes_have_no_stray_separator() {
    for class in [
        section_class(Some(Size::Small), Some("a b")),
        section_class(Some(Size::Large), None),
        notification_class(None, false, Some("x")),
        notification_class(Some(Color::Dark), true, None),
    ] {
        assert!(!class.starts_with(' '));
        assert!(!class.ends_with(' '));
        assert!(!class.contains("  "));
    }
}

#[test]
fn optional_texts_are_copied_and_read() {
    assert_eq!(clone_text(&None), None);
    assert_eq!(clone_text(&Some("a".to_owned())), Some("a".to_owned()));
    assert_eq!(custom_class_text(&None), "");
    assert_eq!(custom_class_text(&Some("mb-4".to_owned())), "mb-4");
}

#[test]
fn default_options_have_nothing_set() {
    let props = SectionProperties::default();
    assert_eq!(props, SectionProperties { id: None, class: None, size: None });
    assert_eq!(section(&props).class, "section");
    let props = NotificationProperties::default();
    assert_eq!(props, NotificationProperties { id: None, class: None, color: None, light: false });
    assert_eq!(notification(&props).class, "notification");
}

#[test]
fn root_element_is_the_same_for_the_same_options() {
    let props = SectionProperties {
        id: Some("a".to_owned()),
        class: Some("b c".to_owned()),
        size: Some(Size::Medium),
    };
    let first = section(&props);
    let second = section(&props.clone());
    assert_eq!(first, second);
    assert_eq!(first.class, "section is-medium b c");
}
