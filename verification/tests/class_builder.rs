use yew_and_bulma::class::ClassBuilder;

fn built(fragments: &[&str]) -> String {
    let mut builder = ClassBuilder::default();
    for fragment in fragments {
        builder = builder.with_custom_class(fragment);
    }
    builder.build()
}

fn tokens(class: &str) -> usize {
    if class.is_empty() {
        0
    } else {
        class.split(' ').count()
    }
}

#[test]
fn empty_builder_gives_empty_class() {
    assert_eq!(ClassBuilder::new().build(), "");
    assert_eq!(ClassBuilder::default().build(), "");
}

#[test]
fn single_fragment_is_kept_as_it_is() {
    assert_eq!(built(&["section"]), "section");
}

#[test]
fn fragments_are_joined_in_insertion_order() {
    assert_eq!(built(&["b", "a", "c"]), "b a c");
}

#[test]
fn empty_fragments_leave_no_separator() {
    let builder = ClassBuilder::default()
        .with_custom_class("section")
        .with_custom_class("")
        .with_custom_class("is-large")
        .with_custom_class("");
    let builder = builder.with_custom_class("my-extra");
    assert_eq!(builder.build(), "section is-large my-extra");
}

#[test]
fn leading_empty_fragments_are_skipped() {
    assert_eq!(built(&["", "", "box"]), "box");
    assert_eq!(built(&["", "box", "", "is-dark"]), "box is-dark");
}

#[test]
fn all_empty_fragments_give_empty_class() {
    assert_eq!(built(&[""]), "");
    assert_eq!(built(&["", "", "", ""]), "");
}

#[test]
fn duplicates_are_kept() {
    assert_eq!(built(&["a", "a", "b", "a"]), "a a b a");
    assert_eq!(tokens(&built(&["a", "a", "b", "a"])), 4);
}

#[test]
fn token_count_equals_non_empty_fragments() {
    let cases: [&[&str]; 5] = [
        &[],
        &[""],
        &["one"],
        &["one", "", "two", "", "", "three"],
        &["", "x", "x", ""],
    ];
    for fragments in cases {
        let expected = fragments.iter().filter(|f| !f.is_empty()).count();
        assert_eq!(tokens(&built(fragments)), expected);
    }
}

#[test]
fn output_has_no_stray_separator() {
    let cases: [&[&str]; 4] = [
        &["", "a", "", "", "b", ""],
        &["a"],
        &["", ""],
        &["notification", "", "is-primary", "with two"],
    ];
    for fragments in cases {
        let class = built(fragments);
        assert!(!class.starts_with(' '));
        assert!(!class.ends_with(' '));
        assert!(!class.contains("  "));
    }
}

#[test]
fn fragments_are_not_trimmed() {
    assert_eq!(built(&["a b", "c"]), "a b c");
    assert_eq!(built(&[" a", "b "]), " a b ");
}

#[test]
fn build_leaves_the_builder_as_it_was() {
    let builder = ClassBuilder::default().with_custom_class("tile").with_custom_class("is-child");
    let first = builder.build();
    let second = builder.build();
    assert_eq!(first, "tile is-child");
    assert_eq!(first, second);
    let extended = builder.with_custom_class("box");
    assert_eq!(extended.build(), "tile is-child box");
}

#[test]
fn non_ascii_fragments_are_joined_whole() {
    assert_eq!(built(&["größe", "", "日本"]), "größe 日本");
}
