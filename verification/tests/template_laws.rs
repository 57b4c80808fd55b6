use shadow_core::{find_unmatched_placeholder, PromptTemplate};

#[test]
fn readme_example_renders_both_names() {
    let template = PromptTemplate::new("Hello {user_name}, I am {shadow_name}.");
    let rendered = template.render(&[("user_name", "Yuki"), ("shadow_name", "Kage")]);
    assert_eq!(rendered, "Hello Yuki, I am Kage.");
}

#[test]
fn readme_example_keeps_missing_value_visible() {
    let rendered = PromptTemplate::new("Hello {user_name}, today is {day}.")
        .render(&[("user_name", "Yuki")]);
    assert_eq!(rendered, "Hello Yuki, today is {day}.");
}

#[test]
fn rendering_without_bindings_returns_the_template() {
    let text = "a {b} {c and {d} } e";
    assert_eq!(PromptTemplate::new(text).render(&[]), text);
}

#[test]
fn text_without_opening_brace_is_unchanged_whatever_the_bindings() {
    let text = "plain } text, no placeholders";
    assert_eq!(PromptTemplate::new(text).render(&[("x", "y")]), text);
}

#[test]
fn unclosed_brace_keeps_the_rest_of_the_text() {
    assert_eq!(PromptTemplate::new("x {y").render(&[("y", "Z")]), "x {y");
    assert_eq!(PromptTemplate::new("{a} then {y").render(&[("a", "A"), ("y", "Z")]), "A then {y");
}

#[test]
fn last_binding_of_a_key_wins() {
    assert_eq!(PromptTemplate::new("{k}").render(&[("k", "1"), ("k", "2")]), "2");
}

#[test]
fn values_are_inserted_verbatim_and_not_rendered_again() {
    assert_eq!(PromptTemplate::new("{a}{b}").render(&[("a", "{b}"), ("b", "B")]), "{b}B");
}

#[test]
fn key_runs_to_the_first_closing_brace() {
    assert_eq!(PromptTemplate::new("{{x}}").render(&[("x", "X")]), "{{x}}");
    assert_eq!(PromptTemplate::new("{{x}}").render(&[("{x", "Y")]), "Y}");
}

#[test]
fn empty_key_can_be_bound() {
    assert_eq!(PromptTemplate::new("<{}>").render(&[("", "e")]), "<e>");
    assert_eq!(PromptTemplate::new("<{}>").render(&[]), "<{}>");
}

#[test]
fn non_ascii_text_and_values_render() {
    let rendered = PromptTemplate::new("あなたは {shadow_name} です。").render(&[("shadow_name", "影")]);
    assert_eq!(rendered, "あなたは 影 です。");
}

#[test]
fn unmatched_placeholder_finds_the_first_valid_name() {
    assert_eq!(find_unmatched_placeholder("Hello {name}!"), Some("name".to_string()));
    assert_eq!(find_unmatched_placeholder("{1abc} then {_x}"), Some("_x".to_string()));
    assert_eq!(find_unmatched_placeholder("{{x}}"), Some("x".to_string()));
    assert_eq!(find_unmatched_placeholder("{a1_b} {c}"), Some("a1_b".to_string()));
}

#[test]
fn unmatched_placeholder_ignores_non_placeholders() {
    assert_eq!(find_unmatched_placeholder("no braces"), None);
    assert_eq!(find_unmatched_placeholder("{}"), None);
    assert_eq!(find_unmatched_placeholder("{a b}"), None);
    assert_eq!(find_unmatched_placeholder("{abc"), None);
    assert_eq!(find_unmatched_placeholder("{9lives}"), None);
    assert_eq!(find_unmatched_placeholder("{名前}"), None);
}

#[test]
fn rendered_prompt_with_all_bindings_has_no_unmatched_placeholder() {
    let rendered = PromptTemplate::new("{a} and {b}").render(&[("a", "1"), ("b", "2")]);
    assert_eq!(find_unmatched_placeholder(&rendered), None);
    let partial = PromptTemplate::new("{a} and {b}").render(&[("a", "1")]);
    assert_eq!(find_unmatched_placeholder(&partial), Some("b".to_string()));
}
