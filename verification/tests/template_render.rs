use shadow_core::{PromptTemplate, SystemPrompts};

#[test]
fn prompt_template_replaces_single_variable() {
    let result = PromptTemplate::new("Hello, {name}!").render(&[("name", "World")]);
    assert_eq!(result, "Hello, World!");
}

#[test]
fn prompt_template_replaces_multiple_variables() {
    let result = PromptTemplate::new("Hi {user_name}, meet {shadow_name}.")
        .render(&[("user_name", "Alice"), ("shadow_name", "Kage")]);
    assert_eq!(result, "Hi Alice, meet Kage.");
}

#[test]
fn prompt_template_leaves_unmatched_placeholders_intact() {
    let result = PromptTemplate::new("Hello {name}, your {unknown} is safe.")
        .render(&[("name", "Alice")]);
    assert_eq!(result, "Hello Alice, your {unknown} is safe.");
}

#[test]
fn prompt_template_replaces_placeholder_appearing_multiple_times() {
    let result = PromptTemplate::new("{x} and {x} again").render(&[("x", "foo")]);
    assert_eq!(result, "foo and foo again");
}

#[test]
fn prompt_template_renders_real_persona_prompt_variables() {
    let prompts = SystemPrompts::for_locale("en");
    let rendered = PromptTemplate::new(prompts.shadow_core_persona_prompt).render(&[
        ("shadow_name", "Kage"),
        ("user_name", "Yuki"),
        ("interface_language", "Japanese"),
        (
            "current_time",
            "UTC: 2026-04-30 09:15:00 UTC; user timezone: UTC",
        ),
    ]);
    assert!(!rendered.contains("{shadow_name}"));
    assert!(!rendered.contains("{user_name}"));
    assert!(!rendered.contains("{interface_language}"));
    assert!(!rendered.contains("{current_time}"));
    assert!(rendered.contains("Kage"));
    assert!(rendered.contains("Yuki"));
    assert!(rendered.contains("Japanese"));
    assert!(rendered.contains("UTC: 2026-04-30 09:15:00 UTC; user timezone: UTC"));
}
