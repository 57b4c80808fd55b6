use serde_json::Value;
use shadow_core::{
    build_chat_context_planner_instructions, build_explicit_correction_input,
    build_onboarding_phase_instructions, build_onboarding_prompt_input,
    build_onboarding_sdq_phase_instructions, build_onboarding_sdq_turn_note,
    build_reflection_reply_instructions, build_translation_chat_instructions,
    build_translation_preview_instructions, bullet_list_block, chat_input,
    chat_input_with_reflection_memory, chat_input_with_reflection_memory_and_long_term_context,
    classify_pair_topic_tone, explicit_correction_instructions, normalize_preformatted_block,
    onboarding_phase_completed_instructions, preview_input, preview_input_with_reflection_memory,
    profile_input, PairTopicTone, SetupProbeKind, ShadowChallenge, ShadowProfile, SpeechStyle,
};

fn strings(items: &[&str]) -> Vec<String> {
    items.iter().map(|s| s.to_string()).collect()
}

fn sample_profile(with_style: bool) -> ShadowProfile {
    ShadowProfile {
        headline: "Answers with explicit tradeoffs".to_string(),
        stance: "evidence_first".to_string(),
        source_answers: strings(&["I value \"responsibility\""]),
        tone: "reflective".to_string(),
        traits: strings(&["structured", "calm"]),
        decision_style: "principled_tradeoff".to_string(),
        anchor: "evidence before action".to_string(),
        speech_style: if with_style {
            Some(SpeechStyle {
                dialect: None,
                formality: "casual".to_string(),
                markers: strings(&["やん"]),
                sentence_pattern: "short bursts".to_string(),
            })
        } else {
            None
        },
    }
}

fn text(s: &str) -> Value {
    Value::String(s.to_string())
}

fn texts(items: &[&str]) -> Value {
    Value::Array(items.iter().map(|s| text(s)).collect())
}

fn profile_json() -> Value {
    let mut m = serde_json::Map::new();
    m.insert("headline".to_string(), text("Answers with explicit tradeoffs"));
    m.insert("stance".to_string(), text("evidence_first"));
    m.insert("source_answers".to_string(), texts(&["I value \"responsibility\""]));
    Value::Object(m)
}

fn persona_json(with_style: bool) -> Value {
    let mut m = serde_json::Map::new();
    m.insert("tone".to_string(), text("reflective"));
    m.insert("traits".to_string(), texts(&["structured", "calm"]));
    if with_style {
        let mut style = serde_json::Map::new();
        style.insert("dialect".to_string(), Value::Null);
        style.insert("formality".to_string(), text("casual"));
        style.insert("markers".to_string(), texts(&["やん"]));
        style.insert("sentence_pattern".to_string(), text("short bursts"));
        m.insert("speech_style".to_string(), Value::Object(style));
    }
    Value::Object(m)
}

fn reasoning_json() -> Value {
    let mut m = serde_json::Map::new();
    m.insert("decision_style".to_string(), text("principled_tradeoff"));
    m.insert("anchor".to_string(), text("evidence before action"));
    Value::Object(m)
}

#[test]
fn classification_matches_trimmed_lowercase_labels() {
    assert_eq!(classify_pair_topic_tone(Some("funny"), None, ""), PairTopicTone::Funny);
    assert_eq!(classify_pair_topic_tone(Some("  Humor "), None, ""), PairTopicTone::Funny);
    assert_eq!(classify_pair_topic_tone(None, Some("恋愛"), ""), PairTopicTone::Relationship);
    assert_eq!(classify_pair_topic_tone(Some("DEBATE"), None, ""), PairTopicTone::SeriousReflective);
    assert_eq!(classify_pair_topic_tone(Some("Money & Work"), None, ""), PairTopicTone::WorkDev);
    assert_eq!(classify_pair_topic_tone(Some("ideas"), None, ""), PairTopicTone::CasualValues);
    assert_eq!(classify_pair_topic_tone(None, None, "anything"), PairTopicTone::CasualValues);
    assert_eq!(classify_pair_topic_tone(Some("unknown"), Some(""), "x"), PairTopicTone::CasualValues);
}

#[test]
fn classification_prefers_funny_over_other_tones_and_ignores_label_order() {
    assert_eq!(classify_pair_topic_tone(Some("work"), Some("funny"), ""), PairTopicTone::Funny);
    assert_eq!(classify_pair_topic_tone(Some("funny"), Some("work"), ""), PairTopicTone::Funny);
    assert_eq!(
        classify_pair_topic_tone(Some("politics"), Some("love"), ""),
        classify_pair_topic_tone(Some("love"), Some("politics"), "")
    );
    assert_eq!(classify_pair_topic_tone(Some("politics"), Some("love"), ""), PairTopicTone::Relationship);
}

#[test]
fn bullet_list_block_lists_items_or_the_empty_suffix() {
    assert_eq!(bullet_list_block("H", &[], "- none"), "H:\n- none");
    assert_eq!(bullet_list_block("H", &strings(&["a", "b"]), "- none"), "H:\n- a\n- b");
}

#[test]
fn preformatted_block_is_trimmed_or_replaced_when_blank() {
    assert_eq!(normalize_preformatted_block("   \n\t", "fallback"), "fallback");
    assert_eq!(normalize_preformatted_block("  block \n", "fallback"), "block");
}

#[test]
fn profile_input_trims_signal_and_answers() {
    assert_eq!(
        profile_input(Some("  bold  "), &strings(&["  a ", "b"])),
        "Kickoff style signal:\nbold\n\nStructured onboarding answers:\n- a\n- b\n\nReturn JSON only."
    );
    assert_eq!(
        profile_input(Some("   "), &[]),
        "Structured onboarding answers:\n- none supplied\n\nReturn JSON only."
    );
    assert_eq!(
        profile_input(None, &strings(&["x"])),
        "Structured onboarding answers:\n- x\n\nReturn JSON only."
    );
}

#[test]
fn chat_input_lays_out_blocks_and_profile_json() {
    let profile = sample_profile(true);
    let input = chat_input(&strings(&["a1"]), &[], &profile, &[]);
    let expected = format!(
        "Relevant onboarding answers:\n- a1\n\nOnboarding continuity:\n- none captured yet\n\nLong-term memory selected for this turn:\n- none selected\n\nReflection memory for normal chat (influence 3/10):\n- none captured yet\n\nOnboarding profile:\n{}\n\nPersona:\n{}\n\nReasoning policy:\n{}\n\nRecent conversation (latest 20 messages max):\nnone yet\n",
        profile_json(),
        persona_json(true),
        reasoning_json()
    );
    assert_eq!(input, expected);
}

#[test]
fn chat_input_with_memory_uses_given_blocks() {
    let profile = sample_profile(false);
    let with_reflection = chat_input_with_reflection_memory(
        &[],
        &strings(&["c1"]),
        &profile,
        &strings(&["User: hi", "Shadow: hey"]),
        &strings(&["r1", "r2"]),
    );
    assert!(with_reflection.contains("Onboarding continuity:\n- c1"));
    assert!(with_reflection.contains("Reflection memory for normal chat (influence 3/10):\n- r1\n- r2"));
    assert!(with_reflection.contains("Recent conversation (latest 20 messages max):\nUser: hi\nShadow: hey\n"));
    assert!(with_reflection.contains(&format!("Persona:\n{}\n", persona_json(false))));

    let with_memory = chat_input_with_reflection_memory_and_long_term_context(
        &[],
        &[],
        &profile,
        &[],
        &[],
        "  Long-term memory:\n- likes tea  ",
    );
    assert!(with_memory.contains("\n\nLong-term memory:\n- likes tea\n\nReflection memory"));
    let blank_memory = chat_input_with_reflection_memory_and_long_term_context(
        &[],
        &[],
        &profile,
        &[],
        &[],
        "   ",
    );
    assert_eq!(blank_memory, chat_input(&[], &[], &profile, &[]));
}

#[test]
fn preview_input_names_language_tag_context_and_evidence() {
    let challenge = ShadowChallenge {
        title: None,
        prompt_text: "Submit on time or fix the mistake?".to_string(),
        tag_label: Some("#startup".to_string()),
        system_context: None,
        preferred_probe_kind: Some(SetupProbeKind::DeadlineQualityTradeoff),
    };
    let profile = sample_profile(false);
    let input = preview_input_with_reflection_memory(
        &challenge,
        &profile,
        &strings(&["e1"]),
        "ja",
        &strings(&["keep the tradeoff explicit."]),
    );
    let expected = format!(
        "Requested answer language: Japanese\nPrompt tag label: #startup\nPrompt context: how this person handles deadline versus quality tradeoffs\nPrompt: Submit on time or fix the mistake?\n\nRelevant onboarding answers for this prompt:\n- e1\n\nReflection memory for question answer (influence 5/10):\n- keep the tradeoff explicit.\n\nOnboarding profile:\n{}\n\nPersona:\n{}\n\nReasoning policy:\n{}\n",
        profile_json(),
        persona_json(false),
        reasoning_json()
    );
    assert_eq!(input, expected);

    let plain = ShadowChallenge {
        title: None,
        prompt_text: "P".to_string(),
        tag_label: None,
        system_context: None,
        preferred_probe_kind: None,
    };
    let input = preview_input(&plain, &profile, &[], "de");
    assert!(input.starts_with(
        "Requested answer language: English\nPrompt tag label: none supplied\nPrompt context: none supplied\nPrompt: P\n\nRelevant onboarding answers for this prompt:\n- none selected\n\nReflection memory for question answer (influence 5/10):\n- none captured yet\n\n"
    ));
}

#[test]
fn instruction_templates_render_their_arguments() {
    assert_eq!(
        build_translation_preview_instructions("en", "ja"),
        "Translate the Shadow's answer from en to ja.\nKeep the title and body structure, the stance, and the tone. Do not add, remove, or soften any claim.\nReturn only the translated title and body."
    );
    assert!(build_translation_chat_instructions("reply", "fr", "en")
        .starts_with("Translate the following reply from fr to en."));
    assert!(build_reflection_reply_instructions("BASE").starts_with("BASE\n\nYou are now replying"));
    assert_eq!(
        build_onboarding_sdq_turn_note(true, 3, "money"),
        "This is the first turn of setup question 3 about money. Ask it plainly and briefly, in your own words."
    );
    assert!(build_onboarding_sdq_turn_note(false, 12, "time")
        .starts_with("This is a follow-up turn of setup question 12 about time."));
    assert_eq!(
        build_onboarding_sdq_phase_instructions("drop", 0, "t", "note"),
        "Setup step: drop\nQuestion number: 0\nTopic: t\n\nnote"
    );
    assert_eq!(
        build_onboarding_phase_instructions("C", "French", "R"),
        "C\n\nRequested output language: French\n\nPhase rules:\nR"
    );
    assert_eq!(
        build_explicit_correction_input("I am not a morning person"),
        "The user explicitly corrected their Shadow:\nI am not a morning person"
    );
    let input = build_onboarding_prompt_input(
        "greeting", "English", "not_started", "fast", "summary", "cand", "conf", 250, "slow",
        "signal", "conv",
    );
    assert!(input.contains("Headline confirmation count: 250\n"));
    assert!(input.ends_with("Conversation:\nconv"));
}

#[test]
fn static_instructions_drop_trailing_white_space() {
    assert_eq!(
        explicit_correction_instructions(),
        "Apply the user's explicit correction to the Shadow profile. Change only what the correction addresses, keep everything else as it is, and do not invent new facts."
    );
    assert!(!onboarding_phase_completed_instructions().ends_with('\n'));
    assert!(build_chat_context_planner_instructions().starts_with("Decide which remembered context"));
}

#[test]
fn profile_json_escapes_strings_character_by_character() {
    let mut profile = sample_profile(false);
    profile.headline = "say \"hi\"\\ now\n\ttab\r\u{8}\u{c}\u{1}\u{1f}é\u{7f}/".to_string();
    let input = chat_input(&[], &[], &profile, &[]);
    let expected = r#""headline":"say \"hi\"\\ now\n\ttab\r\b\f\u0001\u001fé"#;
    assert!(input.contains(expected), "{input}");
    assert!(input.contains("é\u{7f}/\",\"source_answers\""), "{input}");
}
