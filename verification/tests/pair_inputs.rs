use shadow_core::{
    build_pair_compose_message_input, build_pair_topic_message_input,
    pair_topic_initial_message_transition_note, PairComposePromptContext, PairShadowIdentity,
    PairTopicPromptContext, PairTopicTone, PromptReadyPersona, PromptReadyProfile,
    PromptReadyReasoningPolicy, SpeechStyle,
};

fn strings(items: &[&str]) -> Vec<String> {
    items.iter().map(|s| s.to_string()).collect()
}

fn kage() -> PairShadowIdentity {
    PairShadowIdentity {
        name: "Kage".to_string(),
        personal_instruction: Some("  Open with my own point of view.  ".to_string()),
        profile: Some(PromptReadyProfile {
            headline: "clear".to_string(),
            stance: "measured".to_string(),
            source_answers: strings(&["One"]),
        }),
        persona: Some(PromptReadyPersona {
            tone: "warm".to_string(),
            traits: strings(&["curious"]),
            speech_style: Some(SpeechStyle {
                dialect: None,
                formality: "neutral".to_string(),
                markers: strings(&["hmm"]),
                sentence_pattern: "short".to_string(),
            }),
        }),
        reasoning_policy: Some(PromptReadyReasoningPolicy {
            decision_style: "evidence_first".to_string(),
            anchor: "signal".to_string(),
        }),
    }
}

fn mina() -> PairShadowIdentity {
    PairShadowIdentity {
        name: "Mi\"na".to_string(),
        personal_instruction: None,
        profile: None,
        persona: None,
        reasoning_policy: None,
    }
}

const KAGE_PROFILE_WITHOUT_INSTRUCTION: &str = "{\n  \"name\": \"Kage\",\n  \"profile\": {\n    \"headline\": \"clear\",\n    \"stance\": \"measured\",\n    \"source_answers\": [\n      \"One\"\n    ]\n  },\n  \"persona\": {\n    \"tone\": \"warm\",\n    \"traits\": [\n      \"curious\"\n    ],\n    \"speech_style\": {\n      \"dialect\": null,\n      \"formality\": \"neutral\",\n      \"markers\": [\n        \"hmm\"\n      ],\n      \"sentence_pattern\": \"short\"\n    }\n  },\n  \"reasoning_policy\": {\n    \"decision_style\": \"evidence_first\",\n    \"anchor\": \"signal\"\n  }\n}";

fn topic_context<'a>(
    speaker: &'a PairShadowIdentity,
    listener: &'a PairShadowIdentity,
    title: &'a str,
    previous: &'a [String],
    results: &'a [String],
    note: Option<&'a str>,
    evidence: &'a [String],
) -> PairTopicPromptContext<'a> {
    PairTopicPromptContext {
        speaker,
        listener,
        speaker_voice_evidence: evidence,
        listener_voice_evidence: &[],
        requested_output_language: "English",
        topic_title: title,
        topic_prompt: "Invite them to the picnic.",
        tag_label: None,
        tone: PairTopicTone::Funny,
        directive: PairTopicTone::Funny.directive_for_turn(0, 7),
        previous_messages: previous,
        recent_topic_results: results,
        transition_note: note,
        relevant_onboarding_answers: &[],
        onboarding_continuity: &[],
        long_term_memory_block: "",
        reflection_summaries: &[],
    }
}

#[test]
fn pretty_json_text_matches_serde_for_a_single_field_object() {
    let mut m = serde_json::Map::new();
    m.insert("name".to_string(), serde_json::Value::String("Mi\"na".to_string()));
    let expected = serde_json::to_string_pretty(&serde_json::Value::Object(m)).unwrap();
    let (speaker, listener) = (kage(), mina());
    let input = build_pair_compose_message_input(PairComposePromptContext {
        actor: &speaker,
        listener: &listener,
        actor_voice_evidence: &[],
        relevant_onboarding_answers: &[],
        onboarding_continuity: &[],
        long_term_memory_block: "",
        reflection_summaries: &[],
        recent_messages: &[],
        user_intent: "hi",
        requested_output_language: "English",
    });
    assert!(input.contains(&format!("Listener Shadow profile:\n{expected}\n\n")));
}

#[test]
fn topic_message_input_states_roles_turn_and_speaker_profile() {
    let (speaker, listener) = (kage(), mina());
    let input = build_pair_topic_message_input(topic_context(
        &speaker,
        &listener,
        "Picnic plan",
        &[],
        &[],
        Some("  "),
        &strings(&["yo", "lol"]),
    ));
    assert!(input.starts_with("Relevant onboarding answers:\n- none selected\n\nOnboarding continuity:\n- none captured yet\n\nLong-term memory selected for this turn:\n- none selected\n\nReflection memory for pair chat (influence 3/10):\n- none captured yet\n\n"));
    assert!(input.contains("You are speaking as Kage to Mi\"na.\nRequested output language: English\nPair / Topic Talk tone: Funny\nTurn phase: opening spark\nSuggested wording angle: Micro scene - make a small concrete scene the other Shadow can grab\nTopic tag: none supplied\nUser instruction title:\nPicnic plan\n\nUser instruction:\nInvite them to the picnic.\n\n"));
    assert!(input.contains(&format!(
        "Speaker Shadow profile:\n{KAGE_PROFILE_WITHOUT_INSTRUCTION}\n\nSpeaker personal instruction:\nOpen with my own point of view.\n\nSpeaker voice evidence:\n- yo\n- lol\n\n"
    )));
    assert!(input.contains("can land naturally for Mi\"na."));
    assert!(input.contains("Recent Pair / Topic Talk results for light background:\nNo recent Pair / Topic Talk results.\n\nTopic Talk callback boundary:"));
    assert!(input.contains("Current instruction: Picnic plan — stay grounded in this user instruction. Write the next sendable message."));
    assert!(!input.contains("Transition note:"));
}

#[test]
fn normal_pair_chat_input_uses_its_own_boundaries() {
    let (speaker, listener) = (kage(), mina());
    let previous = strings(&["Kage: hey", "Mina: hi"]);
    let results = strings(&["Result: tea wins"]);
    let note = pair_topic_initial_message_transition_note();
    let input = build_pair_topic_message_input(topic_context(
        &speaker,
        &listener,
        "Normal pair chat",
        &previous,
        &results,
        Some(note),
        &[],
    ));
    assert!(input.contains("Previous Pair / Topic Talk messages:\nKage: hey\nMina: hi\n\n"));
    assert!(input.contains("Use these completed Topic Talk results only as light background for normal pair chat. A transition note may ask for a brief bridge, but do not keep discussing the completed topic.\nResult: tea wins\n"));
    assert!(input.contains(&format!("\nTransition note:\n{note}\n\nNormal pair chat recall boundary:")));
    assert!(!input.contains("Current instruction:"));
    assert!(input.contains("Speaker voice evidence:\n- none supplied\n\n"));
}

#[test]
fn topic_message_input_marks_missing_personal_instruction() {
    let (speaker, listener) = (mina(), kage());
    let input = build_pair_topic_message_input(topic_context(
        &speaker, &listener, "T", &[], &[], None, &[],
    ));
    assert!(input.contains("Speaker personal instruction:\n- none supplied\n\n"));
    assert!(input.contains("Speaker Shadow profile:\n{\n  \"name\": \"Mi\\\"na\"\n}\n\n"));
}

#[test]
fn compose_input_keeps_personal_instruction_in_actor_profile() {
    let (actor, listener) = (kage(), mina());
    let input = build_pair_compose_message_input(PairComposePromptContext {
        actor: &actor,
        listener: &listener,
        actor_voice_evidence: &strings(&["yo", "lol"]),
        relevant_onboarding_answers: &strings(&["a"]),
        onboarding_continuity: &[],
        long_term_memory_block: "",
        reflection_summaries: &[],
        recent_messages: &[],
        user_intent: "Ask about Sunday",
        requested_output_language: "Japanese",
    });
    assert!(input.starts_with("Actor Shadow profile:\n{\n  \"name\": \"Kage\",\n  \"personal_instruction\": \"  Open with my own point of view.  \",\n  \"profile\": {"));
    assert!(input.contains("Actor voice evidence:\n- yo\n- lol\n\nRelevant onboarding answers:\n- a\n\n"));
    assert!(input.contains("Recent conversation:\nNo previous messages in this conversation.\n\nRequested output language: Japanese\n\nThe user (Kage) wants to say:\nAsk about Sunday\n\nWrite a single message from Kage to Mi\"na that expresses"));
    assert!(input.ends_with("Output only the message text in the requested output language."));
}

#[test]
fn compose_input_without_voice_evidence_says_so() {
    let (actor, listener) = (mina(), kage());
    let input = build_pair_compose_message_input(PairComposePromptContext {
        actor: &actor,
        listener: &listener,
        actor_voice_evidence: &[],
        relevant_onboarding_answers: &[],
        onboarding_continuity: &[],
        long_term_memory_block: "",
        reflection_summaries: &[],
        recent_messages: &strings(&["a", "b"]),
        user_intent: "x",
        requested_output_language: "English",
    });
    assert!(input.contains("Actor voice evidence:\n- No voice evidence available.\n\n"));
    assert!(input.contains("Recent conversation:\na\nb\n\n"));
}
