use shadow_core::{
    pair_normal_pair_chat_handoff_transition_note, pair_topic_initial_message_transition_note,
    PairTopicTone, PairTurnMove,
};

#[test]
fn pair_topic_transition_note_helpers_are_shared_contracts() {
    assert_eq!(
        pair_topic_initial_message_transition_note(),
        "Use a plain natural opening only if it helps the message feel conversational. Treat the user instruction as the speaker's own reason for writing now, not as an assignment from someone else. Create a sendable message with a concrete angle, opinion, emotional reaction, or small social detail from the instruction. Do not explain why the instruction started. Shape the wording so it can land naturally for the recipient."
    );
    assert_eq!(
        pair_normal_pair_chat_handoff_transition_note(),
        "For this next message only, use the completed Topic Talk result as light background for the original owner. Briefly acknowledge it only if it helps the sendable message feel natural, then return to what the original owner can say to the recipient now. Do not keep discussing the completed topic."
    );
}

#[test]
fn relationship_directive_prioritizes_awkwardness_over_weird_hypothesis() {
    let relationship_moves: Vec<_> = (0..7)
        .map(|turn| {
            PairTopicTone::Relationship
                .directive_for_turn(turn, 7)
                .move_kind
        })
        .collect();

    assert!(relationship_moves.contains(&PairTurnMove::SidewaysQuestion));
    assert!(relationship_moves.contains(&PairTurnMove::EmotionalSnap));
    assert!(!relationship_moves.contains(&PairTurnMove::WeirdHypothesis));
}

#[test]
fn final_topic_turn_uses_concrete_image_landing_not_summary_or_question() {
    let directive = PairTopicTone::CasualValues.directive_for_turn(6, 7);
    let instruction = directive.move_kind.instruction();

    assert_eq!(directive.total_turns, 7);
    assert_eq!(directive.phase_label(), "final landing");
    assert_eq!(directive.move_kind, PairTurnMove::SharedLanding);
    assert!(instruction.contains("react to the previous line"));
    assert!(instruction.contains("one concrete final image"));
    assert!(!instruction.contains("question"));
    assert!(!instruction.contains("unfinished"));
    assert!(!instruction.contains("summarize"));
    assert!(!instruction.contains("shared thread"));
}

#[test]
fn pair_turn_directive_reaches_high_heat_exchange_moves() {
    let moves: Vec<_> = [
        PairTopicTone::Funny,
        PairTopicTone::CasualValues,
        PairTopicTone::Relationship,
        PairTopicTone::WorkDev,
        PairTopicTone::SeriousReflective,
    ]
    .into_iter()
    .flat_map(|tone| (0..7).map(move |turn| tone.directive_for_turn(turn, 7).move_kind))
    .collect();

    for expected in [
        PairTurnMove::PlayfulCallout,
        PairTurnMove::EmotionalSnap,
        PairTurnMove::LightPressureTest,
        PairTurnMove::AbsurdEscalation,
    ] {
        assert!(
            moves.contains(&expected),
            "expected {expected:?} to be reachable in normal seven-turn Topic Talk"
        );
    }
}

#[test]
fn pair_turn_directive_uses_topic_tone_and_non_scripted_move() {
    let directive = PairTopicTone::Funny.directive_for_turn(2, 6);
    assert_eq!(directive.tone, PairTopicTone::Funny);
    assert_eq!(directive.total_turns, 6);
    assert!(matches!(
        directive.move_kind,
        PairTurnMove::Riff
            | PairTurnMove::AbsurdEscalation
            | PairTurnMove::Callback
            | PairTurnMove::MicroScene
            | PairTurnMove::PlayfulCallout
    ));
}

#[test]
fn pair_turn_directive_can_use_chaos_option() {
    let directive = PairTopicTone::Funny.directive_for_turn(3, 6);

    assert_eq!(directive.move_kind, PairTurnMove::ChaosOption);
}
