use shadow_core::{
    drop_definitions, render_drop_definitions_for_locale, DropDefinition, PairTopicTone,
    PairTurnMove, PromptTimeContext, ShadowAnswerContent, ShadowCoreError,
    ShadowGenerationFailure, UtcTimestamp,
};

fn at(seconds: i64) -> UtcTimestamp {
    UtcTimestamp::from_unix(seconds, 0).expect("valid instant")
}

#[test]
fn utc_context_formats_the_instant() {
    let context = PromptTimeContext::from_utc_datetime(at(0));
    assert_eq!(context.current_time(), "UTC: 1970-01-01 00:00:00 UTC; user timezone: UTC");
}

#[test]
fn zone_context_falls_back_to_utc_for_unknown_or_utc_zone() {
    let utc = PromptTimeContext::from_utc_datetime(at(0));
    for zone in ["Nowhere/Else", "UTC", "  UTC ", ""] {
        let context = PromptTimeContext::from_utc_datetime_and_timezone(at(0), zone);
        assert_eq!(context.current_time(), utc.current_time());
    }
}

#[test]
fn zone_context_uses_trimmed_zone_name() {
    let context = PromptTimeContext::from_utc_datetime_and_timezone(at(0), " Asia/Tokyo ");
    assert_eq!(
        context.current_time(),
        "UTC: 1970-01-01 00:00:00 UTC\nUser local time: 1970-01-01 09:00:00 JST\nUser timezone: Asia/Tokyo"
    );
}

#[test]
fn elapsed_time_note_counts_whole_hours_and_days() {
    let now = at(1_000_000);
    let note = |last: i64| {
        PromptTimeContext::from_utc_datetime(now)
            .with_last_interaction_at(Some(at(last)))
            .current_time()
            .to_string()
    };
    assert!(note(1_000_000 + 3600).ends_with("\nTime since last interaction: less than an hour"));
    assert!(note(1_000_000 - 3599).ends_with("\nTime since last interaction: less than an hour"));
    assert!(note(1_000_000 - 3600).ends_with("\nTime since last interaction: 1 hour"));
    assert!(note(1_000_000 - 2 * 3600).ends_with("\nTime since last interaction: 2 hours"));
    assert!(note(1_000_000 - 47 * 3600).ends_with("\nTime since last interaction: 1 day"));
    assert!(note(1_000_000 - 10 * 86400).ends_with("\nTime since last interaction: 10 days"));
}

#[test]
fn elapsed_time_needs_both_instants() {
    let plain = PromptTimeContext::new("custom").with_last_interaction_at(Some(at(0)));
    assert_eq!(plain.current_time(), "custom");
    let without_last = PromptTimeContext::from_utc_datetime(at(0)).with_last_interaction_at(None);
    assert_eq!(without_last.current_time(), "UTC: 1970-01-01 00:00:00 UTC; user timezone: UTC");
}

#[test]
fn timestamps_outside_chrono_range_are_refused() {
    assert!(UtcTimestamp::from_unix(0, 2_000_000_000).is_none());
    assert!(UtcTimestamp::from_unix(i64::MAX, 0).is_none());
    let t = UtcTimestamp::from_unix(1_700_000_000, 5).unwrap();
    assert_eq!((t.seconds(), t.subsec_nanos()), (1_700_000_000, 5));
}

#[test]
fn timestamp_range_matches_chrono_dates() {
    assert!(UtcTimestamp::from_unix(8_210_266_876_799, 0).is_some());
    assert!(UtcTimestamp::from_unix(8_210_266_876_800, 0).is_none());
    assert!(UtcTimestamp::from_unix(-8_334_601_228_800, 0).is_some());
    assert!(UtcTimestamp::from_unix(-8_334_601_228_801, 0).is_none());
    assert!(UtcTimestamp::from_unix(0, 999_999_999).is_some());
    assert!(UtcTimestamp::from_unix(0, 1_000_000_000).is_none());
    assert!(UtcTimestamp::from_unix(59, 1_500_000_000).is_some());
    assert!(UtcTimestamp::from_unix(-1, 1_999_999_999).is_some());
    assert!(UtcTimestamp::from_unix(58, 1_500_000_000).is_none());
}

#[test]
fn elapsed_seconds_drop_the_fraction_toward_zero() {
    let now = UtcTimestamp::from_unix(10 * 3600, 0).unwrap();
    let just_under_two_hours = UtcTimestamp::from_unix(2 * 3600 + 3600 * 6, 1).unwrap();
    let note = PromptTimeContext::from_utc_datetime(now)
        .with_last_interaction_at(Some(just_under_two_hours));
    assert!(note.current_time().ends_with("\nTime since last interaction: 1 hour"));
    let two_hours = UtcTimestamp::from_unix(8 * 3600, 0).unwrap();
    let note = PromptTimeContext::from_utc_datetime(now)
        .with_last_interaction_at(Some(two_hours));
    assert!(note.current_time().ends_with("\nTime since last interaction: 2 hours"));
}

#[test]
fn current_instant_renders_a_utc_context() {
    let context = PromptTimeContext::now_utc();
    assert!(context.current_time().starts_with("UTC: "));
    assert!(context.current_time().ends_with(" UTC; user timezone: UTC"));
}

#[test]
fn drop_definitions_render_status_and_locale_question() {
    let rendered = render_drop_definitions_for_locale("ja", &["truth_or_peace".to_string()]);
    let lines: Vec<&str> = rendered.lines().collect();
    assert_eq!(lines.len(), 5);
    assert_eq!(
        lines[1],
        "- id: truth_or_peace | axis: honesty_vs_harmony | status: used | question: 本当のことを言うと場の空気は悪くなるけど、隠すのも不誠実だと感じるとき、どこで線を引く？"
    );
    assert!(lines[0].starts_with("- id: family_trip_or_friends | axis: loyalty_vs_obligation | status: available | question: 家族旅行"));
    let english = render_drop_definitions_for_locale("de", &[]);
    assert!(english.contains("status: available | question: When speed keeps everyone moving"));
    assert!(!english.contains("status: used"));
}

#[test]
fn drop_definition_prompt_follows_locale() {
    let definition: DropDefinition = drop_definitions()[2];
    assert_eq!(definition.id, "speed_or_craft");
    assert_eq!(definition.prompt_for_locale("fr"), definition.prompt_fr);
    assert_eq!(definition.prompt_for_locale("ja"), definition.prompt_ja);
    assert_eq!(definition.prompt_for_locale("en-US"), definition.prompt_en);
}

#[test]
fn error_messages_name_each_kind() {
    assert_eq!(
        ShadowCoreError::RenderingError("bad json".to_string()).message(),
        "Rendering error: bad json"
    );
    assert_eq!(
        ShadowCoreError::TemplateMissingPlaceholder("user_name".to_string()).message(),
        "Missing required template placeholder: user_name"
    );
    assert_eq!(
        ShadowCoreError::ValidationError("empty".to_string()).message(),
        "Validation error: empty"
    );
}

#[test]
fn generation_failure_text_joins_code_and_message() {
    let failure = ShadowGenerationFailure {
        code: "rate_limited".to_string(),
        message: "try later".to_string(),
    };
    assert_eq!(failure.display_text(), "rate_limited: try later");
}

#[test]
fn final_answer_text_trims_and_drops_blank_body() {
    let blank = ShadowAnswerContent { title: "  T  ".to_string(), body: " \n ".to_string() };
    assert_eq!(blank.final_answer_text(), "T");
    let both = ShadowAnswerContent { title: "  T  ".to_string(), body: " B\n".to_string() };
    assert_eq!(both.final_answer_text(), "T\n\nB");
}

#[test]
fn directive_phases_follow_turn_position() {
    assert_eq!(PairTopicTone::Funny.directive_for_turn(0, 7).phase_label(), "opening spark");
    assert_eq!(PairTopicTone::Funny.directive_for_turn(3, 7).phase_label(), "continuation");
    assert_eq!(PairTopicTone::Funny.directive_for_turn(5, 7).phase_label(), "landing approach");
    assert_eq!(PairTopicTone::Funny.directive_for_turn(6, 7).phase_label(), "final landing");
}

#[test]
fn final_turn_lands_even_at_edges() {
    assert_eq!(PairTopicTone::WorkDev.directive_for_turn(0, 0).move_kind, PairTurnMove::SharedLanding);
    assert_eq!(PairTopicTone::WorkDev.directive_for_turn(0, 1).move_kind, PairTurnMove::SharedLanding);
    assert_eq!(
        PairTopicTone::WorkDev.directive_for_turn(usize::MAX - 1, usize::MAX).move_kind,
        PairTurnMove::SharedLanding
    );
    assert_eq!(PairTopicTone::WorkDev.directive_for_turn(4, 100).move_kind, PairTurnMove::WeirdHypothesis);
    assert_eq!(PairTopicTone::WorkDev.directive_for_turn(4, 6).move_kind, PairTurnMove::WeirdHypothesis);
    assert_eq!(PairTopicTone::CasualValues.label(), "Casual values");
    assert_eq!(PairTurnMove::HotTake.label(), "Hot take");
}

#[test]
fn clock_instant_is_after_epoch_and_outside_leap_seconds() {
    let now = UtcTimestamp::now();
    assert!(now.seconds() >= 0);
    assert!(now.subsec_nanos() < 1_000_000_000);
}
