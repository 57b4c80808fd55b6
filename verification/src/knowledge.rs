use vstd::prelude::*;

use crate::assets::{
    CHAT_CONTEXT_PLANNER_INSTRUCTIONS, EXPLICIT_CORRECTION_INPUT, EXPLICIT_CORRECTION_INSTRUCTIONS,
    ONBOARDING_PHASE_COMPLETED_INSTRUCTIONS, ONBOARDING_PHASE_GREETING_INSTRUCTIONS,
    ONBOARDING_PHASE_HEADLINE_CONFIRMATION_INSTRUCTIONS, ONBOARDING_PHASE_INSTRUCTIONS,
    ONBOARDING_PHASE_NOT_STARTED_INSTRUCTIONS, ONBOARDING_PROMPT_INPUT,
    ONBOARDING_SDQ_FOLLOWUP_TURN_NOTE, ONBOARDING_SDQ_INITIAL_TURN_NOTE,
    ONBOARDING_SDQ_PHASE_INSTRUCTIONS, REFLECTION_REPLY_INPUT, REFLECTION_REPLY_INSTRUCTIONS,
    SUMMARY_REFRESH_INSTRUCTIONS, TRANSLATION_CHAT_INSTRUCTIONS, TRANSLATION_PREVIEW_INSTRUCTIONS,
};
use crate::builders::{output_language_name, requested_output_language};
use crate::json::{
    identity_pretty, onboarding_profile_json, pair_identity_block, persona_compact, persona_json,
    profile_compact, reasoning_compact, reasoning_policy_json,
};
use crate::pair_topic::{
    move_instruction, move_label, phase_of, tone_label, PairTopicTone, PairTurnDirective,
};
use crate::prompt_inputs::{
    PairShadowIdentity, PromptReadyPersona, PromptReadyProfile, PromptReadyReasoningPolicy, SpeechStyle,
};
use crate::template::{
    law_render_replaces_first_placeholder, lemma_lookup_found, lemma_render_placeholder_run,
    placeholder_run, render_chars, rendered_run, replacement, vars_view, PromptTemplate,
};
use crate::text::{
    lemma_occurs_after, lemma_occurs_at_start, occurs_in,
    decimal, decimal_string, is_blank, is_blank_str, join, join_strings, push_decimal, trim,
    trim_end, trim_end_str, trimmed, views_of,
};
use crate::types::{SetupProbeKind, ShadowChallenge, ShadowProfile};

verus! {

/// How strongly reflection memory weighs on question answers, out of 10.
pub const QUESTION_ANSWER_REFLECTION_WEIGHT: u8 = 5;
/// How strongly reflection memory weighs on normal and pair chat, out of 10.
pub const NORMAL_CHAT_REFLECTION_WEIGHT: u8 = 3;

// ── Static instruction texts ────────────────────────────────────────────────

/// Instructions for applying an explicit profile correction.
pub fn explicit_correction_instructions() -> (t: &'static str)
    ensures
        t@ == trim_end(EXPLICIT_CORRECTION_INSTRUCTIONS@),
{
    trim_end_str(EXPLICIT_CORRECTION_INSTRUCTIONS)
}

/// Instructions before onboarding has started.
pub fn onboarding_phase_not_started_instructions() -> (t: &'static str)
    ensures
        t@ == trim_end(ONBOARDING_PHASE_NOT_STARTED_INSTRUCTIONS@),
{
    trim_end_str(ONBOARDING_PHASE_NOT_STARTED_INSTRUCTIONS)
}

/// Instructions for the onboarding greeting.
pub fn onboarding_phase_greeting_instructions() -> (t: &'static str)
    ensures
        t@ == trim_end(ONBOARDING_PHASE_GREETING_INSTRUCTIONS@),
{
    trim_end_str(ONBOARDING_PHASE_GREETING_INSTRUCTIONS)
}

/// Instructions for confirming the onboarding headline.
pub fn onboarding_phase_headline_confirmation_instructions() -> (t: &'static str)
    ensures
        t@ == trim_end(ONBOARDING_PHASE_HEADLINE_CONFIRMATION_INSTRUCTIONS@),
{
    trim_end_str(ONBOARDING_PHASE_HEADLINE_CONFIRMATION_INSTRUCTIONS)
}

/// Instructions after onboarding is complete.
pub fn onboarding_phase_completed_instructions() -> (t: &'static str)
    ensures
        t@ == trim_end(ONBOARDING_PHASE_COMPLETED_INSTRUCTIONS@),
{
    trim_end_str(ONBOARDING_PHASE_COMPLETED_INSTRUCTIONS)
}

/// Instructions for the chat context planner.
pub fn build_chat_context_planner_instructions() -> (t: &'static str)
    ensures
        t@ == trim_end(CHAT_CONTEXT_PLANNER_INSTRUCTIONS@),
{
    trim_end_str(CHAT_CONTEXT_PLANNER_INSTRUCTIONS)
}

/// Instructions for refreshing a conversation summary.
pub fn build_summary_refresh_instructions() -> (t: &'static str)
    ensures
        t@ == trim_end(SUMMARY_REFRESH_INSTRUCTIONS@),
{
    trim_end_str(SUMMARY_REFRESH_INSTRUCTIONS)
}

// ── Pair topic tone classifier ──────────────────────────────────────────────

/// The Unicode lower-case mapping of a string: what `str::to_lowercase`
/// returns for it.
pub uninterp spec fn lowercase(s: Seq<char>) -> Seq<char>;

/// `str::to_lowercase`: the lower-case equivalent of `s` (Unicode `Lowercase`
/// mapping). Its result is taken to depend on `s` alone; which characters
/// it maps is not stated here.
#[verifier::external_body]
fn to_lowercase(s: &str) -> (r: String)
    ensures
        r@ == lowercase(s@),
{
    s.to_lowercase()
}

/// Tag labels that mark a funny topic.
pub const FUNNY_LABELS: [&'static str; 7] = [
    "funny",
    "humor",
    "humour",
    "ユーモア",
    "お笑い",
    "drôle",
    "drole",
];

/// Tag labels that mark a relationship topic.
pub const RELATIONSHIP_LABELS: [&'static str; 17] = [
    "love affairs",
    "love",
    "amour",
    "drama",
    "drame",
    "修羅場",
    "relationship",
    "relationships",
    "romance",
    "恋",
    "恋愛",
    "恋愛・人間関係",
    "human relationships",
    "human relationship",
    "relations humaines",
    "人間関係",
    "amour et relations",
];

/// Tag labels that mark a work or development topic.
pub const WORK_DEV_LABELS: [&'static str; 15] = [
    "dev fight",
    "work",
    "startup",
    "money",
    "career",
    "money & work",
    "work & money",
    "argent et travail",
    "travail et argent",
    "company",
    "仕事",
    "起業",
    "お金",
    "お金と仕事",
    "仕事",
];

/// Tag labels that mark a serious or reflective topic.
pub const SERIOUS_REFLECTIVE_LABELS: [&'static str; 16] = [
    "serious",
    "serious reflective",
    "debate",
    "débat",
    "debat",
    "賛否",
    "討論",
    "politics",
    "society",
    "society & politics",
    "politique",
    "société et politique",
    "政治",
    "社会",
    "ethics",
    "倫理",
];

/// Tag labels that mark a casual ideas topic.
pub const CASUAL_IDEA_LABELS: [&'static str; 5] = ["idea", "ideas", "idées", "アイデア", "daily life"];

/// The character sequences of a list of string slices.
pub open spec fn strs_view(items: Seq<&str>) -> Seq<Seq<char>> {
    items.map_values(|s: &str| s@)
}

/// A tag label as compared: trimmed, then lower-cased.
pub open spec fn normalized_label(label: Seq<char>) -> Seq<char> {
    lowercase(trim(label))
}

/// Whether some label matches some expected label once both are normalized.
pub open spec fn some_label_matches(labels: Seq<Seq<char>>, expected: Seq<Seq<char>>) -> bool {
    exists|i: int, j: int|
        0 <= i < labels.len() && 0 <= j < expected.len() && #[trigger] normalized_label(labels[i])
            == #[trigger] normalized_label(expected[j])
}

/// An optional label, absent labels read as the empty string.
pub open spec fn label_or_empty(label: Option<&str>) -> Seq<char> {
    match label {
        Some(s) => s@,
        None => Seq::empty(),
    }
}

/// The tone for a pair of labels: the first of funny, relationship,
/// work/dev and serious reflective whose label list one of them matches,
/// casual values otherwise.
pub open spec fn tone_for_labels(labels: Seq<Seq<char>>) -> PairTopicTone {
    if some_label_matches(labels, strs_view(FUNNY_LABELS@)) {
        PairTopicTone::Funny
    } else if some_label_matches(labels, strs_view(RELATIONSHIP_LABELS@)) {
        PairTopicTone::Relationship
    } else if some_label_matches(labels, strs_view(WORK_DEV_LABELS@)) {
        PairTopicTone::WorkDev
    } else if some_label_matches(labels, strs_view(SERIOUS_REFLECTIVE_LABELS@)) {
        PairTopicTone::SeriousReflective
    } else {
        PairTopicTone::CasualValues
    }
}

/// The tone of a topic from its tag label and localized tag label.
pub open spec fn classified_tone(tag_label: Option<&str>, localized_tag_label: Option<&str>) -> PairTopicTone {
    tone_for_labels(seq![label_or_empty(tag_label), label_or_empty(localized_tag_label)])
}

/// A label is compared by its trimmed, lower-cased form.
fn normalize_topic_label(label: &str) -> (n: String)
    ensures
        n@ == normalized_label(label@),
{
    let t = trimmed(label);
    to_lowercase(t.as_str())
}

/// Whether some label matches some expected label once both are normalized.
fn labels_match(labels: &[&str], expected: &[&str]) -> (m: bool)
    ensures
        m == some_label_matches(strs_view(labels@), strs_view(expected@)),
{
    let ghost ls = strs_view(labels@);
    let ghost es = strs_view(expected@);
    let mut i: usize = 0;
    while i < labels.len()
        invariant
            0 <= i <= labels@.len(),
            ls == strs_view(labels@),
            es == strs_view(expected@),
            forall|a: int, b: int|
                0 <= a < i && 0 <= b < es.len() ==> #[trigger] normalized_label(ls[a])
                    != #[trigger] normalized_label(es[b]),
        decreases labels@.len() - i,
    {
        let normalized = normalize_topic_label(labels[i]);
        let mut j: usize = 0;
        while j < expected.len()
            invariant
                0 <= i < labels@.len(),
                0 <= j <= expected@.len(),
                ls == strs_view(labels@),
                es == strs_view(expected@),
                normalized@ == normalized_label(ls[i as int]),
                forall|a: int, b: int|
                    0 <= a < i && 0 <= b < es.len() ==> #[trigger] normalized_label(ls[a])
                        != #[trigger] normalized_label(es[b]),
                forall|b: int| 0 <= b < j ==> normalized_label(ls[i as int]) != #[trigger] normalized_label(es[b]),
            decreases expected@.len() - j,
        {
            let candidate = normalize_topic_label(expected[j]);
            if normalized == candidate {
                assert(normalized_label(ls[i as int]) == normalized_label(es[j as int]));
                return true;
            }
            j += 1;
        }
        i += 1;
    }
    false
}

/// The tone of a Pair / Topic Talk from its tag labels; the prompt text does
/// not take part in the decision.
pub fn classify_pair_topic_tone(
    tag_label: Option<&str>,
    localized_tag_label: Option<&str>,
    _prompt_text: &str,
) -> (tone: PairTopicTone)
    ensures
        tone == classified_tone(tag_label, localized_tag_label),
{
    proof {
        reveal_strlit("");
        assert(""@ =~= Seq::<char>::empty());
    }
    let first = match tag_label {
        Some(s) => s,
        None => "",
    };
    let second = match localized_tag_label {
        Some(s) => s,
        None => "",
    };
    assert(first@ == label_or_empty(tag_label));
    assert(second@ == label_or_empty(localized_tag_label));
    let labels = [first, second];
    proof {
        assert(labels@[0] == first);
        assert(labels@[1] == second);
        assert(strs_view(labels@) =~= seq![
            label_or_empty(tag_label),
            label_or_empty(localized_tag_label),
        ]);
    }
    if labels_match(&labels, &FUNNY_LABELS) {
        return PairTopicTone::Funny;
    }
    if labels_match(&labels, &RELATIONSHIP_LABELS) {
        return PairTopicTone::Relationship;
    }
    if labels_match(&labels, &WORK_DEV_LABELS) {
        return PairTopicTone::WorkDev;
    }
    if labels_match(&labels, &SERIOUS_REFLECTIVE_LABELS) {
        return PairTopicTone::SeriousReflective;
    }
    if labels_match(&labels, &CASUAL_IDEA_LABELS) {
        return PairTopicTone::CasualValues;
    }
    PairTopicTone::CasualValues
}

/// The tag label and the localized tag label play the same part: swapping
/// them never changes the tone.
pub proof fn law_classification_ignores_label_order(a: Option<&str>, b: Option<&str>)
    ensures
        classified_tone(a, b) == classified_tone(b, a),
{
    let ab = seq![label_or_empty(a), label_or_empty(b)];
    let ba = seq![label_or_empty(b), label_or_empty(a)];
    assert forall|expected: Seq<Seq<char>>| some_label_matches(ab, expected) == some_label_matches(
        ba,
        expected,
    ) by {
        if some_label_matches(ab, expected) {
            let (i, j) = choose|i: int, j: int|
                0 <= i < ab.len() && 0 <= j < expected.len() && #[trigger] normalized_label(ab[i])
                    == #[trigger] normalized_label(expected[j]);
            assert(normalized_label(ba[1 - i]) == normalized_label(expected[j]));
        }
        if some_label_matches(ba, expected) {
            let (i, j) = choose|i: int, j: int|
                0 <= i < ba.len() && 0 <= j < expected.len() && #[trigger] normalized_label(ba[i])
                    == #[trigger] normalized_label(expected[j]);
            assert(normalized_label(ab[1 - i]) == normalized_label(expected[j]));
        }
    }
}

/// Labels are compared only by their normalized form: labels that trim and
/// lower-case alike give the same tone.
pub proof fn law_classification_depends_on_normalized_labels(
    a: Option<&str>,
    b: Option<&str>,
    a2: Option<&str>,
    b2: Option<&str>,
)
    requires
        normalized_label(label_or_empty(a)) == normalized_label(label_or_empty(a2)),
        normalized_label(label_or_empty(b)) == normalized_label(label_or_empty(b2)),
    ensures
        classified_tone(a, b) == classified_tone(a2, b2),
{
    let l1 = seq![label_or_empty(a), label_or_empty(b)];
    let l2 = seq![label_or_empty(a2), label_or_empty(b2)];
    assert forall|expected: Seq<Seq<char>>| some_label_matches(l1, expected) == some_label_matches(
        l2,
        expected,
    ) by {
        if some_label_matches(l1, expected) {
            let (i, j) = choose|i: int, j: int|
                0 <= i < l1.len() && 0 <= j < expected.len() && #[trigger] normalized_label(l1[i])
                    == #[trigger] normalized_label(expected[j]);
            assert(normalized_label(l2[i]) == normalized_label(expected[j]));
        }
        if some_label_matches(l2, expected) {
            let (i, j) = choose|i: int, j: int|
                0 <= i < l2.len() && 0 <= j < expected.len() && #[trigger] normalized_label(l2[i])
                    == #[trigger] normalized_label(expected[j]);
            assert(normalized_label(l1[i]) == normalized_label(expected[j]));
        }
    }
}


// ── Template-based instructions and inputs ──────────────────────────────────

/// An instruction asset, trailing white space removed, rendered with `vars`.
pub open spec fn rendered_asset(template: Seq<char>, vars: Seq<(Seq<char>, Seq<char>)>) -> Seq<
    char,
> {
    render_chars(trim_end(template), vars)
}

/// Renders an instruction asset without its trailing white space.
fn render_template(template: &'static str, vars: &[(&str, &str)]) -> (r: String)
    ensures
        r@ == rendered_asset(template@, vars_view(vars@)),
{
    PromptTemplate::new(trim_end_str(template)).render(vars)
}

/// Instructions for translating a question-answer preview.
pub fn build_translation_preview_instructions(source_locale: &str, target_locale: &str) -> (s:
    String)
    ensures
        s@ == rendered_asset(
            TRANSLATION_PREVIEW_INSTRUCTIONS@,
            seq![("source_locale"@, source_locale@), ("target_locale"@, target_locale@)],
        ),
{
    let vars = [("source_locale", source_locale), ("target_locale", target_locale)];
    assert(vars_view(vars@) =~= seq![
        ("source_locale"@, source_locale@),
        ("target_locale"@, target_locale@),
    ]);
    render_template(TRANSLATION_PREVIEW_INSTRUCTIONS, &vars)
}

/// Instructions for translating chat content of the given kind.
pub fn build_translation_chat_instructions(
    content_kind: &str,
    source_locale: &str,
    target_locale: &str,
) -> (s: String)
    ensures
        s@ == rendered_asset(
            TRANSLATION_CHAT_INSTRUCTIONS@,
            seq![
                ("content_kind"@, content_kind@),
                ("source_locale"@, source_locale@),
                ("target_locale"@, target_locale@),
            ],
        ),
{
    let vars = [
        ("content_kind", content_kind),
        ("source_locale", source_locale),
        ("target_locale", target_locale),
    ];
    assert(vars_view(vars@) =~= seq![
        ("content_kind"@, content_kind@),
        ("source_locale"@, source_locale@),
        ("target_locale"@, target_locale@),
    ]);
    render_template(TRANSLATION_CHAT_INSTRUCTIONS, &vars)
}

/// Reflection-session instructions built on top of `base_instructions`.
pub fn build_reflection_reply_instructions(base_instructions: &str) -> (s: String)
    ensures
        s@ == rendered_asset(
            REFLECTION_REPLY_INSTRUCTIONS@,
            seq![("base_instructions"@, base_instructions@)],
        ),
{
    let vars = [("base_instructions", base_instructions)];
    assert(vars_view(vars@) =~= seq![("base_instructions"@, base_instructions@)]);
    render_template(REFLECTION_REPLY_INSTRUCTIONS, &vars)
}

/// The input for a reflection reply.
pub fn build_reflection_reply_input(
    requested_answer_language: &str,
    reflection_session_status: &str,
    shadow_name: &str,
    scenario_prompt: &str,
    original_answer_title: &str,
    original_answer_body: &str,
    normal_chat_context: &str,
    reflection_conversation: &str,
) -> (s: String)
    ensures
        s@ == rendered_asset(
            REFLECTION_REPLY_INPUT@,
            seq![
                ("requested_answer_language"@, requested_answer_language@),
                ("reflection_session_status"@, reflection_session_status@),
                ("shadow_name"@, shadow_name@),
                ("scenario_prompt"@, scenario_prompt@),
                ("original_answer_title"@, original_answer_title@),
                ("original_answer_body"@, original_answer_body@),
                ("normal_chat_context"@, normal_chat_context@),
                ("reflection_conversation"@, reflection_conversation@),
            ],
        ),
{
    let vars = [
        ("requested_answer_language", requested_answer_language),
        ("reflection_session_status", reflection_session_status),
        ("shadow_name", shadow_name),
        ("scenario_prompt", scenario_prompt),
        ("original_answer_title", original_answer_title),
        ("original_answer_body", original_answer_body),
        ("normal_chat_context", normal_chat_context),
        ("reflection_conversation", reflection_conversation),
    ];
    assert(vars_view(vars@) =~= seq![
        ("requested_answer_language"@, requested_answer_language@),
        ("reflection_session_status"@, reflection_session_status@),
        ("shadow_name"@, shadow_name@),
        ("scenario_prompt"@, scenario_prompt@),
        ("original_answer_title"@, original_answer_title@),
        ("original_answer_body"@, original_answer_body@),
        ("normal_chat_context"@, normal_chat_context@),
        ("reflection_conversation"@, reflection_conversation@),
    ]);
    render_template(REFLECTION_REPLY_INPUT, &vars)
}

/// Instructions for one onboarding phase.
pub fn build_onboarding_phase_instructions(
    common: &str,
    requested_output_language: &str,
    phase_rules: &str,
) -> (s: String)
    ensures
        s@ == rendered_asset(
            ONBOARDING_PHASE_INSTRUCTIONS@,
            seq![
                ("common"@, common@),
                ("requested_output_language"@, requested_output_language@),
                ("phase_rules"@, phase_rules@),
            ],
        ),
{
    let vars = [
        ("common", common),
        ("requested_output_language", requested_output_language),
        ("phase_rules", phase_rules),
    ];
    assert(vars_view(vars@) =~= seq![
        ("common"@, common@),
        ("requested_output_language"@, requested_output_language@),
        ("phase_rules"@, phase_rules@),
    ]);
    render_template(ONBOARDING_PHASE_INSTRUCTIONS, &vars)
}

/// The input for an onboarding turn; the confirmation count is written in
/// decimal.
pub fn build_onboarding_prompt_input(
    target_phase: &str,
    requested_output_language: &str,
    current_phase: &str,
    last_response_time_tier: &str,
    persona_summary: &str,
    headline_candidate: &str,
    confirmed_headline: &str,
    headline_confirmation_count: usize,
    pending_response_time_tier: &str,
    kickoff_signal: &str,
    conversation: &str,
) -> (s: String)
    ensures
        s@ == rendered_asset(
            ONBOARDING_PROMPT_INPUT@,
            seq![
                ("target_phase"@, target_phase@),
                ("requested_output_language"@, requested_output_language@),
                ("current_phase"@, current_phase@),
                ("last_response_time_tier"@, last_response_time_tier@),
                ("persona_summary"@, persona_summary@),
                ("headline_candidate"@, headline_candidate@),
                ("confirmed_headline"@, confirmed_headline@),
                ("headline_confirmation_count"@, decimal(headline_confirmation_count as nat)),
                ("pending_response_time_tier"@, pending_response_time_tier@),
                ("kickoff_signal"@, kickoff_signal@),
                ("conversation"@, conversation@),
            ],
        ),
{
    let count = decimal_string(headline_confirmation_count as u64);
    let vars = [
        ("target_phase", target_phase),
        ("requested_output_language", requested_output_language),
        ("current_phase", current_phase),
        ("last_response_time_tier", last_response_time_tier),
        ("persona_summary", persona_summary),
        ("headline_candidate", headline_candidate),
        ("confirmed_headline", confirmed_headline),
        ("headline_confirmation_count", count.as_str()),
        ("pending_response_time_tier", pending_response_time_tier),
        ("kickoff_signal", kickoff_signal),
        ("conversation", conversation),
    ];
    assert(vars_view(vars@) =~= seq![
        ("target_phase"@, target_phase@),
        ("requested_output_language"@, requested_output_language@),
        ("current_phase"@, current_phase@),
        ("last_response_time_tier"@, last_response_time_tier@),
        ("persona_summary"@, persona_summary@),
        ("headline_candidate"@, headline_candidate@),
        ("confirmed_headline"@, confirmed_headline@),
        ("headline_confirmation_count"@, decimal(headline_confirmation_count as nat)),
        ("pending_response_time_tier"@, pending_response_time_tier@),
        ("kickoff_signal"@, kickoff_signal@),
        ("conversation"@, conversation@),
    ]);
    render_template(ONBOARDING_PROMPT_INPUT, &vars)
}

/// The turn note for a setup drop question: the initial note on its first
/// turn, the follow-up note afterwards.
pub fn build_onboarding_sdq_turn_note(is_initial: bool, question_index: usize, topic: &str) -> (s:
    String)
    ensures
        s@ == rendered_asset(
            if is_initial {
                ONBOARDING_SDQ_INITIAL_TURN_NOTE@
            } else {
                ONBOARDING_SDQ_FOLLOWUP_TURN_NOTE@
            },
            seq![("question_index"@, decimal(question_index as nat)), ("topic"@, topic@)],
        ),
{
    let index = decimal_string(question_index as u64);
    let template = if is_initial {
        ONBOARDING_SDQ_INITIAL_TURN_NOTE
    } else {
        ONBOARDING_SDQ_FOLLOWUP_TURN_NOTE
    };
    let vars = [("question_index", index.as_str()), ("topic", topic)];
    assert(vars_view(vars@) =~= seq![
        ("question_index"@, decimal(question_index as nat)),
        ("topic"@, topic@),
    ]);
    render_template(template, &vars)
}

/// Instructions for a setup drop question phase.
pub fn build_onboarding_sdq_phase_instructions(
    step_label: &str,
    question_index: usize,
    topic: &str,
    turn_note: &str,
) -> (s: String)
    ensures
        s@ == rendered_asset(
            ONBOARDING_SDQ_PHASE_INSTRUCTIONS@,
            seq![
                ("step_label"@, step_label@),
                ("question_index"@, decimal(question_index as nat)),
                ("topic"@, topic@),
                ("turn_note"@, turn_note@),
            ],
        ),
{
    let index = decimal_string(question_index as u64);
    let vars = [
        ("step_label", step_label),
        ("question_index", index.as_str()),
        ("topic", topic),
        ("turn_note", turn_note),
    ];
    assert(vars_view(vars@) =~= seq![
        ("step_label"@, step_label@),
        ("question_index"@, decimal(question_index as nat)),
        ("topic"@, topic@),
        ("turn_note"@, turn_note@),
    ]);
    render_template(ONBOARDING_SDQ_PHASE_INSTRUCTIONS, &vars)
}

/// The input for an explicit profile correction.
pub fn build_explicit_correction_input(message: &str) -> (s: String)
    ensures
        s@ == rendered_asset(EXPLICIT_CORRECTION_INPUT@, seq![("message"@, message@)]),
{
    let vars = [("message", message)];
    assert(vars_view(vars@) =~= seq![("message"@, message@)]);
    render_template(EXPLICIT_CORRECTION_INPUT, &vars)
}


// ── Blocks ──────────────────────────────────────────────────────────────────

/// A titled bullet list: the header and a colon, then one `- item` per line,
/// or `empty_suffix` when there are no items.
pub open spec fn bullet_list_text(header: Seq<char>, items: Seq<Seq<char>>, empty_suffix: Seq<
    char,
>) -> Seq<char> {
    if items.len() == 0 {
        header + ":\n"@ + empty_suffix
    } else {
        header + ":\n- "@ + join(items, "\n- "@)
    }
}

/// A titled bullet list of the items.
pub fn bullet_list_block(header: &str, items: &[String], empty_suffix: &str) -> (s: String)
    ensures
        s@ == bullet_list_text(header@, views_of(items@), empty_suffix@),
{
    let mut s = String::from_str(header);
    if items.len() == 0 {
        s.append(":\n");
        s.append(empty_suffix);
    } else {
        s.append(":\n- ");
        let joined = join_strings(items, "\n- ");
        s.append(joined.as_str());
    }
    s
}

/// A preformatted block, trimmed, or the fallback when it is blank.
pub open spec fn preformatted_text(block: Seq<char>, fallback: Seq<char>) -> Seq<char> {
    if is_blank(block) {
        fallback
    } else {
        trim(block)
    }
}

/// A preformatted block, trimmed, or the fallback when it is blank.
pub fn normalize_preformatted_block(block: &str, fallback: &str) -> (s: String)
    ensures
        s@ == preformatted_text(block@, fallback@),
{
    if is_blank_str(block) {
        String::from_str(fallback)
    } else {
        trimmed(block)
    }
}

/// The reflection memory block for a use case, with its influence out of 10.
pub open spec fn reflection_memory_text(use_case_label: Seq<char>, weight: nat, summaries: Seq<
    Seq<char>,
>) -> Seq<char> {
    "Reflection memory for "@ + use_case_label + " (influence "@ + decimal(weight) + "/10):\n- "@
        + if summaries.len() == 0 {
        "none captured yet"@
    } else {
        join(summaries, "\n- "@)
    }
}

fn reflection_memory_block(use_case_label: &str, weight: u8, summaries: &[String]) -> (s: String)
    ensures
        s@ == reflection_memory_text(use_case_label@, weight as nat, views_of(summaries@)),
{
    let mut s = String::from_str("Reflection memory for ");
    s.append(use_case_label);
    s.append(" (influence ");
    push_decimal(&mut s, weight as u64);
    s.append("/10):\n- ");
    if summaries.len() == 0 {
        s.append("none captured yet");
    } else {
        let joined = join_strings(summaries, "\n- ");
        s.append(joined.as_str());
    }
    s
}

/// The lines joined by newlines, or `empty` when there are none.
pub open spec fn lines_or(lines: Seq<Seq<char>>, empty: Seq<char>) -> Seq<char> {
    if lines.len() == 0 {
        empty
    } else {
        join(lines, "\n"@)
    }
}

fn lines_block(lines: &[String], empty: &str) -> (s: String)
    ensures
        s@ == lines_or(views_of(lines@), empty@),
{
    if lines.len() == 0 {
        String::from_str(empty)
    } else {
        join_strings(lines, "\n")
    }
}

// ── Profile input ───────────────────────────────────────────────────────────

/// The kickoff block: the trimmed signal under its header, or nothing when
/// the signal is absent or blank.
pub open spec fn kickoff_text(kickoff_style_signal: Option<&str>) -> Seq<char> {
    match kickoff_style_signal {
        Some(k) => if is_blank(k@) {
            Seq::empty()
        } else {
            "Kickoff style signal:\n"@ + trim(k@) + "\n\n"@
        },
        None => Seq::empty(),
    }
}

/// The profile generation input: the kickoff block, the trimmed structured
/// answers as a bullet list, and the closing request.
pub open spec fn profile_input_text(kickoff_style_signal: Option<&str>, answers: Seq<Seq<char>>) -> Seq<
    char,
> {
    kickoff_text(kickoff_style_signal) + if answers.len() == 0 {
        "Structured onboarding answers:\n- none supplied"@
    } else {
        "Structured onboarding answers:\n- "@ + join(
            answers.map_values(|a: Seq<char>| trim(a)),
            "\n- "@,
        )
    } + "\n\nReturn JSON only."@
}

/// The input for profile generation.
pub fn profile_input(kickoff_style_signal: Option<&str>, structured_answers: &[String]) -> (s:
    String)
    ensures
        s@ == profile_input_text(kickoff_style_signal, views_of(structured_answers@)),
{
    let mut s = String::new();
    match kickoff_style_signal {
        Some(k) => {
            if !is_blank_str(k) {
                proof {
                    crate::text::lemma_trim_empty_iff_blank(k@);
                }
                s.append("Kickoff style signal:\n");
                let t = trimmed(k);
                s.append(t.as_str());
                s.append("\n\n");
            }
        },
        None => {},
    }
    let ghost kickoff = s@;
    assert(kickoff =~= kickoff_text(kickoff_style_signal));
    if structured_answers.len() == 0 {
        s.append("Structured onboarding answers:\n- none supplied");
    } else {
        let mut answers: Vec<String> = Vec::new();
        let mut i: usize = 0;
        while i < structured_answers.len()
            invariant
                0 <= i <= structured_answers@.len(),
                views_of(answers@) == views_of(structured_answers@).take(i as int).map_values(
                    |a: Seq<char>| trim(a),
                ),
            decreases structured_answers@.len() - i,
        {
            let ghost before = answers@;
            let t = trimmed(structured_answers[i].as_str());
            answers.push(t);
            proof {
                assert(answers@ =~= before.push(t));
                assert(views_of(answers@) =~= views_of(before).push(t@));
                let all = views_of(structured_answers@);
                assert(all.take((i + 1) as int) =~= all.take(i as int).push(all[i as int]));
                assert(all.take((i + 1) as int).map_values(|a: Seq<char>| trim(a)) =~= all.take(
                    i as int,
                ).map_values(|a: Seq<char>| trim(a)).push(trim(all[i as int])));
            }
            i += 1;
        }
        assert(views_of(structured_answers@).take(i as int) =~= views_of(structured_answers@));
        s.append("Structured onboarding answers:\n- ");
        let joined = join_strings(answers.as_slice(), "\n- ");
        s.append(joined.as_str());
    }
    s.append("\n\nReturn JSON only.");
    s
}

// ── Prompt-ready parts of a profile ─────────────────────────────────────────

/// The profile part of a stored profile.
pub open spec fn ready_profile_of(p: ShadowProfile) -> PromptReadyProfile {
    PromptReadyProfile {
        headline: p.headline,
        stance: p.stance,
        source_answers: p.source_answers,
    }
}

/// The persona part of a stored profile.
pub open spec fn ready_persona_of(p: ShadowProfile) -> PromptReadyPersona {
    PromptReadyPersona { tone: p.tone, traits: p.traits, speech_style: p.speech_style }
}

/// The reasoning policy part of a stored profile.
pub open spec fn ready_reasoning_of(p: ShadowProfile) -> PromptReadyReasoningPolicy {
    PromptReadyReasoningPolicy { decision_style: p.decision_style, anchor: p.anchor }
}

fn copy_strings(v: &Vec<String>) -> (c: Vec<String>)
    ensures
        c@ == v@,
{
    let mut c: Vec<String> = Vec::new();
    let mut i: usize = 0;
    while i < v.len()
        invariant
            0 <= i <= v@.len(),
            c@ == v@.take(i as int),
        decreases v@.len() - i,
    {
        c.push(v[i].clone());
        i += 1;
        assert(c@ =~= v@.take(i as int));
    }
    assert(v@.take(i as int) =~= v@);
    c
}

fn copy_speech_style(s: &SpeechStyle) -> (c: SpeechStyle)
    ensures
        c.dialect == s.dialect,
        c.formality == s.formality,
        c.markers@ == s.markers@,
        c.sentence_pattern == s.sentence_pattern,
{
    SpeechStyle {
        dialect: match &s.dialect {
            Some(d) => Some(d.clone()),
            None => None,
        },
        formality: s.formality.clone(),
        markers: copy_strings(&s.markers),
        sentence_pattern: s.sentence_pattern.clone(),
    }
}

/// The three prompt-ready parts of a stored profile, as separate values.
fn prompt_ready_parts(profile: &ShadowProfile) -> (parts: (
    PromptReadyProfile,
    PromptReadyPersona,
    PromptReadyReasoningPolicy,
))
    ensures
        profile_compact(parts.0) == profile_compact(ready_profile_of(*profile)),
        persona_compact(parts.1) == persona_compact(ready_persona_of(*profile)),
        reasoning_compact(parts.2) == reasoning_compact(ready_reasoning_of(*profile)),
{
    let speech_style = match &profile.speech_style {
        Some(style) => Some(copy_speech_style(style)),
        None => None,
    };
    (
        PromptReadyProfile {
            headline: profile.headline.clone(),
            stance: profile.stance.clone(),
            source_answers: copy_strings(&profile.source_answers),
        },
        PromptReadyPersona {
            tone: profile.tone.clone(),
            traits: copy_strings(&profile.traits),
            speech_style,
        },
        PromptReadyReasoningPolicy {
            decision_style: profile.decision_style.clone(),
            anchor: profile.anchor.clone(),
        },
    )
}

// ── Chat input ──────────────────────────────────────────────────────────────

/// The long-term memory block used when none is supplied.
pub const NO_LONG_TERM_MEMORY: &'static str = "Long-term memory selected for this turn:\n- none selected";

/// The layout of a normal chat input.
pub const CHAT_INPUT_FRAME: &'static str = "{relevant_answers_block}\n\n{onboarding_continuity_block}\n\n{long_term_memory_block}\n\n{reflection_block}\n\nOnboarding profile:\n{onboarding_profile}\n\nPersona:\n{persona}\n\nReasoning policy:\n{reasoning_policy}\n\nRecent conversation (latest 20 messages max):\n{conversation_block}\n";

/// The normal chat input: the onboarding answers and continuity, long-term
/// and reflection memory, the profile as JSON, and the recent conversation.
pub open spec fn chat_input_text(
    relevant_onboarding_answers: Seq<Seq<char>>,
    onboarding_continuity: Seq<Seq<char>>,
    profile: ShadowProfile,
    conversation_lines: Seq<Seq<char>>,
    reflection_summaries: Seq<Seq<char>>,
    long_term_memory_block: Seq<char>,
) -> Seq<char> {
    render_chars(
        CHAT_INPUT_FRAME@,
        seq![
            (
                "relevant_answers_block"@,
                bullet_list_text(
                    "Relevant onboarding answers"@,
                    relevant_onboarding_answers,
                    "- none selected"@,
                ),
            ),
            (
                "onboarding_continuity_block"@,
                bullet_list_text(
                    "Onboarding continuity"@,
                    onboarding_continuity,
                    "- none captured yet"@,
                ),
            ),
            (
                "long_term_memory_block"@,
                preformatted_text(long_term_memory_block, NO_LONG_TERM_MEMORY@),
            ),
            (
                "reflection_block"@,
                reflection_memory_text(
                    "normal chat"@,
                    NORMAL_CHAT_REFLECTION_WEIGHT as nat,
                    reflection_summaries,
                ),
            ),
            ("onboarding_profile"@, profile_compact(ready_profile_of(profile))),
            ("persona"@, persona_compact(ready_persona_of(profile))),
            ("reasoning_policy"@, reasoning_compact(ready_reasoning_of(profile))),
            ("conversation_block"@, lines_or(conversation_lines, "none yet"@)),
        ],
    )
}

/// The normal chat input with the given long-term memory block.
pub fn chat_input_with_reflection_memory_and_long_term_context(
    relevant_onboarding_answers: &[String],
    onboarding_continuity: &[String],
    profile: &ShadowProfile,
    conversation_lines: &[String],
    reflection_summaries: &[String],
    long_term_memory_block: &str,
) -> (s: String)
    ensures
        s@ == chat_input_text(
            views_of(relevant_onboarding_answers@),
            views_of(onboarding_continuity@),
            *profile,
            views_of(conversation_lines@),
            views_of(reflection_summaries@),
            long_term_memory_block@,
        ),
{
    let (ready_profile, ready_persona, ready_reasoning) = prompt_ready_parts(profile);
    let relevant_answers_block = bullet_list_block(
        "Relevant onboarding answers",
        relevant_onboarding_answers,
        "- none selected",
    );
    let onboarding_continuity_block = bullet_list_block(
        "Onboarding continuity",
        onboarding_continuity,
        "- none captured yet",
    );
    let conversation_block = lines_block(conversation_lines, "none yet");
    let reflection_block = reflection_memory_block(
        "normal chat",
        NORMAL_CHAT_REFLECTION_WEIGHT,
        reflection_summaries,
    );
    let long_term = normalize_preformatted_block(long_term_memory_block, NO_LONG_TERM_MEMORY);
    let profile_json = onboarding_profile_json(&ready_profile);
    let persona_json = persona_json(&ready_persona);
    let reasoning_json = reasoning_policy_json(&ready_reasoning);
    let vars = [
        ("relevant_answers_block", relevant_answers_block.as_str()),
        ("onboarding_continuity_block", onboarding_continuity_block.as_str()),
        ("long_term_memory_block", long_term.as_str()),
        ("reflection_block", reflection_block.as_str()),
        ("onboarding_profile", profile_json.as_str()),
        ("persona", persona_json.as_str()),
        ("reasoning_policy", reasoning_json.as_str()),
        ("conversation_block", conversation_block.as_str()),
    ];
    assert(vars_view(vars@) =~= seq![
        ("relevant_answers_block"@, relevant_answers_block@),
        ("onboarding_continuity_block"@, onboarding_continuity_block@),
        ("long_term_memory_block"@, long_term@),
        ("reflection_block"@, reflection_block@),
        ("onboarding_profile"@, profile_json@),
        ("persona"@, persona_json@),
        ("reasoning_policy"@, reasoning_json@),
        ("conversation_block"@, conversation_block@),
    ]);
    PromptTemplate::new(CHAT_INPUT_FRAME).render(&vars)
}

/// The normal chat input with reflection memory and no long-term memory.
pub fn chat_input_with_reflection_memory(
    relevant_onboarding_answers: &[String],
    onboarding_continuity: &[String],
    profile: &ShadowProfile,
    conversation_lines: &[String],
    reflection_summaries: &[String],
) -> (s: String)
    ensures
        s@ == chat_input_text(
            views_of(relevant_onboarding_answers@),
            views_of(onboarding_continuity@),
            *profile,
            views_of(conversation_lines@),
            views_of(reflection_summaries@),
            NO_LONG_TERM_MEMORY@,
        ),
{
    chat_input_with_reflection_memory_and_long_term_context(
        relevant_onboarding_answers,
        onboarding_continuity,
        profile,
        conversation_lines,
        reflection_summaries,
        NO_LONG_TERM_MEMORY,
    )
}

/// The normal chat input without reflection or long-term memory.
pub fn chat_input(
    relevant_onboarding_answers: &[String],
    onboarding_continuity: &[String],
    profile: &ShadowProfile,
    conversation_lines: &[String],
) -> (s: String)
    ensures
        s@ == chat_input_text(
            views_of(relevant_onboarding_answers@),
            views_of(onboarding_continuity@),
            *profile,
            views_of(conversation_lines@),
            Seq::empty(),
            NO_LONG_TERM_MEMORY@,
        ),
{
    let none: Vec<String> = Vec::new();
    let r = chat_input_with_reflection_memory(
        relevant_onboarding_answers,
        onboarding_continuity,
        profile,
        conversation_lines,
        none.as_slice(),
    );
    assert(views_of(none@) =~= Seq::<Seq<char>>::empty());
    r
}

// ── Preview input ───────────────────────────────────────────────────────────

/// What a setup probe kind asks about.
pub open spec fn probe_context_text(kind: Option<SetupProbeKind>) -> Option<Seq<char>> {
    match kind {
        Some(SetupProbeKind::InitialWorkstyleProbe) => Some(
            "learning style under time pressure"@,
        ),
        Some(SetupProbeKind::ProjectShiftReflection) => Some(
            "how this person changes approach mid-project"@,
        ),
        Some(SetupProbeKind::DeadlineQualityTradeoff) => Some(
            "how this person handles deadline versus quality tradeoffs"@,
        ),
        None => None,
    }
}

fn challenge_context(challenge: &ShadowChallenge) -> (c: Option<String>)
    ensures
        match c {
            Some(text) => probe_context_text(challenge.preferred_probe_kind) == Some(text@),
            None => probe_context_text(challenge.preferred_probe_kind) is None,
        },
{
    match challenge.preferred_probe_kind {
        Some(SetupProbeKind::InitialWorkstyleProbe) => Some(
            String::from_str("learning style under time pressure"),
        ),
        Some(SetupProbeKind::ProjectShiftReflection) => Some(
            String::from_str("how this person changes approach mid-project"),
        ),
        Some(SetupProbeKind::DeadlineQualityTradeoff) => Some(
            String::from_str("how this person handles deadline versus quality tradeoffs"),
        ),
        None => None,
    }
}

/// The layout of a question-answer preview input.
pub const PREVIEW_INPUT_FRAME: &'static str = "Requested answer language: {requested_answer_language}\nPrompt tag label: {prompt_tag_label}\nPrompt context: {prompt_context}\nPrompt: {prompt}\n\n{evidence_block}\n\n{reflection_block}\n\nOnboarding profile:\n{onboarding_profile}\n\nPersona:\n{persona}\n\nReasoning policy:\n{reasoning_policy}\n";

/// The bindings that fill the preview input's layout.
pub open spec fn preview_bindings(
    challenge: ShadowChallenge,
    profile: ShadowProfile,
    supporting_evidence: Seq<Seq<char>>,
    answer_lang: Seq<char>,
    reflection_summaries: Seq<Seq<char>>,
) -> Seq<(Seq<char>, Seq<char>)> {
    seq![
        ("requested_answer_language"@, output_language_name(answer_lang)),
        (
            "prompt_tag_label"@,
            match challenge.tag_label {
                Some(t) => t@,
                None => "none supplied"@,
            },
        ),
        (
            "prompt_context"@,
            match probe_context_text(challenge.preferred_probe_kind) {
                Some(c) => c,
                None => "none supplied"@,
            },
        ),
        ("prompt"@, challenge.prompt_text@),
        (
            "evidence_block"@,
            bullet_list_text(
                "Relevant onboarding answers for this prompt"@,
                supporting_evidence,
                "- none selected"@,
            ),
        ),
        (
            "reflection_block"@,
            reflection_memory_text(
                "question answer"@,
                QUESTION_ANSWER_REFLECTION_WEIGHT as nat,
                reflection_summaries,
            ),
        ),
        ("onboarding_profile"@, profile_compact(ready_profile_of(profile))),
        ("persona"@, persona_compact(ready_persona_of(profile))),
        ("reasoning_policy"@, reasoning_compact(ready_reasoning_of(profile))),
    ]
}

/// The preview input: the requested language, the prompt with its tag and
/// context, the supporting evidence, reflection memory, and the profile as JSON.
pub open spec fn preview_input_text(
    challenge: ShadowChallenge,
    profile: ShadowProfile,
    supporting_evidence: Seq<Seq<char>>,
    answer_lang: Seq<char>,
    reflection_summaries: Seq<Seq<char>>,
) -> Seq<char> {
    render_chars(
        PREVIEW_INPUT_FRAME@,
        preview_bindings(challenge, profile, supporting_evidence, answer_lang, reflection_summaries),
    )
}

/// The preview input opens with the requested answer language, the prompt's
/// tag, the context that the challenge's preferred probe kind asks about, and
/// the prompt, one per line: an initial workstyle probe asks about learning
/// style under time pressure, a project shift reflection about how the person
/// changes approach mid-project, a deadline/quality tradeoff about how the
/// person handles it, and a challenge without a probe kind has none supplied.
pub proof fn law_preview_input_opens_with_the_probe_context(
    challenge: ShadowChallenge,
    profile: ShadowProfile,
    supporting_evidence: Seq<Seq<char>>,
    answer_lang: Seq<char>,
    reflection_summaries: Seq<Seq<char>>,
)
    ensures
        ("Requested answer language: "@ + output_language_name(answer_lang)
            + "\nPrompt tag label: "@ + match challenge.tag_label {
            Some(t) => t@,
            None => "none supplied"@,
        } + "\nPrompt context: "@ + match challenge.preferred_probe_kind {
            Some(SetupProbeKind::InitialWorkstyleProbe) => "learning style under time pressure"@,
            Some(SetupProbeKind::ProjectShiftReflection) => "how this person changes approach mid-project"@,
            Some(SetupProbeKind::DeadlineQualityTradeoff) => "how this person handles deadline versus quality tradeoffs"@,
            None => "none supplied"@,
        } + "\nPrompt: "@ + challenge.prompt_text@).is_prefix_of(
            preview_input_text(
                challenge,
                profile,
                supporting_evidence,
                answer_lang,
                reflection_summaries,
            ),
        ),
{
    let b1 = "Requested answer language: "@;
    let b2 = "\nPrompt tag label: "@;
    let b3 = "\nPrompt context: "@;
    let b4 = "\nPrompt: "@;
    let k1 = "requested_answer_language"@;
    let k2 = "prompt_tag_label"@;
    let k3 = "prompt_context"@;
    let k4 = "prompt"@;
    let r4 = "\n\n{evidence_block}\n\n{reflection_block}\n\nOnboarding profile:\n{onboarding_profile}\n\nPersona:\n{persona}\n\nReasoning policy:\n{reasoning_policy}\n"@;
    reveal_strlit("Requested answer language: ");
    reveal_strlit("\nPrompt tag label: ");
    reveal_strlit("\nPrompt context: ");
    reveal_strlit("\nPrompt: ");
    reveal_strlit("requested_answer_language");
    reveal_strlit("prompt_tag_label");
    reveal_strlit("prompt_context");
    reveal_strlit("prompt");
    reveal_strlit("evidence_block");
    reveal_strlit("reflection_block");
    reveal_strlit("onboarding_profile");
    reveal_strlit("persona");
    reveal_strlit("reasoning_policy");
    reveal_strlit(
        "\n\n{evidence_block}\n\n{reflection_block}\n\nOnboarding profile:\n{onboarding_profile}\n\nPersona:\n{persona}\n\nReasoning policy:\n{reasoning_policy}\n",
    );
    reveal_strlit(
        "Requested answer language: {requested_answer_language}\nPrompt tag label: {prompt_tag_label}\nPrompt context: {prompt_context}\nPrompt: {prompt}\n\n{evidence_block}\n\n{reflection_block}\n\nOnboarding profile:\n{onboarding_profile}\n\nPersona:\n{persona}\n\nReasoning policy:\n{reasoning_policy}\n",
    );
    let r3 = b4 + seq!['{'] + k4 + seq!['}'] + r4;
    let r2 = b3 + seq!['{'] + k3 + seq!['}'] + r3;
    let r1 = b2 + seq!['{'] + k2 + seq!['}'] + r2;
    assert(PREVIEW_INPUT_FRAME@ =~= b1 + seq!['{'] + k1 + seq!['}'] + r1);
    let tag = match challenge.tag_label {
        Some(t) => t@,
        None => "none supplied"@,
    };
    let ctx = match probe_context_text(challenge.preferred_probe_kind) {
        Some(c) => c,
        None => "none supplied"@,
    };
    let vars = preview_bindings(
        challenge,
        profile,
        supporting_evidence,
        answer_lang,
        reflection_summaries,
    );
    assert(vars.len() == 9);
    assert(vars[0].0 == k1 && vars[1].0 == k2 && vars[2].0 == k3 && vars[3].0 == k4);
    assert(vars[4].0 == "evidence_block"@ && vars[5].0 == "reflection_block"@);
    assert(vars[6].0 == "onboarding_profile"@ && vars[7].0 == "persona"@);
    assert(vars[8].0 == "reasoning_policy"@);
    assert forall|i: int, j: int| 0 <= i < 4 && i < j < 9 implies #[trigger] vars[j].0
        != #[trigger] vars[i].0 by {
        assert(vars[j].0.len() != vars[i].0.len() || vars[j].0[0] != vars[i].0[0]);
    }
    lemma_lookup_found(vars, 0);
    lemma_lookup_found(vars, 1);
    lemma_lookup_found(vars, 2);
    lemma_lookup_found(vars, 3);
    assert(!b1.contains('{'));
    assert(!b2.contains('{'));
    assert(!b3.contains('{'));
    assert(!b4.contains('{'));
    assert(!k1.contains('}'));
    assert(!k2.contains('}'));
    assert(!k3.contains('}'));
    assert(!k4.contains('}'));
    law_render_replaces_first_placeholder(b1, k1, r1, vars);
    law_render_replaces_first_placeholder(b2, k2, r2, vars);
    law_render_replaces_first_placeholder(b3, k3, r3, vars);
    law_render_replaces_first_placeholder(b4, k4, r4, vars);
    let head = b1 + output_language_name(answer_lang) + b2 + tag + b3 + ctx + b4
        + challenge.prompt_text@;
    let whole = render_chars(PREVIEW_INPUT_FRAME@, vars);
    assert(whole =~= head + render_chars(r4, vars));
    assert(head =~= whole.subrange(0, head.len() as int));
}

/// The preview input with reflection memory.
pub fn preview_input_with_reflection_memory(
    challenge: &ShadowChallenge,
    profile: &ShadowProfile,
    supporting_evidence: &[String],
    answer_lang: &str,
    reflection_summaries: &[String],
) -> (s: String)
    ensures
        s@ == preview_input_text(
            *challenge,
            *profile,
            views_of(supporting_evidence@),
            answer_lang@,
            views_of(reflection_summaries@),
        ),
{
    let (ready_profile, ready_persona, ready_reasoning) = prompt_ready_parts(profile);
    let evidence_block = bullet_list_block(
        "Relevant onboarding answers for this prompt",
        supporting_evidence,
        "- none selected",
    );
    let reflection_block = reflection_memory_block(
        "question answer",
        QUESTION_ANSWER_REFLECTION_WEIGHT,
        reflection_summaries,
    );
    let language = requested_output_language(answer_lang);
    let tag_label = match &challenge.tag_label {
        Some(t) => t.as_str(),
        None => "none supplied",
    };
    assert(tag_label@ == match challenge.tag_label {
        Some(t) => t@,
        None => "none supplied"@,
    });
    let context = match challenge_context(challenge) {
        Some(c) => c,
        None => String::from_str("none supplied"),
    };
    assert(context@ == match probe_context_text(challenge.preferred_probe_kind) {
        Some(c) => c,
        None => "none supplied"@,
    });
    let profile_json = onboarding_profile_json(&ready_profile);
    let persona_json = persona_json(&ready_persona);
    let reasoning_json = reasoning_policy_json(&ready_reasoning);
    let vars = [
        ("requested_answer_language", language),
        ("prompt_tag_label", tag_label),
        ("prompt_context", context.as_str()),
        ("prompt", challenge.prompt_text.as_str()),
        ("evidence_block", evidence_block.as_str()),
        ("reflection_block", reflection_block.as_str()),
        ("onboarding_profile", profile_json.as_str()),
        ("persona", persona_json.as_str()),
        ("reasoning_policy", reasoning_json.as_str()),
    ];
    let r = PromptTemplate::new(PREVIEW_INPUT_FRAME).render(&vars);
    assert(r@ == preview_input_text(
        *challenge,
        *profile,
        views_of(supporting_evidence@),
        answer_lang@,
        views_of(reflection_summaries@),
    )) by {
        let c = *challenge;
        let expected = seq![
            ("requested_answer_language"@, output_language_name(answer_lang@)),
            (
                "prompt_tag_label"@,
                match c.tag_label {
                    Some(t) => t@,
                    None => "none supplied"@,
                },
            ),
            (
                "prompt_context"@,
                match probe_context_text(c.preferred_probe_kind) {
                    Some(x) => x,
                    None => "none supplied"@,
                },
            ),
            ("prompt"@, c.prompt_text@),
            (
                "evidence_block"@,
                bullet_list_text(
                    "Relevant onboarding answers for this prompt"@,
                    views_of(supporting_evidence@),
                    "- none selected"@,
                ),
            ),
            (
                "reflection_block"@,
                reflection_memory_text(
                    "question answer"@,
                    QUESTION_ANSWER_REFLECTION_WEIGHT as nat,
                    views_of(reflection_summaries@),
                ),
            ),
            ("onboarding_profile"@, profile_compact(ready_profile_of(*profile))),
            ("persona"@, persona_compact(ready_persona_of(*profile))),
            ("reasoning_policy"@, reasoning_compact(ready_reasoning_of(*profile))),
        ];
        assert(vars_view(vars@) =~= expected);
    }
    r
}

/// The preview input without reflection memory.
pub fn preview_input(
    challenge: &ShadowChallenge,
    profile: &ShadowProfile,
    supporting_evidence: &[String],
    answer_lang: &str,
) -> (s: String)
    ensures
        s@ == preview_input_text(
            *challenge,
            *profile,
            views_of(supporting_evidence@),
            answer_lang@,
            Seq::empty(),
        ),
{
    let none: Vec<String> = Vec::new();
    let r = preview_input_with_reflection_memory(
        challenge,
        profile,
        supporting_evidence,
        answer_lang,
        none.as_slice(),
    );
    assert(views_of(none@) =~= Seq::<Seq<char>>::empty());
    r
}

// ── Pair / Topic Talk inputs ────────────────────────────────────────────────

/// Everything a Pair / Topic Talk turn is written from.
#[derive(Debug, Clone)]
pub struct PairTopicPromptContext<'a> {
    pub speaker: &'a PairShadowIdentity,
    pub listener: &'a PairShadowIdentity,
    pub speaker_voice_evidence: &'a [String],
    pub listener_voice_evidence: &'a [String],
    pub requested_output_language: &'a str,
    pub topic_title: &'a str,
    pub topic_prompt: &'a str,
    pub tag_label: Option<&'a str>,
    pub tone: PairTopicTone,
    pub directive: PairTurnDirective,
    pub previous_messages: &'a [String],
    pub recent_topic_results: &'a [String],
    pub transition_note: Option<&'a str>,
    pub relevant_onboarding_answers: &'a [String],
    pub onboarding_continuity: &'a [String],
    pub long_term_memory_block: &'a str,
    pub reflection_summaries: &'a [String],
}

/// The topic title that marks normal pair chat rather than a Topic Talk.
pub const NORMAL_PAIR_CHAT_TITLE: &'static str = "Normal pair chat";

/// The conversation line for the first turn of a Topic Talk.
pub const FIRST_TOPIC_TURN_FRAME: &'static str = "No previous Pair / Topic Talk messages yet; no current-topic thread exists yet. Do not begin with agreement phrases; there is no previous Shadow line to agree with. Treat the user instruction as something the speaker wants help sending now. Generate a complete sendable message through the speaker's voice, then shape it so it can land naturally for {listener}. Prefer plain chat words over theatrical props or poetic stage directions.";

/// The conversation line for the first message of normal pair chat.
pub const FIRST_PAIR_CHAT_MESSAGE: &'static str = "No previous Pair / Topic Talk messages yet.";

/// The recent-results line when there are none.
pub const NO_RECENT_RESULTS: &'static str = "No recent Pair / Topic Talk results.";

/// The note above recent results in normal pair chat.
pub const PAIR_CHAT_RESULTS_NOTE: &'static str = "Use these completed Topic Talk results only as light background for normal pair chat. A transition note may ask for a brief bridge, but do not keep discussing the completed topic.";

/// The note above recent results in a Topic Talk.
pub const TOPIC_RESULTS_NOTE: &'static str = "Do not quote or callback from this section. Use it only for light background. Do not reuse its concrete metaphors, phrases, jokes, or scenes in this Topic Talk.";

/// The recall boundary for normal pair chat.
pub const PAIR_CHAT_RECALL_BOUNDARY: &'static str = "Normal pair chat recall boundary: prior normal chat and recent completed Topic Talk results may inform natural continuity when relevant. Keep any completed-topic bridge brief, and return to the original owners instead of continuing the completed topic.";

/// The callback boundary for a Topic Talk.
pub const TOPIC_CALLBACK_BOUNDARY: &'static str = "Topic Talk callback boundary: callbacks, concrete reuse, and phrase reuse are allowed only from the current Topic Talk messages above and the current topic title/prompt. Recent results, prior normal chat, previous topics, and profile/source material may inform stance and style, but do not quote, callback, or reuse their concrete metaphors, phrases, jokes, or scenes.";

/// The layout of a Pair / Topic Talk turn input.
pub const PAIR_TOPIC_MESSAGE_FRAME: &'static str = "{relevant_answers_block}\n\n{onboarding_continuity_block}\n\n{long_term_memory_block}\n\n{reflection_block}\n\nYou are speaking as {speaker} to {listener}.\nRequested output language: {requested_output_language}\nPair / Topic Talk tone: {tone}\nTurn phase: {phase}\nSuggested wording angle: {move_label} - {move_instruction}\nTopic tag: {tag_label}\nUser instruction title:\n{topic_title}\n\nUser instruction:\n{topic_prompt}\n\nSpeaker Shadow profile:\n{speaker_profile}\n\nSpeaker personal instruction:\n{speaker_personal_instruction}\n\nSpeaker voice evidence:\n{speaker_voice_evidence}\n\nPrevious Pair / Topic Talk messages:\n{conversation}\n\nRecent Pair / Topic Talk results for light background:\n{recent_results}\n{transition_note}\n{callback_boundary} User instruction is the source of intent for this turn. Write the next sendable message that {speaker} will send on behalf of the original user, not as the Shadow's independent opinion. If the instruction asks to explain, research, summarize, persuade, invite, soften, or adjust tone, generate a complete sendable message. Keep the original user's taste and Shadow voice, while making the wording usable for the recipient. Use listener/recipient context to make the message land naturally, but do not let listener context overwrite the speaker's voice. Choose the length based on the instruction, not a fixed short-chat rule. {topic_anchor}Write the next sendable message. Write entirely in the requested output language. Do not mix languages unless quoting a proper noun, product name, or short phrase already present in the topic or previous line. Do not copy the language of profile/source material when it differs from the requested output language. Treat speaker personal instruction, when present, as a high-priority turn constraint for the speaker's wording, stance, formality/register, and behavior. It has higher priority than default tone, speaker profile, and speaker voice evidence; it overrides conflicting voice evidence. Follow it throughout this turn, not only when introducing the topic, but do not quote it or turn it into explicit meta-explanation. Use speaker voice evidence only to shape the speaker's ordinary words, phrasing, distance, and rhythm. Do not treat voice evidence as private facts, concrete scene material, or callback material. Connect to the immediately previous line when it helps the message feel conversational, but do not force a handoff question or unrelated joke. Do not invent concrete private owner facts.";

/// The speaker's voice evidence as a bullet list, or a placeholder line.
pub open spec fn voice_evidence_text(evidence: Seq<Seq<char>>) -> Seq<char> {
    if evidence.len() == 0 {
        "- none supplied"@
    } else {
        "- "@ + join(evidence, "\n- "@)
    }
}

fn pair_voice_evidence_block(evidence: &[String]) -> (s: String)
    ensures
        s@ == voice_evidence_text(views_of(evidence@)),
{
    if evidence.len() == 0 {
        return String::from_str("- none supplied");
    }
    let mut s = String::from_str("- ");
    let joined = join_strings(evidence, "\n- ");
    s.append(joined.as_str());
    s
}

/// The speaker's personal instruction, trimmed, or a placeholder line when it
/// is absent or blank.
pub open spec fn personal_instruction_text(instruction: Option<String>) -> Seq<char> {
    match instruction {
        Some(i) => if is_blank(i@) {
            "- none supplied"@
        } else {
            trim(i@)
        },
        None => "- none supplied"@,
    }
}

fn pair_personal_instruction_block(instruction: &Option<String>) -> (s: String)
    ensures
        s@ == personal_instruction_text(*instruction),
{
    match instruction {
        Some(i) => {
            if is_blank_str(i.as_str()) {
                String::from_str("- none supplied")
            } else {
                trimmed(i.as_str())
            }
        },
        None => String::from_str("- none supplied"),
    }
}

/// An identity with its personal instruction taken out.
pub open spec fn without_personal_instruction(identity: PairShadowIdentity) -> PairShadowIdentity {
    PairShadowIdentity { personal_instruction: None, ..identity }
}

fn copy_ready_profile(p: &PromptReadyProfile) -> (c: PromptReadyProfile)
    ensures
        c.headline == p.headline,
        c.stance == p.stance,
        c.source_answers@ == p.source_answers@,
{
    PromptReadyProfile {
        headline: p.headline.clone(),
        stance: p.stance.clone(),
        source_answers: copy_strings(&p.source_answers),
    }
}

fn copy_ready_persona(p: &PromptReadyPersona) -> (c: PromptReadyPersona)
    ensures
        c.tone == p.tone,
        c.traits@ == p.traits@,
        c.speech_style is Some <==> p.speech_style is Some,
        c.speech_style matches Some(cs) ==> {
            let ps = p.speech_style->Some_0;
            &&& cs.dialect == ps.dialect
            &&& cs.formality == ps.formality
            &&& cs.markers@ == ps.markers@
            &&& cs.sentence_pattern == ps.sentence_pattern
        },
{
    PromptReadyPersona {
        tone: p.tone.clone(),
        traits: copy_strings(&p.traits),
        speech_style: match &p.speech_style {
            Some(style) => Some(copy_speech_style(style)),
            None => None,
        },
    }
}

/// A copy of the identity without its personal instruction; it is written
/// out as JSON exactly as the identity with the instruction taken out.
fn pair_identity_without_personal_instruction(identity: &PairShadowIdentity) -> (r:
    PairShadowIdentity)
    ensures
        r.name == identity.name,
        r.personal_instruction is None,
        identity_pretty(r) == identity_pretty(without_personal_instruction(*identity)),
{
    PairShadowIdentity {
        name: identity.name.clone(),
        personal_instruction: None,
        profile: match &identity.profile {
            Some(p) => Some(copy_ready_profile(p)),
            None => None,
        },
        persona: match &identity.persona {
            Some(p) => Some(copy_ready_persona(p)),
            None => None,
        },
        reasoning_policy: match &identity.reasoning_policy {
            Some(r) => Some(
                PromptReadyReasoningPolicy {
                    decision_style: r.decision_style.clone(),
                    anchor: r.anchor.clone(),
                },
            ),
            None => None,
        },
    }
}

/// Whether the turn belongs to normal pair chat rather than a Topic Talk.
pub open spec fn is_normal_pair_chat(topic_title: Seq<char>) -> bool {
    topic_title == NORMAL_PAIR_CHAT_TITLE@
}

/// The previous messages, one per line, or the line for a first turn.
pub open spec fn pair_conversation_text(
    previous: Seq<Seq<char>>,
    normal_chat: bool,
    listener: Seq<char>,
) -> Seq<char> {
    if previous.len() == 0 {
        if normal_chat {
            FIRST_PAIR_CHAT_MESSAGE@
        } else {
            render_chars(FIRST_TOPIC_TURN_FRAME@, seq![("listener"@, listener)])
        }
    } else {
        join(previous, "\n"@)
    }
}

/// The recent results under their usage note, or a line saying there are none.
pub open spec fn recent_results_text(results: Seq<Seq<char>>, normal_chat: bool) -> Seq<char> {
    if results.len() == 0 {
        NO_RECENT_RESULTS@
    } else if normal_chat {
        PAIR_CHAT_RESULTS_NOTE@ + "\n"@ + join(results, "\n"@)
    } else {
        TOPIC_RESULTS_NOTE@ + "\n"@ + join(results, "\n"@)
    }
}

/// The transition note under its header, or nothing when absent or blank.
pub open spec fn transition_note_text(note: Option<&str>) -> Seq<char> {
    match note {
        Some(n) => if is_blank(n@) {
            Seq::empty()
        } else {
            "\nTransition note:\n"@ + trim(n@) + "\n"@
        },
        None => Seq::empty(),
    }
}

/// The reminder to stay on the user instruction (Topic Talk only).
pub open spec fn topic_anchor_text(topic_title: Seq<char>) -> Seq<char> {
    if is_normal_pair_chat(topic_title) {
        Seq::empty()
    } else {
        "Current instruction: "@ + topic_title + " — stay grounded in this user instruction. "@
    }
}

/// The input for the next message of a Pair / Topic Talk.
/// The bindings that fill the Pair / Topic Talk turn layout.
pub open spec fn pair_topic_bindings(c: PairTopicPromptContext) -> Seq<(Seq<char>, Seq<char>)> {
    let normal_chat = is_normal_pair_chat(c.topic_title@);
    seq![
        (
            "relevant_answers_block"@,
            bullet_list_text(
                "Relevant onboarding answers"@,
                views_of(c.relevant_onboarding_answers@),
                "- none selected"@,
            ),
        ),
        (
            "onboarding_continuity_block"@,
            bullet_list_text(
                "Onboarding continuity"@,
                views_of(c.onboarding_continuity@),
                "- none captured yet"@,
            ),
        ),
        (
            "long_term_memory_block"@,
            preformatted_text(c.long_term_memory_block@, NO_LONG_TERM_MEMORY@),
        ),
        (
            "reflection_block"@,
            reflection_memory_text(
                "pair chat"@,
                NORMAL_CHAT_REFLECTION_WEIGHT as nat,
                views_of(c.reflection_summaries@),
            ),
        ),
        ("speaker"@, c.speaker.name@),
        ("listener"@, c.listener.name@),
        ("requested_output_language"@, c.requested_output_language@),
        ("tone"@, tone_label(c.tone)),
        ("phase"@, phase_of(c.directive.turn_index as int, c.directive.total_turns as int)),
        ("move_label"@, move_label(c.directive.move_kind)),
        ("move_instruction"@, move_instruction(c.directive.move_kind)),
        (
            "tag_label"@,
            match c.tag_label {
                Some(t) => t@,
                None => "none supplied"@,
            },
        ),
        ("topic_title"@, c.topic_title@),
        ("topic_prompt"@, c.topic_prompt@),
        (
            "speaker_profile"@,
            identity_pretty(without_personal_instruction(*c.speaker)),
        ),
        (
            "speaker_personal_instruction"@,
            personal_instruction_text(c.speaker.personal_instruction),
        ),
        ("speaker_voice_evidence"@, voice_evidence_text(views_of(c.speaker_voice_evidence@))),
        (
            "conversation"@,
            pair_conversation_text(
                views_of(c.previous_messages@),
                normal_chat,
                c.listener.name@,
            ),
        ),
        (
            "recent_results"@,
            recent_results_text(views_of(c.recent_topic_results@), normal_chat),
        ),
        ("transition_note"@, transition_note_text(c.transition_note)),
        (
            "callback_boundary"@,
            if normal_chat {
                PAIR_CHAT_RECALL_BOUNDARY@
            } else {
                TOPIC_CALLBACK_BOUNDARY@
            },
        ),
        ("topic_anchor"@, topic_anchor_text(c.topic_title@)),
    ]
}

pub open spec fn pair_topic_message_text(c: PairTopicPromptContext) -> Seq<char> {
    render_chars(PAIR_TOPIC_MESSAGE_FRAME@, pair_topic_bindings(c))
}

/// The pieces of the Pair / Topic Talk turn layout up to the recent results.
pub open spec fn pair_frame_head() -> Seq<(Seq<char>, Seq<char>)> {
    seq![
        (""@, "relevant_answers_block"@),
        ("\n\n"@, "onboarding_continuity_block"@),
        ("\n\n"@, "long_term_memory_block"@),
        ("\n\n"@, "reflection_block"@),
        ("\n\nYou are speaking as "@, "speaker"@),
        (" to "@, "listener"@),
        (".\nRequested output language: "@, "requested_output_language"@),
        ("\nPair / Topic Talk tone: "@, "tone"@),
        ("\nTurn phase: "@, "phase"@),
        ("\nSuggested wording angle: "@, "move_label"@),
        (" - "@, "move_instruction"@),
        ("\nTopic tag: "@, "tag_label"@),
        ("\nUser instruction title:\n"@, "topic_title"@),
        ("\n\nUser instruction:\n"@, "topic_prompt"@),
        ("\n\nSpeaker Shadow profile:\n"@, "speaker_profile"@),
        ("\n\nSpeaker personal instruction:\n"@, "speaker_personal_instruction"@),
        ("\n\nSpeaker voice evidence:\n"@, "speaker_voice_evidence"@),
        ("\n\nPrevious Pair / Topic Talk messages:\n"@, "conversation"@),
    ]
}

/// The Pair / Topic Talk turn layout after the recent results.
pub open spec fn pair_frame_tail() -> Seq<char> {
    "\n{transition_note}\n{callback_boundary} User instruction is the source of intent for this turn. Write the next sendable message that {speaker} will send on behalf of the original user, not as the Shadow's independent opinion. If the instruction asks to explain, research, summarize, persuade, invite, soften, or adjust tone, generate a complete sendable message. Keep the original user's taste and Shadow voice, while making the wording usable for the recipient. Use listener/recipient context to make the message land naturally, but do not let listener context overwrite the speaker's voice. Choose the length based on the instruction, not a fixed short-chat rule. {topic_anchor}Write the next sendable message. Write entirely in the requested output language. Do not mix languages unless quoting a proper noun, product name, or short phrase already present in the topic or previous line. Do not copy the language of profile/source material when it differs from the requested output language. Treat speaker personal instruction, when present, as a high-priority turn constraint for the speaker's wording, stance, formality/register, and behavior. It has higher priority than default tone, speaker profile, and speaker voice evidence; it overrides conflicting voice evidence. Follow it throughout this turn, not only when introducing the topic, but do not quote it or turn it into explicit meta-explanation. Use speaker voice evidence only to shape the speaker's ordinary words, phrasing, distance, and rhythm. Do not treat voice evidence as private facts, concrete scene material, or callback material. Connect to the immediately previous line when it helps the message feel conversational, but do not force a handoff question or unrelated joke. Do not invent concrete private owner facts."@
}

/// How the Pair / Topic Talk turn layout is laid out around the recent
/// results: a run of plain pieces and placeholders, the recent-results heading
/// and placeholder, then the rest.
#[verifier::rlimit(100)]
proof fn lemma_pair_frame_layout()
    ensures
        PAIR_TOPIC_MESSAGE_FRAME@ == placeholder_run(pair_frame_head())
            + "\n\nRecent Pair / Topic Talk results for light background:\n"@ + seq!['{']
            + "recent_results"@ + seq!['}'] + pair_frame_tail(),
        forall|i: int|
            0 <= i < pair_frame_head().len() ==> !(#[trigger] pair_frame_head()[i]).0.contains('{')
                && !pair_frame_head()[i].1.contains('}'),
{
    reveal_with_fuel(placeholder_run, 19);
    reveal_strlit("");
    reveal_strlit("\n\n");
    reveal_strlit("\n\nYou are speaking as ");
    reveal_strlit(" to ");
    reveal_strlit(".\nRequested output language: ");
    reveal_strlit("\nPair / Topic Talk tone: ");
    reveal_strlit("\nTurn phase: ");
    reveal_strlit("\nSuggested wording angle: ");
    reveal_strlit(" - ");
    reveal_strlit("\nTopic tag: ");
    reveal_strlit("\nUser instruction title:\n");
    reveal_strlit("\n\nUser instruction:\n");
    reveal_strlit("\n\nSpeaker Shadow profile:\n");
    reveal_strlit("\n\nSpeaker personal instruction:\n");
    reveal_strlit("\n\nSpeaker voice evidence:\n");
    reveal_strlit("\n\nPrevious Pair / Topic Talk messages:\n");
    reveal_strlit("\n\nRecent Pair / Topic Talk results for light background:\n");
    reveal_strlit("relevant_answers_block");
    reveal_strlit("onboarding_continuity_block");
    reveal_strlit("long_term_memory_block");
    reveal_strlit("reflection_block");
    reveal_strlit("speaker");
    reveal_strlit("listener");
    reveal_strlit("requested_output_language");
    reveal_strlit("tone");
    reveal_strlit("phase");
    reveal_strlit("move_label");
    reveal_strlit("move_instruction");
    reveal_strlit("tag_label");
    reveal_strlit("topic_title");
    reveal_strlit("topic_prompt");
    reveal_strlit("speaker_profile");
    reveal_strlit("speaker_personal_instruction");
    reveal_strlit("speaker_voice_evidence");
    reveal_strlit("conversation");
    reveal_strlit("recent_results");
    reveal_strlit("\n{transition_note}\n{callback_boundary} User instruction is the source of intent for this turn. Write the next sendable message that {speaker} will send on behalf of the original user, not as the Shadow's independent opinion. If the instruction asks to explain, research, summarize, persuade, invite, soften, or adjust tone, generate a complete sendable message. Keep the original user's taste and Shadow voice, while making the wording usable for the recipient. Use listener/recipient context to make the message land naturally, but do not let listener context overwrite the speaker's voice. Choose the length based on the instruction, not a fixed short-chat rule. {topic_anchor}Write the next sendable message. Write entirely in the requested output language. Do not mix languages unless quoting a proper noun, product name, or short phrase already present in the topic or previous line. Do not copy the language of profile/source material when it differs from the requested output language. Treat speaker personal instruction, when present, as a high-priority turn constraint for the speaker's wording, stance, formality/register, and behavior. It has higher priority than default tone, speaker profile, and speaker voice evidence; it overrides conflicting voice evidence. Follow it throughout this turn, not only when introducing the topic, but do not quote it or turn it into explicit meta-explanation. Use speaker voice evidence only to shape the speaker's ordinary words, phrasing, distance, and rhythm. Do not treat voice evidence as private facts, concrete scene material, or callback material. Connect to the immediately previous line when it helps the message feel conversational, but do not force a handoff question or unrelated joke. Do not invent concrete private owner facts.");
    reveal_strlit("{relevant_answers_block}\n\n{onboarding_continuity_block}\n\n{long_term_memory_block}\n\n{reflection_block}\n\nYou are speaking as {speaker} to {listener}.\nRequested output language: {requested_output_language}\nPair / Topic Talk tone: {tone}\nTurn phase: {phase}\nSuggested wording angle: {move_label} - {move_instruction}\nTopic tag: {tag_label}\nUser instruction title:\n{topic_title}\n\nUser instruction:\n{topic_prompt}\n\nSpeaker Shadow profile:\n{speaker_profile}\n\nSpeaker personal instruction:\n{speaker_personal_instruction}\n\nSpeaker voice evidence:\n{speaker_voice_evidence}\n\nPrevious Pair / Topic Talk messages:\n{conversation}\n\nRecent Pair / Topic Talk results for light background:\n{recent_results}\n{transition_note}\n{callback_boundary} User instruction is the source of intent for this turn. Write the next sendable message that {speaker} will send on behalf of the original user, not as the Shadow's independent opinion. If the instruction asks to explain, research, summarize, persuade, invite, soften, or adjust tone, generate a complete sendable message. Keep the original user's taste and Shadow voice, while making the wording usable for the recipient. Use listener/recipient context to make the message land naturally, but do not let listener context overwrite the speaker's voice. Choose the length based on the instruction, not a fixed short-chat rule. {topic_anchor}Write the next sendable message. Write entirely in the requested output language. Do not mix languages unless quoting a proper noun, product name, or short phrase already present in the topic or previous line. Do not copy the language of profile/source material when it differs from the requested output language. Treat speaker personal instruction, when present, as a high-priority turn constraint for the speaker's wording, stance, formality/register, and behavior. It has higher priority than default tone, speaker profile, and speaker voice evidence; it overrides conflicting voice evidence. Follow it throughout this turn, not only when introducing the topic, but do not quote it or turn it into explicit meta-explanation. Use speaker voice evidence only to shape the speaker's ordinary words, phrasing, distance, and rhythm. Do not treat voice evidence as private facts, concrete scene material, or callback material. Connect to the immediately previous line when it helps the message feel conversational, but do not force a handoff question or unrelated joke. Do not invent concrete private owner facts.");
    let head = pair_frame_head();
    assert(!head[0].0.contains('{') && !head[0].1.contains('}'));
    assert(!head[1].0.contains('{') && !head[1].1.contains('}'));
    assert(!head[2].0.contains('{') && !head[2].1.contains('}'));
    assert(!head[3].0.contains('{') && !head[3].1.contains('}'));
    assert(!head[4].0.contains('{') && !head[4].1.contains('}'));
    assert(!head[5].0.contains('{') && !head[5].1.contains('}'));
    assert(!head[6].0.contains('{') && !head[6].1.contains('}'));
    assert(!head[7].0.contains('{') && !head[7].1.contains('}'));
    assert(!head[8].0.contains('{') && !head[8].1.contains('}'));
    assert(!head[9].0.contains('{') && !head[9].1.contains('}'));
    assert(!head[10].0.contains('{') && !head[10].1.contains('}'));
    assert(!head[11].0.contains('{') && !head[11].1.contains('}'));
    assert(!head[12].0.contains('{') && !head[12].1.contains('}'));
    assert(!head[13].0.contains('{') && !head[13].1.contains('}'));
    assert(!head[14].0.contains('{') && !head[14].1.contains('}'));
    assert(!head[15].0.contains('{') && !head[15].1.contains('}'));
    assert(!head[16].0.contains('{') && !head[16].1.contains('}'));
    assert(!head[17].0.contains('{') && !head[17].1.contains('}'));
    assert(PAIR_TOPIC_MESSAGE_FRAME@ =~= placeholder_run(pair_frame_head())
        + "\n\nRecent Pair / Topic Talk results for light background:\n"@ + seq!['{']
        + "recent_results"@ + seq!['}'] + pair_frame_tail());
}

/// The recent-results section of a Pair / Topic Talk turn input follows the
/// kind of talk: with results, a Topic Talk puts the no-callback note before
/// them and normal pair chat (the title "Normal pair chat") puts its
/// light-background note before them; without results the section says there
/// are none.
pub proof fn law_recent_results_note_follows_the_talk_kind(c: PairTopicPromptContext)
    ensures
        occurs_in(
            "\n\nRecent Pair / Topic Talk results for light background:\n"@ + if c.recent_topic_results@.len()
                == 0 {
                "No recent Pair / Topic Talk results."@
            } else if c.topic_title@ == "Normal pair chat"@ {
                "Use these completed Topic Talk results only as light background for normal pair chat. A transition note may ask for a brief bridge, but do not keep discussing the completed topic."@
                    + "\n"@ + join(views_of(c.recent_topic_results@), "\n"@)
            } else {
                "Do not quote or callback from this section. Use it only for light background. Do not reuse its concrete metaphors, phrases, jokes, or scenes in this Topic Talk."@
                    + "\n"@ + join(views_of(c.recent_topic_results@), "\n"@)
            },
            pair_topic_message_text(c),
        ),
{
    let vars = pair_topic_bindings(c);
    let heading = "\n\nRecent Pair / Topic Talk results for light background:\n"@;
    let key = "recent_results"@;
    reveal_strlit("recent_results");
    reveal_strlit("transition_note");
    reveal_strlit("callback_boundary");
    reveal_strlit("topic_anchor");
    reveal_strlit("\n\nRecent Pair / Topic Talk results for light background:\n");
    lemma_pair_frame_layout();
    assert(vars.len() == 22);
    assert(vars[18].0 == key);
    assert(vars[19].0 == "transition_note"@ && vars[20].0 == "callback_boundary"@);
    assert(vars[21].0 == "topic_anchor"@);
    assert forall|j: int| 18 < j < 22 implies #[trigger] vars[j].0 != vars[18].0 by {
        assert(vars[j].0.len() != vars[18].0.len());
    }
    lemma_lookup_found(vars, 18);
    let tail = heading + seq!['{'] + key + seq!['}'] + pair_frame_tail();
    assert(!heading.contains('{'));
    assert(!key.contains('}'));
    assert(PAIR_TOPIC_MESSAGE_FRAME@ =~= placeholder_run(pair_frame_head()) + tail);
    lemma_render_placeholder_run(pair_frame_head(), tail, vars);
    law_render_replaces_first_placeholder(heading, key, pair_frame_tail(), vars);
    let target = heading + replacement(vars, key);
    lemma_occurs_at_start(target, render_chars(pair_frame_tail(), vars));
    assert(render_chars(tail, vars) =~= target + render_chars(pair_frame_tail(), vars));
    lemma_occurs_after(rendered_run(pair_frame_head(), vars), target, render_chars(tail, vars));
    reveal_strlit("Normal pair chat");
}

/// The input for the next message of a Pair / Topic Talk: the memory blocks,
/// who speaks to whom and how, the user instruction, the speaker's profile
/// (without its personal instruction, which is listed on its own), voice
/// evidence, the conversation so far, recent results, and the turn rules.
/// The listener's voice evidence is not part of the input. The directive's
/// turn index must be below `usize::MAX`.
pub fn build_pair_topic_message_input(context: PairTopicPromptContext<'_>) -> (s: String)
    requires
        context.directive.turn_index < usize::MAX,
    ensures
        s@ == pair_topic_message_text(context),
{
    let relevant_answers_block = bullet_list_block(
        "Relevant onboarding answers",
        context.relevant_onboarding_answers,
        "- none selected",
    );
    let onboarding_continuity_block = bullet_list_block(
        "Onboarding continuity",
        context.onboarding_continuity,
        "- none captured yet",
    );
    let long_term = normalize_preformatted_block(
        context.long_term_memory_block,
        NO_LONG_TERM_MEMORY,
    );
    let reflection_block = reflection_memory_block(
        "pair chat",
        NORMAL_CHAT_REFLECTION_WEIGHT,
        context.reflection_summaries,
    );
    let normal_chat = crate::text::str_eq(context.topic_title, NORMAL_PAIR_CHAT_TITLE);
    let conversation = if context.previous_messages.len() == 0 {
        if normal_chat {
            String::from_str(FIRST_PAIR_CHAT_MESSAGE)
        } else {
            let listener_vars = [("listener", context.listener.name.as_str())];
            assert(vars_view(listener_vars@) =~= seq![("listener"@, context.listener.name@)]);
            PromptTemplate::new(FIRST_TOPIC_TURN_FRAME).render(&listener_vars)
        }
    } else {
        join_strings(context.previous_messages, "\n")
    };
    let personal_instruction = pair_personal_instruction_block(
        &context.speaker.personal_instruction,
    );
    let voice_evidence = pair_voice_evidence_block(context.speaker_voice_evidence);
    let recent_results = if context.recent_topic_results.len() == 0 {
        String::from_str(NO_RECENT_RESULTS)
    } else {
        let mut r = if normal_chat {
            String::from_str(PAIR_CHAT_RESULTS_NOTE)
        } else {
            String::from_str(TOPIC_RESULTS_NOTE)
        };
        r.append("\n");
        let joined = join_strings(context.recent_topic_results, "\n");
        r.append(joined.as_str());
        r
    };
    let transition_note = match context.transition_note {
        Some(n) => {
            if is_blank_str(n) {
                String::new()
            } else {
                let mut t = String::from_str("\nTransition note:\n");
                let trimmed_note = trimmed(n);
                t.append(trimmed_note.as_str());
                t.append("\n");
                t
            }
        },
        None => String::new(),
    };
    let callback_boundary = if normal_chat {
        PAIR_CHAT_RECALL_BOUNDARY
    } else {
        TOPIC_CALLBACK_BOUNDARY
    };
    let topic_anchor = if normal_chat {
        String::new()
    } else {
        let mut a = String::from_str("Current instruction: ");
        a.append(context.topic_title);
        a.append(" — stay grounded in this user instruction. ");
        a
    };
    let speaker = pair_identity_without_personal_instruction(context.speaker);
    let speaker_profile = pair_identity_block(&speaker);
    let tag_label = match context.tag_label {
        Some(t) => t,
        None => "none supplied",
    };
    let vars = [
        ("relevant_answers_block", relevant_answers_block.as_str()),
        ("onboarding_continuity_block", onboarding_continuity_block.as_str()),
        ("long_term_memory_block", long_term.as_str()),
        ("reflection_block", reflection_block.as_str()),
        ("speaker", context.speaker.name.as_str()),
        ("listener", context.listener.name.as_str()),
        ("requested_output_language", context.requested_output_language),
        ("tone", context.tone.label()),
        ("phase", context.directive.phase_label()),
        ("move_label", context.directive.move_kind.label()),
        ("move_instruction", context.directive.move_kind.instruction()),
        ("tag_label", tag_label),
        ("topic_title", context.topic_title),
        ("topic_prompt", context.topic_prompt),
        ("speaker_profile", speaker_profile.as_str()),
        ("speaker_personal_instruction", personal_instruction.as_str()),
        ("speaker_voice_evidence", voice_evidence.as_str()),
        ("conversation", conversation.as_str()),
        ("recent_results", recent_results.as_str()),
        ("transition_note", transition_note.as_str()),
        ("callback_boundary", callback_boundary),
        ("topic_anchor", topic_anchor.as_str()),
    ];
    let r = PromptTemplate::new(PAIR_TOPIC_MESSAGE_FRAME).render(&vars);
    proof {
        let c = context;
        let normal = is_normal_pair_chat(c.topic_title@);
        assert(normal == normal_chat);
        assert(conversation@ == pair_conversation_text(
            views_of(c.previous_messages@),
            normal,
            c.listener.name@,
        ));
        assert(recent_results@ == recent_results_text(views_of(c.recent_topic_results@), normal));
        assert(transition_note@ == transition_note_text(c.transition_note)) by {
            reveal_strlit("");
        }
        assert(topic_anchor@ == topic_anchor_text(c.topic_title@));
        assert(tag_label@ == match c.tag_label {
            Some(t) => t@,
            None => "none supplied"@,
        });
        let expected = seq![
            (
                "relevant_answers_block"@,
                bullet_list_text(
                    "Relevant onboarding answers"@,
                    views_of(c.relevant_onboarding_answers@),
                    "- none selected"@,
                ),
            ),
            (
                "onboarding_continuity_block"@,
                bullet_list_text(
                    "Onboarding continuity"@,
                    views_of(c.onboarding_continuity@),
                    "- none captured yet"@,
                ),
            ),
            (
                "long_term_memory_block"@,
                preformatted_text(c.long_term_memory_block@, NO_LONG_TERM_MEMORY@),
            ),
            (
                "reflection_block"@,
                reflection_memory_text(
                    "pair chat"@,
                    NORMAL_CHAT_REFLECTION_WEIGHT as nat,
                    views_of(c.reflection_summaries@),
                ),
            ),
            ("speaker"@, c.speaker.name@),
            ("listener"@, c.listener.name@),
            ("requested_output_language"@, c.requested_output_language@),
            ("tone"@, tone_label(c.tone)),
            ("phase"@, phase_of(c.directive.turn_index as int, c.directive.total_turns as int)),
            ("move_label"@, move_label(c.directive.move_kind)),
            ("move_instruction"@, move_instruction(c.directive.move_kind)),
            (
                "tag_label"@,
                match c.tag_label {
                    Some(t) => t@,
                    None => "none supplied"@,
                },
            ),
            ("topic_title"@, c.topic_title@),
            ("topic_prompt"@, c.topic_prompt@),
            (
                "speaker_profile"@,
                identity_pretty(without_personal_instruction(*c.speaker)),
            ),
            (
                "speaker_personal_instruction"@,
                personal_instruction_text(c.speaker.personal_instruction),
            ),
            ("speaker_voice_evidence"@, voice_evidence_text(views_of(c.speaker_voice_evidence@))),
            (
                "conversation"@,
                pair_conversation_text(views_of(c.previous_messages@), normal, c.listener.name@),
            ),
            (
                "recent_results"@,
                recent_results_text(views_of(c.recent_topic_results@), normal),
            ),
            ("transition_note"@, transition_note_text(c.transition_note)),
            (
                "callback_boundary"@,
                if normal {
                    PAIR_CHAT_RECALL_BOUNDARY@
                } else {
                    TOPIC_CALLBACK_BOUNDARY@
                },
            ),
            ("topic_anchor"@, topic_anchor_text(c.topic_title@)),
        ];
        assert(vars_view(vars@) =~= expected);
    }
    r
}

/// Everything a composed pair message is written from.
#[derive(Debug, Clone)]
pub struct PairComposePromptContext<'a> {
    pub actor: &'a PairShadowIdentity,
    pub listener: &'a PairShadowIdentity,
    pub actor_voice_evidence: &'a [String],
    pub relevant_onboarding_answers: &'a [String],
    pub onboarding_continuity: &'a [String],
    pub long_term_memory_block: &'a str,
    pub reflection_summaries: &'a [String],
    pub recent_messages: &'a [String],
    pub user_intent: &'a str,
    pub requested_output_language: &'a str,
}

/// The layout of a composed pair message input.
pub const PAIR_COMPOSE_MESSAGE_FRAME: &'static str = "Actor Shadow profile:\n{actor_profile}\n\nListener Shadow profile:\n{listener_profile}\n\nActor voice evidence:\n- {actor_voice_evidence}\n\n{relevant_answers_block}\n\n{onboarding_continuity_block}\n\n{long_term_memory_block}\n\n{reflection_block}\n\nRecent conversation:\n{conversation}\n\nRequested output language: {requested_output_language}\n\nThe user ({actor_name}) wants to say:\n{user_intent}\n\nWrite a single message from {actor_name} to {listener_name} that expresses the above intent in {actor_name}'s authentic voice and personality. Make it natural, on-brand for {actor_name}, and appropriate for the conversation context. Do not add explanations or meta-commentary. Output only the message text in the requested output language.";

/// The input for a message composed on behalf of the actor.
pub open spec fn pair_compose_message_text(c: PairComposePromptContext) -> Seq<char> {
    render_chars(
        PAIR_COMPOSE_MESSAGE_FRAME@,
        seq![
            ("actor_profile"@, identity_pretty(*c.actor)),
            ("listener_profile"@, identity_pretty(*c.listener)),
            (
                "actor_voice_evidence"@,
                lines_or_joined(
                    views_of(c.actor_voice_evidence@),
                    "\n- "@,
                    "No voice evidence available."@,
                ),
            ),
            (
                "relevant_answers_block"@,
                bullet_list_text(
                    "Relevant onboarding answers"@,
                    views_of(c.relevant_onboarding_answers@),
                    "- none selected"@,
                ),
            ),
            (
                "onboarding_continuity_block"@,
                bullet_list_text(
                    "Onboarding continuity"@,
                    views_of(c.onboarding_continuity@),
                    "- none captured yet"@,
                ),
            ),
            (
                "long_term_memory_block"@,
                preformatted_text(c.long_term_memory_block@, NO_LONG_TERM_MEMORY@),
            ),
            (
                "reflection_block"@,
                reflection_memory_text(
                    "pair chat"@,
                    NORMAL_CHAT_REFLECTION_WEIGHT as nat,
                    views_of(c.reflection_summaries@),
                ),
            ),
            (
                "conversation"@,
                lines_or(views_of(c.recent_messages@), "No previous messages in this conversation."@),
            ),
            ("requested_output_language"@, c.requested_output_language@),
            ("user_intent"@, c.user_intent@),
            ("actor_name"@, c.actor.name@),
            ("listener_name"@, c.listener.name@),
        ],
    )
}

/// The items joined with `sep`, or `empty` when there are none.
pub open spec fn lines_or_joined(items: Seq<Seq<char>>, sep: Seq<char>, empty: Seq<char>) -> Seq<
    char,
> {
    if items.len() == 0 {
        empty
    } else {
        join(items, sep)
    }
}

/// The input for a single message that the actor wants to send to the
/// listener: both profiles as JSON, the actor's voice evidence, the memory
/// blocks, the recent conversation, and the user's intent.
pub fn build_pair_compose_message_input(context: PairComposePromptContext<'_>) -> (s: String)
    ensures
        s@ == pair_compose_message_text(context),
{
    let relevant_answers_block = bullet_list_block(
        "Relevant onboarding answers",
        context.relevant_onboarding_answers,
        "- none selected",
    );
    let onboarding_continuity_block = bullet_list_block(
        "Onboarding continuity",
        context.onboarding_continuity,
        "- none captured yet",
    );
    let long_term = normalize_preformatted_block(
        context.long_term_memory_block,
        NO_LONG_TERM_MEMORY,
    );
    let reflection_block = reflection_memory_block(
        "pair chat",
        NORMAL_CHAT_REFLECTION_WEIGHT,
        context.reflection_summaries,
    );
    let voice_evidence = if context.actor_voice_evidence.len() == 0 {
        String::from_str("No voice evidence available.")
    } else {
        join_strings(context.actor_voice_evidence, "\n- ")
    };
    let conversation = lines_block(
        context.recent_messages,
        "No previous messages in this conversation.",
    );
    let actor_profile = pair_identity_block(context.actor);
    let listener_profile = pair_identity_block(context.listener);
    let vars = [
        ("actor_profile", actor_profile.as_str()),
        ("listener_profile", listener_profile.as_str()),
        ("actor_voice_evidence", voice_evidence.as_str()),
        ("relevant_answers_block", relevant_answers_block.as_str()),
        ("onboarding_continuity_block", onboarding_continuity_block.as_str()),
        ("long_term_memory_block", long_term.as_str()),
        ("reflection_block", reflection_block.as_str()),
        ("conversation", conversation.as_str()),
        ("requested_output_language", context.requested_output_language),
        ("user_intent", context.user_intent),
        ("actor_name", context.actor.name.as_str()),
        ("listener_name", context.listener.name.as_str()),
    ];
    let r = PromptTemplate::new(PAIR_COMPOSE_MESSAGE_FRAME).render(&vars);
    proof {
        let c = context;
        let expected = seq![
            ("actor_profile"@, identity_pretty(*c.actor)),
            ("listener_profile"@, identity_pretty(*c.listener)),
            (
                "actor_voice_evidence"@,
                lines_or_joined(
                    views_of(c.actor_voice_evidence@),
                    "\n- "@,
                    "No voice evidence available."@,
                ),
            ),
            (
                "relevant_answers_block"@,
                bullet_list_text(
                    "Relevant onboarding answers"@,
                    views_of(c.relevant_onboarding_answers@),
                    "- none selected"@,
                ),
            ),
            (
                "onboarding_continuity_block"@,
                bullet_list_text(
                    "Onboarding continuity"@,
                    views_of(c.onboarding_continuity@),
                    "- none captured yet"@,
                ),
            ),
            (
                "long_term_memory_block"@,
                preformatted_text(c.long_term_memory_block@, NO_LONG_TERM_MEMORY@),
            ),
            (
                "reflection_block"@,
                reflection_memory_text(
                    "pair chat"@,
                    NORMAL_CHAT_REFLECTION_WEIGHT as nat,
                    views_of(c.reflection_summaries@),
                ),
            ),
            (
                "conversation"@,
                lines_or(views_of(c.recent_messages@), "No previous messages in this conversation."@),
            ),
            ("requested_output_language"@, c.requested_output_language@),
            ("user_intent"@, c.user_intent@),
            ("actor_name"@, c.actor.name@),
            ("listener_name"@, c.listener.name@),
        ];
        assert(vars_view(vars@) =~= expected);
    }
    r
}

} // verus!
