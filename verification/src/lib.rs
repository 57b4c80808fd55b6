//! Prompt-building primitives: templates, locale data and prompt assembly.
pub mod assets;
pub mod builders;
pub mod drop_seed;
pub mod error;
pub mod json;
pub mod knowledge;
pub mod locale;
pub mod pair_topic;
pub mod prompt_inputs;
pub mod template;
pub mod text;
pub mod time_context;
pub mod types;

pub use builders::{
    build_chat_system_prompt, build_chat_system_prompt_with_current_time,
    build_chat_system_prompt_with_time_context, build_onboarding_system_prompt,
    build_onboarding_system_prompt_with_time_context, build_pair_compose_system_prompt,
    build_pair_topic_system_prompt_with_time_context, pair_topic_result_mode_prompt,
    preview_system_prompt, preview_system_prompt_with_context, profile_system_prompt,
    requested_output_language,
};
pub use drop_seed::{render_drop_definitions_for_locale, drop_definitions, DropDefinition};
pub use error::{find_unmatched_placeholder, ShadowCoreError};
pub use knowledge::{
    build_chat_context_planner_instructions, build_explicit_correction_input,
    build_onboarding_phase_instructions, build_onboarding_prompt_input,
    build_onboarding_sdq_phase_instructions, build_onboarding_sdq_turn_note,
    build_pair_compose_message_input, build_pair_topic_message_input, build_reflection_reply_input,
    build_reflection_reply_instructions, build_summary_refresh_instructions,
    build_translation_chat_instructions, build_translation_preview_instructions, bullet_list_block,
    chat_input, chat_input_with_reflection_memory,
    chat_input_with_reflection_memory_and_long_term_context, classify_pair_topic_tone,
    explicit_correction_instructions, normalize_preformatted_block,
    onboarding_phase_completed_instructions, onboarding_phase_greeting_instructions,
    onboarding_phase_headline_confirmation_instructions, onboarding_phase_not_started_instructions,
    preview_input, preview_input_with_reflection_memory, profile_input, PairComposePromptContext,
    PairTopicPromptContext, NORMAL_CHAT_REFLECTION_WEIGHT, QUESTION_ANSWER_REFLECTION_WEIGHT,
};
pub use locale::{LocalePhrases, ShadowLocale, SystemPrompts};
pub use pair_topic::{
    pair_normal_pair_chat_handoff_transition_note, pair_topic_initial_message_transition_note,
    PairTopicTone, PairTurnDirective, PairTurnMove,
};
pub use prompt_inputs::{
    PairShadowIdentity, PromptReadyPersona, PromptReadyProfile, PromptReadyReasoningPolicy,
    SpeechStyle,
};
pub use template::PromptTemplate;
pub use time_context::{PromptTimeContext, TimeZoneStatus, UtcTimestamp};
pub use types::{
    GenerationEngine, SetupProbeKind, ShadowAnswer, ShadowAnswerContent, ShadowChallenge,
    ShadowGenerationFailure, ShadowProfile,
};
