use vstd::prelude::*;

verus! {

/// How a Shadow talks: dialect, formality, verbal markers and sentence shape.
#[derive(Debug, Clone, PartialEq, Eq)]
pub struct SpeechStyle {
    pub dialect: Option<String>,
    pub formality: String,
    pub markers: Vec<String>,
    pub sentence_pattern: String,
}

/// The profile part of a Shadow, as handed to a prompt.
#[derive(Debug, Clone, PartialEq, Eq)]
pub struct PromptReadyProfile {
    pub headline: String,
    pub stance: String,
    pub source_answers: Vec<String>,
}

/// The persona part of a Shadow, as handed to a prompt.
#[derive(Debug, Clone, PartialEq, Eq)]
pub struct PromptReadyPersona {
    pub tone: String,
    pub traits: Vec<String>,
    pub speech_style: Option<SpeechStyle>,
}

/// The reasoning policy of a Shadow, as handed to a prompt.
#[derive(Debug, Clone, PartialEq, Eq)]
pub struct PromptReadyReasoningPolicy {
    pub decision_style: String,
    pub anchor: String,
}

/// One side of a Pair / Topic Talk: a Shadow's name and what is known of it.
#[derive(Debug, Clone, PartialEq, Eq)]
pub struct PairShadowIdentity {
    pub name: String,
    pub personal_instruction: Option<String>,
    pub profile: Option<PromptReadyProfile>,
    pub persona: Option<PromptReadyPersona>,
    pub reasoning_policy: Option<PromptReadyReasoningPolicy>,
}

} // verus!
