use vstd::prelude::*;

use crate::prompt_inputs::SpeechStyle;
use crate::text::{is_blank, is_blank_str, trim, trimmed};

verus! {

/// The kind of setup probe a challenge prefers.
#[derive(Debug, Clone, Copy, PartialEq, Eq, Structural)]
pub enum SetupProbeKind {
    InitialWorkstyleProbe,
    ProjectShiftReflection,
    DeadlineQualityTradeoff,
}

/// A prompt that a Shadow answers.
#[derive(Debug, Clone, PartialEq, Eq)]
pub struct ShadowChallenge {
    pub title: Option<String>,
    pub prompt_text: String,
    pub tag_label: Option<String>,
    pub system_context: Option<String>,
    pub preferred_probe_kind: Option<SetupProbeKind>,
}

/// A Shadow's stored profile.
#[derive(Debug, Clone, PartialEq, Eq)]
pub struct ShadowProfile {
    pub headline: String,
    pub stance: String,
    pub source_answers: Vec<String>,
    pub tone: String,
    pub traits: Vec<String>,
    pub decision_style: String,
    pub anchor: String,
    pub speech_style: Option<SpeechStyle>,
}

/// The title and body of a Shadow's answer.
#[derive(Debug, Clone, PartialEq, Eq)]
pub struct ShadowAnswerContent {
    pub title: String,
    pub body: String,
}

/// The text of an answer: the trimmed title alone when the body is blank,
/// otherwise the trimmed title and the trimmed body separated by a blank line.
pub open spec fn final_answer_text_of(title: Seq<char>, body: Seq<char>) -> Seq<char> {
    if is_blank(body) {
        trim(title)
    } else {
        trim(title) + "\n\n"@ + trim(body)
    }
}

impl ShadowAnswerContent {
    /// The text of the answer as it is published.
    pub fn final_answer_text(&self) -> (text: String)
        ensures
            text@ == final_answer_text_of(self.title@, self.body@),
    {
        let title = trimmed(self.title.as_str());
        if is_blank_str(self.body.as_str()) {
            title
        } else {
            let mut text = title;
            text.append("\n\n");
            let body = trimmed(self.body.as_str());
            text.append(body.as_str());
            text
        }
    }
}

/// An answer together with the deltas shown while it was produced.
#[derive(Debug, Clone, PartialEq, Eq)]
pub struct ShadowAnswer {
    pub content: ShadowAnswerContent,
    pub display_deltas: Vec<String>,
}

/// The provider and model that produced an answer.
#[derive(Debug, Clone, PartialEq, Eq)]
pub struct GenerationEngine {
    pub provider: &'static str,
    pub model: String,
}

/// A failure reported by a generation provider.
#[derive(Debug, Clone, PartialEq, Eq)]
pub struct ShadowGenerationFailure {
    pub code: String,
    pub message: String,
}

impl ShadowGenerationFailure {
    /// The failure as text: its code, a colon and a space, then its message.
    pub fn display_text(&self) -> (text: String)
        ensures
            text@ == self.code@ + ": "@ + self.message@,
    {
        let mut text = self.code.clone();
        text.append(": ");
        text.append(self.message.as_str());
        text
    }
}

} // verus!
