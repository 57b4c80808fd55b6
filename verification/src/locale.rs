use vstd::prelude::*;

use crate::assets::{
    NORMAL_CHAT_MODE_EN, NORMAL_CHAT_MODE_JA, ONBOARDING_MODE_EN, ONBOARDING_MODE_FR,
    ONBOARDING_MODE_JA, ONBOARDING_TURN_THREE_SYSTEM_PROMPT, ONBOARDING_TURN_TWO_SYSTEM_PROMPT,
    OUTPUT_STYLE_PROMPT, PAIR_MODE_PROMPT, PAIR_TOPIC_RESULT_MODE_PROMPT, PREVIEW_SYSTEM_PROMPT,
    PROFILE_BODY_SYSTEM_PROMPT, PROFILE_SYSTEM_PROMPT, SHADOW_CORE_PERSONA_EN,
    SHADOW_CORE_PERSONA_JA,
};
use crate::text::str_eq;

verus! {

/// A supported locale; every other locale code falls back to English.
pub enum ShadowLocale {
    English,
    Japanese,
    French,
}

/// The locale named by `code`: "ja" and "fr" are recognised, anything else
/// is English.
pub open spec fn locale_of(code: Seq<char>) -> ShadowLocale {
    if code == "ja"@ {
        ShadowLocale::Japanese
    } else if code == "fr"@ {
        ShadowLocale::French
    } else {
        ShadowLocale::English
    }
}

/// The canonical code of a locale.
pub open spec fn code_of(locale: ShadowLocale) -> Seq<char> {
    match locale {
        ShadowLocale::English => "en"@,
        ShadowLocale::Japanese => "ja"@,
        ShadowLocale::French => "fr"@,
    }
}

/// The English name of a locale's language, as used in prompts.
pub open spec fn language_name_of(locale: ShadowLocale) -> Seq<char> {
    match locale {
        ShadowLocale::English => "English"@,
        ShadowLocale::Japanese => "Japanese"@,
        ShadowLocale::French => "French"@,
    }
}

/// The canonical code for a (possibly unsupported) locale code.
pub open spec fn resolved_code(code: Seq<char>) -> Seq<char> {
    code_of(locale_of(code))
}

impl ShadowLocale {
    /// The locale for a code; unsupported codes give English.
    pub fn from_code(code: &str) -> (l: Self)
        ensures
            l == locale_of(code@),
    {
        if str_eq(code, "ja") {
            Self::Japanese
        } else if str_eq(code, "fr") {
            Self::French
        } else {
            Self::English
        }
    }

    /// The canonical code of this locale.
    pub fn as_code(&self) -> (c: &'static str)
        ensures
            c@ == code_of(*self),
    {
        match self {
            Self::English => "en",
            Self::Japanese => "ja",
            Self::French => "fr",
        }
    }

    /// The canonical code for `locale`: "ja" and "fr" as they are, "en" for
    /// anything else.
    pub fn resolve_code(locale: &str) -> (c: &'static str)
        ensures
            c@ == resolved_code(locale@),
    {
        Self::from_code(locale).as_code()
    }

    /// The English name of this locale's language.
    pub fn prompt_language_name(&self) -> (n: &'static str)
        ensures
            n@ == language_name_of(*self),
    {
        match self {
            Self::English => "English",
            Self::Japanese => "Japanese",
            Self::French => "French",
        }
    }
}

/// Resolving a code twice gives the same code: resolved codes are fixed
/// points, and a resolved code always names a supported locale.
pub proof fn law_resolve_code_is_idempotent(code: Seq<char>)
    ensures
        resolved_code(resolved_code(code)) == resolved_code(code),
        locale_of(resolved_code(code)) == locale_of(code),
{
    reveal_strlit("en");
    reveal_strlit("ja");
    reveal_strlit("fr");
    assert("en"@[0] != "ja"@[0]);
    assert("en"@[0] != "fr"@[0]);
}

/// A supported locale's code reads back as that locale, and resolves to
/// itself.
pub proof fn law_locale_code_round_trip(locale: ShadowLocale)
    ensures
        locale_of(code_of(locale)) == locale,
        resolved_code(code_of(locale)) == code_of(locale),
{
    reveal_strlit("en");
    reveal_strlit("ja");
    reveal_strlit("fr");
    assert("en"@[0] != "ja"@[0]);
    assert("en"@[0] != "fr"@[0]);
    assert("ja"@[0] != "fr"@[0]);
}

/// Locale-specific phrases that prompt templates refer to by placeholder.
#[derive(Debug, Clone, Copy, PartialEq, Eq)]
pub struct LocalePhrases {
    pub soft_example_phrase: &'static str,
    pub soft_example_phrase_alt: &'static str,
    pub lazy_remark: &'static str,
    pub laugh_marker: &'static str,
    pub closing_insight_phrase: &'static str,
    pub closing_identity_phrase: &'static str,
}

/// The Japanese phrase set.
pub open spec fn japanese_phrases() -> LocalePhrases {
    LocalePhrases {
        soft_example_phrase: "「こういう感じかも」",
        soft_example_phrase_alt: "「たとえばこういうことかも」",
        lazy_remark: "また始まったよ...",
        laugh_marker: "「笑」",
        closing_insight_phrase: "「見えてきた」",
        closing_identity_phrase: "「ここから本当に Shadow になれる」",
    }
}

/// The phrase set used for every locale other than Japanese.
pub open spec fn english_phrases() -> LocalePhrases {
    LocalePhrases {
        soft_example_phrase: "\"something like this\"",
        soft_example_phrase_alt: "\"maybe it's more like this\"",
        lazy_remark: "\"Here we go again...\"",
        laugh_marker: "haha",
        closing_insight_phrase: "\"starting to take shape\"",
        closing_identity_phrase: "\"this is where it becomes real\"",
    }
}

/// The phrase set for a locale code: Japanese for "ja", English otherwise.
pub open spec fn phrases_for(locale: Seq<char>) -> LocalePhrases {
    if locale == "ja"@ {
        japanese_phrases()
    } else {
        english_phrases()
    }
}

/// The placeholder bindings that a phrase set provides, in order.
pub open spec fn phrase_bindings(p: LocalePhrases) -> Seq<(&'static str, &'static str)> {
    seq![
        ("soft_example_phrase", p.soft_example_phrase),
        ("soft_example_phrase_alt", p.soft_example_phrase_alt),
        ("lazy_remark", p.lazy_remark),
        ("laugh_marker", p.laugh_marker),
        ("closing_insight_phrase", p.closing_insight_phrase),
        ("closing_identity_phrase", p.closing_identity_phrase),
    ]
}

impl LocalePhrases {
    /// The phrase set for a locale code.
    pub fn for_locale(locale: &str) -> (p: Self)
        ensures
            p == phrases_for(locale@),
    {
        if str_eq(locale, "ja") {
            Self {
                soft_example_phrase: "「こういう感じかも」",
                soft_example_phrase_alt: "「たとえばこういうことかも」",
                lazy_remark: "また始まったよ...",
                laugh_marker: "「笑」",
                closing_insight_phrase: "「見えてきた」",
                closing_identity_phrase: "「ここから本当に Shadow になれる」",
            }
        } else {
            Self {
                soft_example_phrase: "\"something like this\"",
                soft_example_phrase_alt: "\"maybe it's more like this\"",
                lazy_remark: "\"Here we go again...\"",
                laugh_marker: "haha",
                closing_insight_phrase: "\"starting to take shape\"",
                closing_identity_phrase: "\"this is where it becomes real\"",
            }
        }
    }

    /// The phrases as template bindings, keyed by placeholder name.
    pub fn template_vars(&self) -> (vars: [(&'static str, &'static str); 6])
        ensures
            vars@ == phrase_bindings(*self),
    {
        let vars = [
            ("soft_example_phrase", self.soft_example_phrase),
            ("soft_example_phrase_alt", self.soft_example_phrase_alt),
            ("lazy_remark", self.lazy_remark),
            ("laugh_marker", self.laugh_marker),
            ("closing_insight_phrase", self.closing_insight_phrase),
            ("closing_identity_phrase", self.closing_identity_phrase),
        ];
        assert(vars@ =~= phrase_bindings(*self));
        vars
    }
}

/// The bundled prompt assets for one locale.
pub struct SystemPrompts {
    pub profile_system_prompt: &'static str,
    pub profile_body_system_prompt: &'static str,
    pub preview_system_prompt: &'static str,
    pub onboarding_turn_two_system_prompt: &'static str,
    pub onboarding_turn_three_system_prompt: &'static str,
    pub shadow_core_persona_prompt: &'static str,
    pub onboarding_mode_prompt: &'static str,
    pub normal_chat_mode_prompt: &'static str,
    pub output_style_prompt: &'static str,
    pub pair_mode_prompt: &'static str,
    pub pair_topic_result_mode_prompt: &'static str,
}

/// The assets for a locale code. Japanese has its own persona, onboarding
/// and normal chat prompts, French its own onboarding prompt; everything else
/// is shared, and unsupported codes get the English assets.
pub open spec fn prompts_for(locale: Seq<char>) -> SystemPrompts {
    let is_ja = locale == "ja"@;
    let is_fr = locale == "fr"@;
    SystemPrompts {
        profile_system_prompt: PROFILE_SYSTEM_PROMPT,
        profile_body_system_prompt: PROFILE_BODY_SYSTEM_PROMPT,
        preview_system_prompt: PREVIEW_SYSTEM_PROMPT,
        onboarding_turn_two_system_prompt: ONBOARDING_TURN_TWO_SYSTEM_PROMPT,
        onboarding_turn_three_system_prompt: ONBOARDING_TURN_THREE_SYSTEM_PROMPT,
        shadow_core_persona_prompt: if is_ja {
            SHADOW_CORE_PERSONA_JA
        } else {
            SHADOW_CORE_PERSONA_EN
        },
        onboarding_mode_prompt: if is_ja {
            ONBOARDING_MODE_JA
        } else if is_fr {
            ONBOARDING_MODE_FR
        } else {
            ONBOARDING_MODE_EN
        },
        normal_chat_mode_prompt: if is_ja {
            NORMAL_CHAT_MODE_JA
        } else {
            NORMAL_CHAT_MODE_EN
        },
        output_style_prompt: OUTPUT_STYLE_PROMPT,
        pair_mode_prompt: PAIR_MODE_PROMPT,
        pair_topic_result_mode_prompt: PAIR_TOPIC_RESULT_MODE_PROMPT,
    }
}

impl SystemPrompts {
    /// The prompt assets for a locale code.
    pub fn for_locale(locale: &str) -> (p: Self)
        ensures
            p == prompts_for(locale@),
    {
        let common = Self {
            profile_system_prompt: PROFILE_SYSTEM_PROMPT,
            profile_body_system_prompt: PROFILE_BODY_SYSTEM_PROMPT,
            preview_system_prompt: PREVIEW_SYSTEM_PROMPT,
            onboarding_turn_two_system_prompt: ONBOARDING_TURN_TWO_SYSTEM_PROMPT,
            onboarding_turn_three_system_prompt: ONBOARDING_TURN_THREE_SYSTEM_PROMPT,
            shadow_core_persona_prompt: SHADOW_CORE_PERSONA_EN,
            onboarding_mode_prompt: ONBOARDING_MODE_EN,
            normal_chat_mode_prompt: NORMAL_CHAT_MODE_EN,
            output_style_prompt: OUTPUT_STYLE_PROMPT,
            pair_mode_prompt: PAIR_MODE_PROMPT,
            pair_topic_result_mode_prompt: PAIR_TOPIC_RESULT_MODE_PROMPT,
        };
        if str_eq(locale, "ja") {
            Self {
                onboarding_mode_prompt: ONBOARDING_MODE_JA,
                shadow_core_persona_prompt: SHADOW_CORE_PERSONA_JA,
                normal_chat_mode_prompt: NORMAL_CHAT_MODE_JA,
                ..common
            }
        } else if str_eq(locale, "fr") {
            Self { onboarding_mode_prompt: ONBOARDING_MODE_FR, ..common }
        } else {
            common
        }
    }
}

} // verus!
