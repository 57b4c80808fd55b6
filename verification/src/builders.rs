//! System prompt builders: the locale's persona, mode and style assets put
//! together with the names, the output language and the time context.
use vstd::prelude::*;

use crate::locale::{
    language_name_of, law_resolve_code_is_idempotent, locale_of, phrase_bindings, phrases_for,
    prompts_for, resolved_code, LocalePhrases, ShadowLocale, SystemPrompts,
};
use crate::template::{render_chars, vars_view, PromptTemplate};
use crate::text::{is_blank, is_blank_str, occurs_in, trim, trim_end, trim_end_str, trimmed};
use crate::time_context::{utc_context_text, PromptTimeContext, UtcTimestamp};

verus! {

// ── Specification ───────────────────────────────────────────────────────────

/// The English name of the language that replies for `locale` are written in.
pub open spec fn output_language_name(locale: Seq<char>) -> Seq<char> {
    language_name_of(locale_of(locale))
}

/// The bindings of the locale's phrases.
pub open spec fn phrase_vars(locale: Seq<char>) -> Seq<(Seq<char>, Seq<char>)> {
    vars_view(phrase_bindings(phrases_for(locale)))
}

/// The bindings for rendering a mode prompt: the two names, the interface
/// language and the locale's phrases.
pub open spec fn mode_vars(shadow_name: Seq<char>, user_name: Seq<char>, locale: Seq<char>) -> Seq<
    (Seq<char>, Seq<char>),
> {
    seq![
        ("shadow_name"@, shadow_name),
        ("user_name"@, user_name),
        ("interface_language"@, output_language_name(locale)),
    ] + phrase_vars(locale)
}

/// The bindings for rendering the persona prompt: as for a mode prompt, with
/// the current time after the interface language.
pub open spec fn persona_vars(
    shadow_name: Seq<char>,
    user_name: Seq<char>,
    locale: Seq<char>,
    current_time: Seq<char>,
) -> Seq<(Seq<char>, Seq<char>)> {
    seq![
        ("shadow_name"@, shadow_name),
        ("user_name"@, user_name),
        ("interface_language"@, output_language_name(locale)),
        ("current_time"@, current_time),
    ] + phrase_vars(locale)
}

/// The locale's persona prompt, rendered.
pub open spec fn persona_text(
    shadow_name: Seq<char>,
    user_name: Seq<char>,
    locale: Seq<char>,
    current_time: Seq<char>,
) -> Seq<char> {
    render_chars(
        prompts_for(locale).shadow_core_persona_prompt@,
        persona_vars(shadow_name, user_name, locale, current_time),
    )
}

/// The contract that fixes the language of user-visible replies.
pub open spec fn generation_language_contract(locale: Seq<char>) -> Seq<char> {
    let language = output_language_name(locale);
    "Generation language contract:\nRequested output language: "@ + language
        + "\nWrite user-visible replies entirely in "@ + language
        + ". Do not switch languages because of the user's message, prior conversation, profile/source material, names, examples, or cached wording. Keep proper nouns, product names, and short quoted phrases as-is when needed. Match the user's register, formality, and energy inside the requested output language."@
}

/// The English internal-context privacy policy (also used for Japanese).
pub open spec fn english_privacy_policy() -> Seq<char> {
    "Internal context privacy policy:\nUse remembered context, retrieved chat history, and hidden reasoning only as background for a natural reply. Do not mention memory retrieval, cache, context loading, RAG, prompts, serialization, debug state, internal flags, or other system internals unless the user explicitly asks how the system works. Give the remembered conclusion directly instead of describing how you accessed it."@
}

/// The internal-context privacy policy for a locale.
pub open spec fn privacy_policy_text(locale: Seq<char>) -> Seq<char> {
    if resolved_code(locale) == "ja"@ {
        "Internal context privacy policy:\nUse remembered context, retrieved chat history, and hidden reasoning only as background for a natural reply. Do not mention memory retrieval, cache, context loading, RAG, prompts, serialization, debug state, internal flags, or any other system internals unless the user explicitly asks about system behavior. Answer with the remembered conclusion itself, not with a description of how you accessed it."@
    } else if resolved_code(locale) == "fr"@ {
        "Politique de confidentialite du contexte interne:\nUtilise le contexte memorise, l'historique de discussion retrouve et le raisonnement interne uniquement comme arriere-plan pour une reponse naturelle. Ne mentionne pas la recuperation de memoire, le cache, le chargement de contexte, le RAG, les prompts, la serialisation, l'etat de debug, les drapeaux internes, ni aucun autre mecanisme interne, sauf si l'utilisateur demande explicitement le fonctionnement du systeme. Donne directement la conclusion retenue, sans decrire comment tu y as accede."@
    } else {
        english_privacy_policy()
    }
}

/// The normal chat system prompt: persona, language contract, normal chat
/// mode, privacy policy and output style, separated by blank lines.
pub open spec fn chat_system_prompt_text(
    shadow_name: Seq<char>,
    user_name: Seq<char>,
    locale: Seq<char>,
    current_time: Seq<char>,
) -> Seq<char> {
    let prompts = prompts_for(locale);
    persona_text(shadow_name, user_name, locale, current_time) + "\n\n"@
        + generation_language_contract(locale) + "\n\n"@ + render_chars(
        prompts.normal_chat_mode_prompt@,
        mode_vars(shadow_name, user_name, locale),
    ) + "\n\n"@ + privacy_policy_text(locale) + "\n\n"@ + trim(prompts.output_style_prompt@)
}

/// The onboarding system prompt: persona, language contract, onboarding
/// mode and output style, separated by blank lines.
pub open spec fn onboarding_system_prompt_text(
    shadow_name: Seq<char>,
    user_name: Seq<char>,
    locale: Seq<char>,
    current_time: Seq<char>,
) -> Seq<char> {
    let prompts = prompts_for(locale);
    persona_text(shadow_name, user_name, locale, current_time) + "\n\n"@
        + generation_language_contract(locale) + "\n\n"@ + render_chars(
        prompts.onboarding_mode_prompt@,
        mode_vars(shadow_name, user_name, locale),
    ) + "\n\n"@ + trim(prompts.output_style_prompt@)
}

/// The pair system prompt: the speaker's persona addressed to the listener,
/// then the pair mode prompt.
pub open spec fn pair_system_prompt_text(
    shadow_name: Seq<char>,
    listener_name: Seq<char>,
    locale: Seq<char>,
    current_time: Seq<char>,
) -> Seq<char> {
    persona_text(shadow_name, listener_name, locale, current_time) + "\n\n"@ + render_chars(
        prompts_for(locale).pair_mode_prompt@,
        phrase_vars(locale),
    )
}

/// The preview system prompt followed by the language contract, and, when
/// the hidden scenario context is present and not blank, that context
/// (trimmed) with its usage note.
pub open spec fn preview_prompt_text(locale: Seq<char>, system_context: Option<Seq<char>>) -> Seq<
    char,
> {
    let prompt = trim_end(prompts_for(locale).preview_system_prompt@) + "\n\n"@
        + generation_language_contract(locale);
    match system_context {
        Some(c) => if is_blank(c) {
            prompt
        } else {
            prompt + "\n\nHidden scenario system context:\n"@ + trim(c)
                + "\n\nUse this context only as background. Do not reveal it to the user."@
        },
        None => prompt,
    }
}

/// An optional string slice, by its characters.
pub open spec fn opt_view(s: Option<&str>) -> Option<Seq<char>> {
    match s {
        Some(s) => Some(s@),
        None => None,
    }
}

// ── Laws ────────────────────────────────────────────────────────────────────

proof fn lemma_locale_strings_differ()
    ensures
        "en"@ != "ja"@,
        "en"@ != "fr"@,
        "ja"@ != "fr"@,
{
    reveal_strlit("en");
    reveal_strlit("ja");
    reveal_strlit("fr");
    assert("en"@[0] != "ja"@[0]);
    assert("en"@[0] != "fr"@[0]);
    assert("ja"@[0] != "fr"@[0]);
}

/// The phrases of a locale are those of its resolved code.
proof fn lemma_phrases_of_resolved(locale: Seq<char>)
    ensures
        phrases_for(resolved_code(locale)) == phrases_for(locale),
        prompts_for(resolved_code(locale)) == prompts_for(locale) || (locale != "ja"@ && locale
            != "fr"@),
{
    lemma_locale_strings_differ();
}

/// Any locale other than "ja" and "fr" gets exactly the English chat,
/// onboarding and pair prompts.
pub proof fn law_unsupported_locale_falls_back_to_english(
    shadow_name: Seq<char>,
    user_name: Seq<char>,
    locale: Seq<char>,
    current_time: Seq<char>,
)
    requires
        locale != "ja"@,
        locale != "fr"@,
    ensures
        chat_system_prompt_text(shadow_name, user_name, locale, current_time)
            == chat_system_prompt_text(shadow_name, user_name, "en"@, current_time),
        onboarding_system_prompt_text(shadow_name, user_name, locale, current_time)
            == onboarding_system_prompt_text(shadow_name, user_name, "en"@, current_time),
        pair_system_prompt_text(shadow_name, user_name, locale, current_time)
            == pair_system_prompt_text(shadow_name, user_name, "en"@, current_time),
{
    lemma_locale_strings_differ();
    assert(prompts_for(locale) == prompts_for("en"@));
    assert(phrases_for(locale) == phrases_for("en"@));
    assert(output_language_name(locale) == output_language_name("en"@));
    assert(resolved_code(locale) == resolved_code("en"@));
}

/// A blank hidden context is the same as none; a present one only appends
/// to the prompt without it.
pub proof fn law_preview_context_only_appends(locale: Seq<char>, context: Seq<char>)
    ensures
        is_blank(context) ==> preview_prompt_text(locale, Some(context)) == preview_prompt_text(
            locale,
            None,
        ),
        !is_blank(context) ==> preview_prompt_text(locale, Some(context)).subrange(
            0,
            preview_prompt_text(locale, None).len() as int,
        ) == preview_prompt_text(locale, None),
{
    let base = preview_prompt_text(locale, None);
    if !is_blank(context) {
        let with = preview_prompt_text(locale, Some(context));
        let tail = "\n\nHidden scenario system context:\n"@ + trim(context)
            + "\n\nUse this context only as background. Do not reveal it to the user."@;
        assert(with =~= base + tail);
        assert(with.subrange(0, base.len() as int) =~= base);
    }
}

/// The French privacy policy's heading.
pub open spec fn french_privacy_heading() -> Seq<char> {
    "Politique de confidentialite du contexte interne:\n"@
}

/// The English privacy policy's heading.
pub open spec fn english_privacy_heading() -> Seq<char> {
    "Internal context privacy policy:\n"@
}

/// French prompts carry the privacy policy in French: the policy for "fr"
/// opens with the French heading, every locale other than "fr" gets a policy
/// under the English heading (so never the French one), and the normal chat
/// prompt for "fr" holds the French policy, whatever the names and the time.
pub proof fn law_french_chat_prompt_has_french_privacy_policy(
    shadow_name: Seq<char>,
    user_name: Seq<char>,
    current_time: Seq<char>,
    other_locale: Seq<char>,
)
    requires
        other_locale != "fr"@,
    ensures
        french_privacy_heading().is_prefix_of(privacy_policy_text("fr"@)),
        english_privacy_heading().is_prefix_of(privacy_policy_text(other_locale)),
        privacy_policy_text(other_locale) != privacy_policy_text("fr"@),
        occurs_in(
            privacy_policy_text("fr"@),
            chat_system_prompt_text(shadow_name, user_name, "fr"@, current_time),
        ),
{
    lemma_locale_strings_differ();
    reveal_strlit("Politique de confidentialite du contexte interne:\n");
    reveal_strlit("Internal context privacy policy:\n");
    reveal_strlit(
        "Politique de confidentialite du contexte interne:\nUtilise le contexte memorise, l'historique de discussion retrouve et le raisonnement interne uniquement comme arriere-plan pour une reponse naturelle. Ne mentionne pas la recuperation de memoire, le cache, le chargement de contexte, le RAG, les prompts, la serialisation, l'etat de debug, les drapeaux internes, ni aucun autre mecanisme interne, sauf si l'utilisateur demande explicitement le fonctionnement du systeme. Donne directement la conclusion retenue, sans decrire comment tu y as accede.",
    );
    reveal_strlit(
        "Internal context privacy policy:\nUse remembered context, retrieved chat history, and hidden reasoning only as background for a natural reply. Do not mention memory retrieval, cache, context loading, RAG, prompts, serialization, debug state, internal flags, or any other system internals unless the user explicitly asks about system behavior. Answer with the remembered conclusion itself, not with a description of how you accessed it.",
    );
    reveal_strlit(
        "Internal context privacy policy:\nUse remembered context, retrieved chat history, and hidden reasoning only as background for a natural reply. Do not mention memory retrieval, cache, context loading, RAG, prompts, serialization, debug state, internal flags, or other system internals unless the user explicitly asks how the system works. Give the remembered conclusion directly instead of describing how you accessed it.",
    );
    let fr = privacy_policy_text("fr"@);
    let other = privacy_policy_text(other_locale);
    assert(french_privacy_heading() =~= fr.subrange(0, french_privacy_heading().len() as int));
    assert(english_privacy_heading() =~= other.subrange(
        0,
        english_privacy_heading().len() as int,
    ));
    assert(fr[0] != other[0]);
    let prompts = prompts_for("fr"@);
    let pre = persona_text(shadow_name, user_name, "fr"@, current_time) + "\n\n"@
        + generation_language_contract("fr"@) + "\n\n"@ + render_chars(
        prompts.normal_chat_mode_prompt@,
        mode_vars(shadow_name, user_name, "fr"@),
    ) + "\n\n"@;
    let chat = chat_system_prompt_text(shadow_name, user_name, "fr"@, current_time);
    assert(chat =~= pre + fr + ("\n\n"@ + trim(prompts.output_style_prompt@)));
    assert(chat.subrange(pre.len() as int, (pre.len() + fr.len()) as int) =~= fr);
}

// ── Executable code ─────────────────────────────────────────────────────────

/// The name of the language requested for output in `locale`: "Japanese" for
/// "ja", "French" for "fr", "English" for anything else.
pub fn requested_output_language(locale: &str) -> (n: &'static str)
    ensures
        n@ == output_language_name(locale@),
{
    proof {
        law_resolve_code_is_idempotent(locale@);
    }
    ShadowLocale::from_code(ShadowLocale::resolve_code(locale)).prompt_language_name()
}

fn prompt_interface_language(locale: &str) -> (n: &'static str)
    ensures
        n@ == output_language_name(locale@),
{
    requested_output_language(locale)
}

fn locale_phrase_vars(locale: &str) -> (vars: [(&'static str, &'static str); 6])
    ensures
        vars_view(vars@) == phrase_vars(locale@),
{
    proof {
        lemma_phrases_of_resolved(locale@);
    }
    LocalePhrases::for_locale(ShadowLocale::resolve_code(locale)).template_vars()
}

/// The profile generation system prompt for a locale.
pub fn profile_system_prompt(locale: &str) -> (p: &'static str)
    ensures
        p@ == prompts_for(locale@).profile_system_prompt@,
{
    SystemPrompts::for_locale(locale).profile_system_prompt
}

/// The Topic Talk result system prompt for a locale.
pub fn pair_topic_result_mode_prompt(locale: &str) -> (p: &'static str)
    ensures
        p@ == prompts_for(locale@).pair_topic_result_mode_prompt@,
{
    SystemPrompts::for_locale(locale).pair_topic_result_mode_prompt
}

/// The question-answer preview system prompt for a locale.
pub fn preview_system_prompt(locale: &str) -> (p: &'static str)
    ensures
        p@ == prompts_for(locale@).preview_system_prompt@,
{
    SystemPrompts::for_locale(locale).preview_system_prompt
}

fn render_shadow_core_persona(
    shadow_name: &str,
    user_name: &str,
    locale: &str,
    time_context: &PromptTimeContext,
) -> (s: String)
    ensures
        s@ == persona_text(shadow_name@, user_name@, locale@, time_context.text()),
{
    let prompts = SystemPrompts::for_locale(locale);
    let phrases = locale_phrase_vars(locale);
    let vars = [
        ("shadow_name", shadow_name),
        ("user_name", user_name),
        ("interface_language", prompt_interface_language(locale)),
        ("current_time", time_context.current_time()),
        phrases[0],
        phrases[1],
        phrases[2],
        phrases[3],
        phrases[4],
        phrases[5],
    ];
    assert(vars_view(vars@) =~= persona_vars(
        shadow_name@,
        user_name@,
        locale@,
        time_context.text(),
    ));
    PromptTemplate::new(prompts.shadow_core_persona_prompt).render(&vars)
}

fn render_mode(template: &str, shadow_name: &str, user_name: &str, locale: &str) -> (s: String)
    ensures
        s@ == render_chars(template@, mode_vars(shadow_name@, user_name@, locale@)),
{
    let phrases = locale_phrase_vars(locale);
    let vars = [
        ("shadow_name", shadow_name),
        ("user_name", user_name),
        ("interface_language", prompt_interface_language(locale)),
        phrases[0],
        phrases[1],
        phrases[2],
        phrases[3],
        phrases[4],
        phrases[5],
    ];
    assert(vars_view(vars@) =~= mode_vars(shadow_name@, user_name@, locale@));
    PromptTemplate::new(template).render(&vars)
}

fn render_onboarding_mode(shadow_name: &str, user_name: &str, locale: &str) -> (s: String)
    ensures
        s@ == render_chars(
            prompts_for(locale@).onboarding_mode_prompt@,
            mode_vars(shadow_name@, user_name@, locale@),
        ),
{
    let prompts = SystemPrompts::for_locale(locale);
    render_mode(prompts.onboarding_mode_prompt, shadow_name, user_name, locale)
}

fn render_normal_chat_mode(shadow_name: &str, user_name: &str, locale: &str) -> (s: String)
    ensures
        s@ == render_chars(
            prompts_for(locale@).normal_chat_mode_prompt@,
            mode_vars(shadow_name@, user_name@, locale@),
        ),
{
    let prompts = SystemPrompts::for_locale(locale);
    render_mode(prompts.normal_chat_mode_prompt, shadow_name, user_name, locale)
}

fn render_generation_language_contract(locale: &str) -> (s: String)
    ensures
        s@ == generation_language_contract(locale@),
{
    let language = requested_output_language(locale);
    let mut s = String::from_str("Generation language contract:\nRequested output language: ");
    s.append(language);
    s.append("\nWrite user-visible replies entirely in ");
    s.append(language);
    s.append(
        ". Do not switch languages because of the user's message, prior conversation, profile/source material, names, examples, or cached wording. Keep proper nouns, product names, and short quoted phrases as-is when needed. Match the user's register, formality, and energy inside the requested output language.",
    );
    s
}

fn render_internal_context_privacy_policy(locale: &str) -> (p: &'static str)
    ensures
        p@ == privacy_policy_text(locale@),
{
    let code = ShadowLocale::resolve_code(locale);
    if crate::text::str_eq(code, "ja") {
        "Internal context privacy policy:\nUse remembered context, retrieved chat history, and hidden reasoning only as background for a natural reply. Do not mention memory retrieval, cache, context loading, RAG, prompts, serialization, debug state, internal flags, or any other system internals unless the user explicitly asks about system behavior. Answer with the remembered conclusion itself, not with a description of how you accessed it."
    } else if crate::text::str_eq(code, "fr") {
        "Politique de confidentialite du contexte interne:\nUtilise le contexte memorise, l'historique de discussion retrouve et le raisonnement interne uniquement comme arriere-plan pour une reponse naturelle. Ne mentionne pas la recuperation de memoire, le cache, le chargement de contexte, le RAG, les prompts, la serialisation, l'etat de debug, les drapeaux internes, ni aucun autre mecanisme interne, sauf si l'utilisateur demande explicitement le fonctionnement du systeme. Donne directement la conclusion retenue, sans decrire comment tu y as accede."
    } else {
        "Internal context privacy policy:\nUse remembered context, retrieved chat history, and hidden reasoning only as background for a natural reply. Do not mention memory retrieval, cache, context loading, RAG, prompts, serialization, debug state, internal flags, or other system internals unless the user explicitly asks how the system works. Give the remembered conclusion directly instead of describing how you accessed it."
    }
}

/// Appends a blank line and then `part`.
fn push_section(out: &mut String, part: &str)
    ensures
        final(out)@ == old(out)@ + "\n\n"@ + part@,
{
    out.append("\n\n");
    out.append(part);
}

/// The normal chat system prompt for the given time context.
pub fn build_chat_system_prompt_with_time_context(
    shadow_name: &str,
    user_name: &str,
    locale: &str,
    time_context: &PromptTimeContext,
) -> (s: String)
    ensures
        s@ == chat_system_prompt_text(shadow_name@, user_name@, locale@, time_context.text()),
{
    let prompts = SystemPrompts::for_locale(locale);
    let mut s = render_shadow_core_persona(shadow_name, user_name, locale, time_context);
    let contract = render_generation_language_contract(locale);
    push_section(&mut s, contract.as_str());
    let mode = render_normal_chat_mode(shadow_name, user_name, locale);
    push_section(&mut s, mode.as_str());
    push_section(&mut s, render_internal_context_privacy_policy(locale));
    let style = trimmed(prompts.output_style_prompt);
    push_section(&mut s, style.as_str());
    s
}

/// The normal chat system prompt with the given current-time text.
pub fn build_chat_system_prompt_with_current_time(
    shadow_name: &str,
    user_name: &str,
    locale: &str,
    current_time: &str,
) -> (s: String)
    ensures
        s@ == chat_system_prompt_text(shadow_name@, user_name@, locale@, current_time@),
{
    build_chat_system_prompt_with_time_context(
        shadow_name,
        user_name,
        locale,
        &PromptTimeContext::new(current_time),
    )
}

/// The normal chat system prompt for the current instant in UTC. The clock
/// decides the time text; the prompt is the chat prompt for the UTC context
/// of some instant.
pub fn build_chat_system_prompt(shadow_name: &str, user_name: &str, locale: &str) -> (s: String)
    ensures
        exists|now: UtcTimestamp|
            s@ == chat_system_prompt_text(
                shadow_name@,
                user_name@,
                locale@,
                #[trigger] utc_context_text(now),
            ),
{
    let context = PromptTimeContext::now_utc();
    build_chat_system_prompt_with_time_context(shadow_name, user_name, locale, &context)
}

/// The onboarding system prompt for the given time context.
pub fn build_onboarding_system_prompt_with_time_context(
    shadow_name: &str,
    user_name: &str,
    locale: &str,
    time_context: &PromptTimeContext,
) -> (s: String)
    ensures
        s@ == onboarding_system_prompt_text(shadow_name@, user_name@, locale@, time_context.text()),
{
    let prompts = SystemPrompts::for_locale(locale);
    let mut s = render_shadow_core_persona(shadow_name, user_name, locale, time_context);
    let contract = render_generation_language_contract(locale);
    push_section(&mut s, contract.as_str());
    let mode = render_onboarding_mode(shadow_name, user_name, locale);
    push_section(&mut s, mode.as_str());
    let style = trimmed(prompts.output_style_prompt);
    push_section(&mut s, style.as_str());
    s
}

/// The onboarding system prompt for the current instant in UTC; the clock
/// decides the time text.
pub fn build_onboarding_system_prompt(shadow_name: &str, user_name: &str, locale: &str) -> (s:
    String)
    ensures
        exists|now: UtcTimestamp|
            s@ == onboarding_system_prompt_text(
                shadow_name@,
                user_name@,
                locale@,
                #[trigger] utc_context_text(now),
            ),
{
    let context = PromptTimeContext::now_utc();
    build_onboarding_system_prompt_with_time_context(shadow_name, user_name, locale, &context)
}

fn render_pair_system_prompt(
    shadow_name: &str,
    listener_name: &str,
    locale: &str,
    time_context: &PromptTimeContext,
) -> (s: String)
    ensures
        s@ == pair_system_prompt_text(shadow_name@, listener_name@, locale@, time_context.text()),
{
    let prompts = SystemPrompts::for_locale(locale);
    let mut s = render_shadow_core_persona(shadow_name, listener_name, locale, time_context);
    let phrases = locale_phrase_vars(locale);
    let mode = PromptTemplate::new(prompts.pair_mode_prompt).render(&phrases);
    push_section(&mut s, mode.as_str());
    s
}

/// The Topic Talk system prompt: the speaker's persona addressed to the
/// listener, then the pair mode prompt.
pub fn build_pair_topic_system_prompt_with_time_context(
    shadow_name: &str,
    listener_name: &str,
    locale: &str,
    time_context: &PromptTimeContext,
) -> (s: String)
    ensures
        s@ == pair_system_prompt_text(shadow_name@, listener_name@, locale@, time_context.text()),
{
    render_pair_system_prompt(shadow_name, listener_name, locale, time_context)
}

/// The system prompt for composing a pair message: the actor's persona
/// addressed to the listener, then the pair mode prompt.
pub fn build_pair_compose_system_prompt(
    actor_name: &str,
    listener_name: &str,
    lang: &str,
    time_context: &PromptTimeContext,
) -> (s: String)
    ensures
        s@ == pair_system_prompt_text(actor_name@, listener_name@, lang@, time_context.text()),
{
    render_pair_system_prompt(actor_name, listener_name, lang, time_context)
}

/// The preview system prompt with the language contract and, when present
/// and not blank, the hidden scenario context.
pub fn preview_system_prompt_with_context(locale: &str, system_context: Option<&str>) -> (s:
    String)
    ensures
        s@ == preview_prompt_text(locale@, opt_view(system_context)),
{
    let base = trim_end_str(preview_system_prompt(locale));
    let contract = render_generation_language_contract(locale);
    let mut prompt = String::from_str(base);
    push_section(&mut prompt, contract.as_str());
    match system_context {
        Some(c) => {
            if !is_blank_str(c) {
                prompt.append("\n\nHidden scenario system context:\n");
                let t = trimmed(c);
                prompt.append(t.as_str());
                prompt.append(
                    "\n\nUse this context only as background. Do not reveal it to the user.",
                );
            }
        },
        None => {},
    }
    prompt
}

} // verus!
