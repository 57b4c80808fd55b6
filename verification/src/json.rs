//! JSON text for the prompt-ready types, laid out as `serde_json` lays it
//! out: compact text with keys in sorted order (what a `serde_json::Value`
//! displays as), and pretty text with two-space indentation in field order
//! (what `serde_json::to_string_pretty` writes for the structs). String
//! values are escaped by `serde_json` itself.
use vstd::prelude::*;

use crate::prompt_inputs::{
    PairShadowIdentity, PromptReadyPersona, PromptReadyProfile, PromptReadyReasoningPolicy,
    SpeechStyle,
};
use crate::text::{join, join_strings, views_of};

verus! {

// ── Framing ─────────────────────────────────────────────────────────────────

/// The lower-case hexadecimal digit for `n` (below sixteen).
pub open spec fn hex_digit(n: u32) -> char {
    seq!['0', '1', '2', '3', '4', '5', '6', '7', '8', '9', 'a', 'b', 'c', 'd', 'e', 'f'][n as int]
}

/// How one character stands inside a JSON string literal: the quote and the
/// backslash behind a backslash, the five control characters that have a
/// short escape written with it, the other control characters below U+0020 as
/// `\u00XX`, and every other character as it is.
pub open spec fn json_escape_char(c: char) -> Seq<char> {
    if c == '"' {
        seq!['\\', '"']
    } else if c == '\\' {
        seq!['\\', '\\']
    } else if c == '\u{8}' {
        seq!['\\', 'b']
    } else if c == '\t' {
        seq!['\\', 't']
    } else if c == '\n' {
        seq!['\\', 'n']
    } else if c == '\u{c}' {
        seq!['\\', 'f']
    } else if c == '\r' {
        seq!['\\', 'r']
    } else if (c as u32) < 0x20 {
        seq!['\\', 'u', '0', '0', hex_digit((c as u32) / 16), hex_digit((c as u32) % 16)]
    } else {
        seq![c]
    }
}

/// The characters of `s`, each escaped for a JSON string literal.
pub open spec fn json_escaped(s: Seq<char>) -> Seq<char>
    decreases s.len(),
{
    if s.len() == 0 {
        Seq::empty()
    } else {
        json_escaped(s.drop_last()) + json_escape_char(s.last())
    }
}

/// The JSON string literal for `s`: the escaped characters between double
/// quotes, as `serde_json::to_string` writes a string slice.
pub open spec fn json_string_literal(s: Seq<char>) -> Seq<char> {
    seq!['"'] + json_escaped(s) + seq!['"']
}

/// `serde_json::to_string` on a string slice: the characters between double
/// quotes, escaped as serde_json's `ESCAPE` table and
/// `Formatter::write_char_escape` do. Serialising a string slice into memory
/// does not fail.
#[verifier::external_body]
fn json_quote(s: &str) -> (q: String)
    ensures
        q@ == json_string_literal(s@),
{
    match serde_json::to_string(s) {
        Ok(q) => q,
        Err(_) => String::new(),
    }
}

/// Each string as a JSON string literal.
pub open spec fn quoted_all(items: Seq<Seq<char>>) -> Seq<Seq<char>> {
    items.map_values(|s: Seq<char>| json_string_literal(s))
}

/// Compact framing: the items between `open` and `close`, separated by commas.
pub open spec fn compact_block(open: Seq<char>, close: Seq<char>, items: Seq<Seq<char>>) -> Seq<
    char,
> {
    open + join(items, ","@) + close
}

/// Two spaces per indentation level.
pub open spec fn indent(level: nat) -> Seq<char>
    decreases level,
{
    if level == 0 {
        Seq::empty()
    } else {
        indent((level - 1) as nat) + "  "@
    }
}

/// Pretty framing at nesting `level`: each item on its own line, one level
/// deeper, separated by commas; the closing bracket back at `level`. Without
/// items the brackets stand side by side.
pub open spec fn pretty_block(
    open: Seq<char>,
    close: Seq<char>,
    items: Seq<Seq<char>>,
    level: nat,
) -> Seq<char> {
    if items.len() == 0 {
        open + close
    } else {
        open + "\n"@ + indent(level + 1) + join(items, ",\n"@ + indent(level + 1)) + "\n"@
            + indent(level) + close
    }
}

/// A JSON string or `null`.
pub open spec fn optional_string_json(s: Option<String>) -> Seq<char> {
    match s {
        Some(s) => json_string_literal(s@),
        None => "null"@,
    }
}

// ── Compact text (keys sorted) ──────────────────────────────────────────────

pub open spec fn speech_style_compact(s: SpeechStyle) -> Seq<char> {
    compact_block(
        "{"@,
        "}"@,
        seq![
            "\"dialect\":"@ + optional_string_json(s.dialect),
            "\"formality\":"@ + json_string_literal(s.formality@),
            "\"markers\":"@ + compact_block("["@, "]"@, quoted_all(views_of(s.markers@))),
            "\"sentence_pattern\":"@ + json_string_literal(s.sentence_pattern@),
        ],
    )
}

pub open spec fn profile_compact(p: PromptReadyProfile) -> Seq<char> {
    compact_block(
        "{"@,
        "}"@,
        seq![
            "\"headline\":"@ + json_string_literal(p.headline@),
            "\"source_answers\":"@ + compact_block(
                "["@,
                "]"@,
                quoted_all(views_of(p.source_answers@)),
            ),
            "\"stance\":"@ + json_string_literal(p.stance@),
        ],
    )
}

pub open spec fn persona_compact(p: PromptReadyPersona) -> Seq<char> {
    let style = match p.speech_style {
        Some(s) => seq!["\"speech_style\":"@ + speech_style_compact(s)],
        None => Seq::empty(),
    };
    compact_block(
        "{"@,
        "}"@,
        style + seq![
            "\"tone\":"@ + json_string_literal(p.tone@),
            "\"traits\":"@ + compact_block("["@, "]"@, quoted_all(views_of(p.traits@))),
        ],
    )
}

pub open spec fn reasoning_compact(r: PromptReadyReasoningPolicy) -> Seq<char> {
    compact_block(
        "{"@,
        "}"@,
        seq![
            "\"anchor\":"@ + json_string_literal(r.anchor@),
            "\"decision_style\":"@ + json_string_literal(r.decision_style@),
        ],
    )
}

// ── Pretty text (field order) ───────────────────────────────────────────────

pub open spec fn speech_style_pretty(s: SpeechStyle, level: nat) -> Seq<char> {
    pretty_block(
        "{"@,
        "}"@,
        seq![
            "\"dialect\": "@ + optional_string_json(s.dialect),
            "\"formality\": "@ + json_string_literal(s.formality@),
            "\"markers\": "@ + pretty_block(
                "["@,
                "]"@,
                quoted_all(views_of(s.markers@)),
                level + 1,
            ),
            "\"sentence_pattern\": "@ + json_string_literal(s.sentence_pattern@),
        ],
        level,
    )
}

pub open spec fn profile_pretty(p: PromptReadyProfile, level: nat) -> Seq<char> {
    pretty_block(
        "{"@,
        "}"@,
        seq![
            "\"headline\": "@ + json_string_literal(p.headline@),
            "\"stance\": "@ + json_string_literal(p.stance@),
            "\"source_answers\": "@ + pretty_block(
                "["@,
                "]"@,
                quoted_all(views_of(p.source_answers@)),
                level + 1,
            ),
        ],
        level,
    )
}

pub open spec fn persona_pretty(p: PromptReadyPersona, level: nat) -> Seq<char> {
    let style = match p.speech_style {
        Some(s) => seq!["\"speech_style\": "@ + speech_style_pretty(s, level + 1)],
        None => Seq::empty(),
    };
    pretty_block(
        "{"@,
        "}"@,
        seq![
            "\"tone\": "@ + json_string_literal(p.tone@),
            "\"traits\": "@ + pretty_block(
                "["@,
                "]"@,
                quoted_all(views_of(p.traits@)),
                level + 1,
            ),
        ] + style,
        level,
    )
}

pub open spec fn reasoning_pretty(r: PromptReadyReasoningPolicy, level: nat) -> Seq<char> {
    pretty_block(
        "{"@,
        "}"@,
        seq![
            "\"decision_style\": "@ + json_string_literal(r.decision_style@),
            "\"anchor\": "@ + json_string_literal(r.anchor@),
        ],
        level,
    )
}

/// The pretty JSON text of a pair identity; absent optional parts are left out.
pub open spec fn identity_pretty(id: PairShadowIdentity) -> Seq<char> {
    let instruction = match id.personal_instruction {
        Some(s) => seq!["\"personal_instruction\": "@ + json_string_literal(s@)],
        None => Seq::empty(),
    };
    let profile = match id.profile {
        Some(p) => seq!["\"profile\": "@ + profile_pretty(p, 1)],
        None => Seq::empty(),
    };
    let persona = match id.persona {
        Some(p) => seq!["\"persona\": "@ + persona_pretty(p, 1)],
        None => Seq::empty(),
    };
    let reasoning = match id.reasoning_policy {
        Some(r) => seq!["\"reasoning_policy\": "@ + reasoning_pretty(r, 1)],
        None => Seq::empty(),
    };
    pretty_block(
        "{"@,
        "}"@,
        seq!["\"name\": "@ + json_string_literal(id.name@)] + instruction + profile + persona
            + reasoning,
        0,
    )
}

// ── Executable framing ──────────────────────────────────────────────────────

/// Each string as a JSON string literal.
fn quote_all(items: &Vec<String>) -> (q: Vec<String>)
    ensures
        views_of(q@) == quoted_all(views_of(items@)),
{
    let mut q: Vec<String> = Vec::new();
    let mut i: usize = 0;
    while i < items.len()
        invariant
            0 <= i <= items@.len(),
            views_of(q@) == quoted_all(views_of(items@)).take(i as int),
        decreases items@.len() - i,
    {
        let ghost before = q@;
        let x = json_quote(items[i].as_str());
        q.push(x);
        proof {
            let target = quoted_all(views_of(items@));
            assert(q@ =~= before.push(x));
            assert(views_of(q@) =~= views_of(before).push(x@));
            assert(target[i as int] == json_string_literal(items@[i as int]@));
            assert(target.take(i + 1) =~= target.take(i as int).push(target[i as int]));
        }
        i += 1;
    }
    assert(quoted_all(views_of(items@)).take(i as int) =~= quoted_all(views_of(items@)));
    q
}

/// Compact framing of `items` between `open` and `close`.
fn frame_compact(open: &str, close: &str, items: &Vec<String>) -> (s: String)
    ensures
        s@ == compact_block(open@, close@, views_of(items@)),
{
    let mut s = String::from_str(open);
    let inner = join_strings(items.as_slice(), ",");
    s.append(inner.as_str());
    s.append(close);
    s
}

/// The indentation for `level`.
fn indent_string(level: usize) -> (s: String)
    ensures
        s@ == indent(level as nat),
{
    let mut s = String::new();
    let mut i: usize = 0;
    while i < level
        invariant
            0 <= i <= level,
            s@ == indent(i as nat),
        decreases level - i,
    {
        s.append("  ");
        i += 1;
    }
    s
}

/// Pretty framing of `items` at nesting `level`.
fn frame_pretty(open: &str, close: &str, items: &Vec<String>, level: usize) -> (s: String)
    requires
        level < usize::MAX,
    ensures
        s@ == pretty_block(open@, close@, views_of(items@), level as nat),
{
    let mut s = String::from_str(open);
    if items.len() == 0 {
        s.append(close);
        return s;
    }
    let inner_indent = indent_string(level + 1);
    let mut separator = String::from_str(",\n");
    separator.append(inner_indent.as_str());
    s.append("\n");
    s.append(inner_indent.as_str());
    let inner = join_strings(items.as_slice(), separator.as_str());
    s.append(inner.as_str());
    s.append("\n");
    let outer_indent = indent_string(level);
    s.append(outer_indent.as_str());
    s.append(close);
    s
}

/// `key` followed by `value`.
fn entry(key: &str, value: String) -> (s: String)
    ensures
        s@ == key@ + value@,
{
    let mut s = String::from_str(key);
    s.append(value.as_str());
    s
}

/// A JSON string or `null`.
fn optional_string(s: &Option<String>) -> (j: String)
    ensures
        j@ == optional_string_json(*s),
{
    match s {
        Some(s) => json_quote(s.as_str()),
        None => String::from_str("null"),
    }
}

// ── Executable compact text ─────────────────────────────────────────────────

fn speech_style_compact_text(s: &SpeechStyle) -> (j: String)
    ensures
        j@ == speech_style_compact(*s),
{
    let markers = quote_all(&s.markers);
    let mut items: Vec<String> = Vec::new();
    items.push(entry("\"dialect\":", optional_string(&s.dialect)));
    items.push(entry("\"formality\":", json_quote(s.formality.as_str())));
    items.push(entry("\"markers\":", frame_compact("[", "]", &markers)));
    items.push(entry("\"sentence_pattern\":", json_quote(s.sentence_pattern.as_str())));
    let j = frame_compact("{", "}", &items);
    assert(views_of(items@) =~= seq![
        "\"dialect\":"@ + optional_string_json(s.dialect),
        "\"formality\":"@ + json_string_literal(s.formality@),
        "\"markers\":"@ + compact_block("["@, "]"@, quoted_all(views_of(s.markers@))),
        "\"sentence_pattern\":"@ + json_string_literal(s.sentence_pattern@),
    ]);
    j
}

/// The compact JSON text of a prompt-ready profile.
pub(crate) fn onboarding_profile_json(p: &PromptReadyProfile) -> (j: String)
    ensures
        j@ == profile_compact(*p),
{
    let answers = quote_all(&p.source_answers);
    let mut items: Vec<String> = Vec::new();
    items.push(entry("\"headline\":", json_quote(p.headline.as_str())));
    items.push(entry("\"source_answers\":", frame_compact("[", "]", &answers)));
    items.push(entry("\"stance\":", json_quote(p.stance.as_str())));
    let j = frame_compact("{", "}", &items);
    assert(views_of(items@) =~= seq![
        "\"headline\":"@ + json_string_literal(p.headline@),
        "\"source_answers\":"@ + compact_block(
            "["@,
            "]"@,
            quoted_all(views_of(p.source_answers@)),
        ),
        "\"stance\":"@ + json_string_literal(p.stance@),
    ]);
    j
}

/// The compact JSON text of a prompt-ready persona.
pub(crate) fn persona_json(p: &PromptReadyPersona) -> (j: String)
    ensures
        j@ == persona_compact(*p),
{
    let traits = quote_all(&p.traits);
    let mut items: Vec<String> = Vec::new();
    match &p.speech_style {
        Some(s) => {
            items.push(entry("\"speech_style\":", speech_style_compact_text(s)));
        },
        None => {},
    }
    let ghost style = views_of(items@);
    items.push(entry("\"tone\":", json_quote(p.tone.as_str())));
    items.push(entry("\"traits\":", frame_compact("[", "]", &traits)));
    let j = frame_compact("{", "}", &items);
    assert(views_of(items@) =~= style + seq![
        "\"tone\":"@ + json_string_literal(p.tone@),
        "\"traits\":"@ + compact_block("["@, "]"@, quoted_all(views_of(p.traits@))),
    ]);
    assert(style =~= match p.speech_style {
        Some(s) => seq!["\"speech_style\":"@ + speech_style_compact(s)],
        None => Seq::empty(),
    });
    j
}

/// The compact JSON text of a prompt-ready reasoning policy.
pub(crate) fn reasoning_policy_json(r: &PromptReadyReasoningPolicy) -> (j: String)
    ensures
        j@ == reasoning_compact(*r),
{
    let mut items: Vec<String> = Vec::new();
    items.push(entry("\"anchor\":", json_quote(r.anchor.as_str())));
    items.push(entry("\"decision_style\":", json_quote(r.decision_style.as_str())));
    let j = frame_compact("{", "}", &items);
    assert(views_of(items@) =~= seq![
        "\"anchor\":"@ + json_string_literal(r.anchor@),
        "\"decision_style\":"@ + json_string_literal(r.decision_style@),
    ]);
    j
}

// ── Executable pretty text ──────────────────────────────────────────────────

fn speech_style_pretty_text(s: &SpeechStyle, level: usize) -> (j: String)
    requires
        level < usize::MAX - 1,
    ensures
        j@ == speech_style_pretty(*s, level as nat),
{
    let markers = quote_all(&s.markers);
    let mut items: Vec<String> = Vec::new();
    items.push(entry("\"dialect\": ", optional_string(&s.dialect)));
    items.push(entry("\"formality\": ", json_quote(s.formality.as_str())));
    items.push(entry("\"markers\": ", frame_pretty("[", "]", &markers, level + 1)));
    items.push(entry("\"sentence_pattern\": ", json_quote(s.sentence_pattern.as_str())));
    let j = frame_pretty("{", "}", &items, level);
    assert(views_of(items@) =~= seq![
        "\"dialect\": "@ + optional_string_json(s.dialect),
        "\"formality\": "@ + json_string_literal(s.formality@),
        "\"markers\": "@ + pretty_block(
            "["@,
            "]"@,
            quoted_all(views_of(s.markers@)),
            (level + 1) as nat,
        ),
        "\"sentence_pattern\": "@ + json_string_literal(s.sentence_pattern@),
    ]);
    j
}

fn profile_pretty_text(p: &PromptReadyProfile, level: usize) -> (j: String)
    requires
        level < usize::MAX - 1,
    ensures
        j@ == profile_pretty(*p, level as nat),
{
    let answers = quote_all(&p.source_answers);
    let mut items: Vec<String> = Vec::new();
    items.push(entry("\"headline\": ", json_quote(p.headline.as_str())));
    items.push(entry("\"stance\": ", json_quote(p.stance.as_str())));
    items.push(entry("\"source_answers\": ", frame_pretty("[", "]", &answers, level + 1)));
    let j = frame_pretty("{", "}", &items, level);
    assert(views_of(items@) =~= seq![
        "\"headline\": "@ + json_string_literal(p.headline@),
        "\"stance\": "@ + json_string_literal(p.stance@),
        "\"source_answers\": "@ + pretty_block(
            "["@,
            "]"@,
            quoted_all(views_of(p.source_answers@)),
            (level + 1) as nat,
        ),
    ]);
    j
}

fn persona_pretty_text(p: &PromptReadyPersona, level: usize) -> (j: String)
    requires
        level < usize::MAX - 2,
    ensures
        j@ == persona_pretty(*p, level as nat),
{
    let traits = quote_all(&p.traits);
    let mut items: Vec<String> = Vec::new();
    items.push(entry("\"tone\": ", json_quote(p.tone.as_str())));
    items.push(entry("\"traits\": ", frame_pretty("[", "]", &traits, level + 1)));
    let ghost first = views_of(items@);
    match &p.speech_style {
        Some(s) => {
            items.push(entry("\"speech_style\": ", speech_style_pretty_text(s, level + 1)));
        },
        None => {},
    }
    let j = frame_pretty("{", "}", &items, level);
    assert(first =~= seq![
        "\"tone\": "@ + json_string_literal(p.tone@),
        "\"traits\": "@ + pretty_block(
            "["@,
            "]"@,
            quoted_all(views_of(p.traits@)),
            (level + 1) as nat,
        ),
    ]);
    assert(views_of(items@) =~= first + match p.speech_style {
        Some(s) => seq!["\"speech_style\": "@ + speech_style_pretty(s, (level + 1) as nat)],
        None => Seq::empty(),
    });
    j
}

fn reasoning_pretty_text(r: &PromptReadyReasoningPolicy, level: usize) -> (j: String)
    requires
        level < usize::MAX,
    ensures
        j@ == reasoning_pretty(*r, level as nat),
{
    let mut items: Vec<String> = Vec::new();
    items.push(entry("\"decision_style\": ", json_quote(r.decision_style.as_str())));
    items.push(entry("\"anchor\": ", json_quote(r.anchor.as_str())));
    let j = frame_pretty("{", "}", &items, level);
    assert(views_of(items@) =~= seq![
        "\"decision_style\": "@ + json_string_literal(r.decision_style@),
        "\"anchor\": "@ + json_string_literal(r.anchor@),
    ]);
    j
}

/// The pretty JSON text of a pair identity.
pub(crate) fn pair_identity_block(identity: &PairShadowIdentity) -> (j: String)
    ensures
        j@ == identity_pretty(*identity),
{
    let mut items: Vec<String> = Vec::new();
    items.push(entry("\"name\": ", json_quote(identity.name.as_str())));
    let ghost after_name = views_of(items@);
    match &identity.personal_instruction {
        Some(s) => {
            items.push(entry("\"personal_instruction\": ", json_quote(s.as_str())));
        },
        None => {},
    }
    let ghost after_instruction = views_of(items@);
    match &identity.profile {
        Some(p) => {
            items.push(entry("\"profile\": ", profile_pretty_text(p, 1)));
        },
        None => {},
    }
    let ghost after_profile = views_of(items@);
    match &identity.persona {
        Some(p) => {
            items.push(entry("\"persona\": ", persona_pretty_text(p, 1)));
        },
        None => {},
    }
    let ghost after_persona = views_of(items@);
    match &identity.reasoning_policy {
        Some(r) => {
            items.push(entry("\"reasoning_policy\": ", reasoning_pretty_text(r, 1)));
        },
        None => {},
    }
    let j = frame_pretty("{", "}", &items, 0);
    proof {
        let id = *identity;
        let instruction = match id.personal_instruction {
            Some(s) => seq!["\"personal_instruction\": "@ + json_string_literal(s@)],
            None => Seq::<Seq<char>>::empty(),
        };
        let profile = match id.profile {
            Some(p) => seq!["\"profile\": "@ + profile_pretty(p, 1)],
            None => Seq::<Seq<char>>::empty(),
        };
        let persona = match id.persona {
            Some(p) => seq!["\"persona\": "@ + persona_pretty(p, 1)],
            None => Seq::<Seq<char>>::empty(),
        };
        let reasoning = match id.reasoning_policy {
            Some(r) => seq!["\"reasoning_policy\": "@ + reasoning_pretty(r, 1)],
            None => Seq::<Seq<char>>::empty(),
        };
        assert(after_name =~= seq!["\"name\": "@ + json_string_literal(id.name@)]);
        assert(after_instruction =~= after_name + instruction);
        assert(after_profile =~= after_instruction + profile);
        assert(after_persona =~= after_profile + persona);
        assert(views_of(items@) =~= after_persona + reasoning);
    }
    j
}

} // verus!
