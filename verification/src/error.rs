use vstd::prelude::*;

use crate::text::{chars_of, string_of_chars};

verus! {

/// Errors of prompt rendering and validation.
#[derive(Debug)]
pub enum ShadowCoreError {
    RenderingError(String),
    TemplateMissingPlaceholder(String),
    ValidationError(String),
}

/// The message of an error: a prefix naming its kind, then its detail.
pub open spec fn error_message(e: ShadowCoreError) -> Seq<char> {
    match e {
        ShadowCoreError::RenderingError(d) => "Rendering error: "@ + d@,
        ShadowCoreError::TemplateMissingPlaceholder(d) => "Missing required template placeholder: "@
            + d@,
        ShadowCoreError::ValidationError(d) => "Validation error: "@ + d@,
    }
}

impl ShadowCoreError {
    /// The message of this error.
    pub fn message(&self) -> (m: String)
        ensures
            m@ == error_message(*self),
    {
        let (prefix, detail) = match self {
            ShadowCoreError::RenderingError(d) => ("Rendering error: ", d),
            ShadowCoreError::TemplateMissingPlaceholder(d) => (
                "Missing required template placeholder: ",
                d,
            ),
            ShadowCoreError::ValidationError(d) => ("Validation error: ", d),
        };
        let mut m = String::from_str(prefix);
        m.append(detail.as_str());
        m
    }
}

/// A serialisation failure, reported as a rendering error with its message.
pub(crate) fn serde_err_to_shadow(message: &str) -> (e: ShadowCoreError)
    ensures
        e matches ShadowCoreError::RenderingError(d) && d@ == message@,
{
    ShadowCoreError::RenderingError(String::from_str(message))
}

// ── Unmatched placeholders ──────────────────────────────────────────────────

/// A character that may appear in a placeholder name: an ASCII letter or
/// digit, or an underscore.
pub open spec fn is_name_char(c: char) -> bool {
    ('a' <= c <= 'z') || ('A' <= c <= 'Z') || ('0' <= c <= '9') || c == '_'
}

/// A character that may start a placeholder name: an ASCII letter or an
/// underscore.
pub open spec fn is_name_start(c: char) -> bool {
    ('a' <= c <= 'z') || ('A' <= c <= 'Z') || c == '_'
}

/// The end of the run of name characters that starts at `from`.
pub open spec fn name_end(t: Seq<char>, from: int) -> int
    decreases t.len() - from,
{
    if from >= t.len() || !is_name_char(t[from]) {
        from
    } else {
        name_end(t, from + 1)
    }
}

/// Whether `t[i]` opens a placeholder: `{`, a non-empty name that starts
/// with a letter or underscore, then `}`.
pub open spec fn placeholder_at(t: Seq<char>, i: int) -> bool {
    let e = name_end(t, i + 1);
    &&& 0 <= i < t.len()
    &&& t[i] == '{'
    &&& e > i + 1
    &&& e < t.len()
    &&& t[e] == '}'
    &&& is_name_start(t[i + 1])
}

/// The name of the first placeholder at or after position `i`, if any.
pub open spec fn first_placeholder_from(t: Seq<char>, i: int) -> Option<Seq<char>>
    decreases t.len() - i,
{
    if i < 0 || i >= t.len() {
        None
    } else if placeholder_at(t, i) {
        Some(t.subrange(i + 1, name_end(t, i + 1)))
    } else {
        first_placeholder_from(t, i + 1)
    }
}

/// The name of the first placeholder in `t`, if any.
pub open spec fn first_placeholder(t: Seq<char>) -> Option<Seq<char>> {
    first_placeholder_from(t, 0)
}

proof fn lemma_name_end(t: Seq<char>, from: int)
    requires
        0 <= from <= t.len(),
    ensures
        from <= name_end(t, from) <= t.len(),
        forall|k: int| from <= k < name_end(t, from) ==> is_name_char(#[trigger] t[k]),
        name_end(t, from) < t.len() ==> !is_name_char(t[name_end(t, from)]),
    decreases t.len() - from,
{
    if from < t.len() && is_name_char(t[from]) {
        lemma_name_end(t, from + 1);
    }
}

proof fn lemma_name_end_at(t: Seq<char>, from: int, j: int)
    requires
        0 <= from <= j <= t.len(),
        forall|k: int| from <= k < j ==> is_name_char(#[trigger] t[k]),
        j == t.len() || !is_name_char(t[j]),
    ensures
        name_end(t, from) == j,
    decreases j - from,
{
    if from < j {
        lemma_name_end_at(t, from + 1, j);
    }
}

/// Positions holding name characters open no placeholder, so the search may
/// skip them.
proof fn lemma_skip_name_chars(t: Seq<char>, from: int, to: int)
    requires
        0 <= from <= to <= t.len(),
        forall|k: int| from <= k < to ==> is_name_char(#[trigger] t[k]),
    ensures
        first_placeholder_from(t, from) == first_placeholder_from(t, to),
    decreases to - from,
{
    if from < to {
        assert(is_name_char(t[from]));
        assert(!placeholder_at(t, from));
        lemma_skip_name_chars(t, from + 1, to);
    }
}

fn is_name_char_exec(c: char) -> (b: bool)
    ensures
        b == is_name_char(c),
{
    ('a' <= c && c <= 'z') || ('A' <= c && c <= 'Z') || ('0' <= c && c <= '9') || c == '_'
}

fn is_name_start_exec(c: char) -> (b: bool)
    ensures
        b == is_name_start(c),
{
    ('a' <= c && c <= 'z') || ('A' <= c && c <= 'Z') || c == '_'
}

/// The name of the first placeholder in `text` (`{name}`, where the name is
/// made of ASCII letters, digits and underscores and does not start with a
/// digit), or `None` when there is none.
pub fn find_unmatched_placeholder(text: &str) -> (name: Option<String>)
    ensures
        match name {
            Some(n) => first_placeholder(text@) == Some(n@),
            None => first_placeholder(text@) is None,
        },
{
    let t = chars_of(text);
    let mut i: usize = 0;
    while i < t.len()
        invariant
            0 <= i <= t@.len(),
            t@ == text@,
            first_placeholder(t@) == first_placeholder_from(t@, i as int),
        decreases t@.len() - i,
    {
        if t[i] == '{' {
            let start = i + 1;
            let mut end = start;
            while end < t.len() && is_name_char_exec(t[end])
                invariant
                    start <= end <= t@.len(),
                    forall|k: int| start <= k < end ==> is_name_char(#[trigger] t@[k]),
                decreases t@.len() - end,
            {
                end += 1;
            }
            proof {
                lemma_name_end_at(t@, start as int, end as int);
            }
            if end > start && end < t.len() && t[end] == '}' && is_name_start_exec(t[start]) {
                return Some(string_of_chars(&t, start, end));
            }
            if end > start {
                proof {
                    assert(!placeholder_at(t@, i as int));
                    lemma_skip_name_chars(t@, start as int, end as int);
                }
                i = end;
            } else {
                i += 1;
            }
        } else {
            i += 1;
        }
    }
    None
}

} // verus!
