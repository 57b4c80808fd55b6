use vstd::prelude::*;

use crate::text::{append_chars, chars_of, chars_range_eq};

verus! {

// ── Specification ───────────────────────────────────────────────────────────

/// The first index at or after `from` where `t` holds `c`, or `t.len()` when
/// there is none.
pub open spec fn next_index(t: Seq<char>, c: char, from: int) -> int
    decreases t.len() - from,
{
    if from >= t.len() {
        t.len() as int
    } else if t[from] == c {
        from
    } else {
        next_index(t, c, from + 1)
    }
}

/// The value bound to `key`; when a key is bound more than once, the last
/// binding wins.
pub open spec fn lookup(vars: Seq<(Seq<char>, Seq<char>)>, key: Seq<char>) -> Option<Seq<char>>
    decreases vars.len(),
{
    if vars.len() == 0 {
        None
    } else if vars.last().0 == key {
        Some(vars.last().1)
    } else {
        lookup(vars.drop_last(), key)
    }
}

/// What a placeholder `{key}` turns into: its value, or the placeholder
/// itself, braces included, when no value is bound to `key`.
pub open spec fn replacement(vars: Seq<(Seq<char>, Seq<char>)>, key: Seq<char>) -> Seq<char> {
    match lookup(vars, key) {
        Some(value) => value,
        None => seq!['{'] + key + seq!['}'],
    }
}

/// Rendering of `t` from position `pos` on: text up to the next `{` is kept,
/// `{key}` (up to the first `}` after the `{`) is replaced, and an opening
/// brace without a closing one leaves the rest of the text as it is.
pub open spec fn render_from(t: Seq<char>, vars: Seq<(Seq<char>, Seq<char>)>, pos: int) -> Seq<
    char,
>
    decreases t.len() - pos,
{
    if pos < 0 || pos >= t.len() {
        Seq::empty()
    } else {
        let open = next_index(t, '{', pos);
        if open >= t.len() {
            t.subrange(pos, t.len() as int)
        } else {
            let close = next_index(t, '}', open + 1);
            if close >= t.len() {
                t.subrange(pos, t.len() as int)
            } else {
                proof {
                    lemma_next_index(t, '{', pos);
                    lemma_next_index(t, '}', open + 1);
                }
                t.subrange(pos, open) + replacement(vars, t.subrange(open + 1, close))
                    + render_from(t, vars, close + 1)
            }
        }
    }
}

/// The rendering of template text `t` with the bindings `vars`.
pub open spec fn render_chars(t: Seq<char>, vars: Seq<(Seq<char>, Seq<char>)>) -> Seq<char> {
    render_from(t, vars, 0)
}

/// The bindings of a slice of `(key, value)` pairs, as character sequences.
pub open spec fn vars_view(vars: Seq<(&str, &str)>) -> Seq<(Seq<char>, Seq<char>)> {
    vars.map_values(|p: (&str, &str)| (p.0@, p.1@))
}

// ── Lemmas ──────────────────────────────────────────────────────────────────

/// What `next_index` returns: the first position at or after `from` that
/// holds `c`, or the length.
pub proof fn lemma_next_index(t: Seq<char>, c: char, from: int)
    requires
        0 <= from <= t.len(),
    ensures
        from <= next_index(t, c, from) <= t.len(),
        next_index(t, c, from) < t.len() ==> t[next_index(t, c, from)] == c,
        forall|k: int| from <= k < next_index(t, c, from) ==> t[k] != c,
    decreases t.len() - from,
{
    if from < t.len() && t[from] != c {
        lemma_next_index(t, c, from + 1);
    }
}

proof fn lemma_next_index_at(t: Seq<char>, c: char, from: int, j: int)
    requires
        0 <= from <= j <= t.len(),
        forall|k: int| from <= k < j ==> t[k] != c,
        j == t.len() || t[j] == c,
    ensures
        next_index(t, c, from) == j,
    decreases j - from,
{
    if from < j {
        lemma_next_index_at(t, c, from + 1, j);
    }
}

proof fn lemma_lookup_prefix(vars: Seq<(Seq<char>, Seq<char>)>, key: Seq<char>, i: int)
    requires
        0 <= i < vars.len(),
        vars[i].0 != key,
    ensures
        lookup(vars.take(i + 1), key) == lookup(vars.take(i), key),
{
    assert(vars.take(i + 1).drop_last() =~= vars.take(i));
}

/// Rendering without bindings leaves every character in place.
proof fn lemma_render_from_unbound(t: Seq<char>, pos: int)
    requires
        0 <= pos <= t.len(),
    ensures
        render_from(t, Seq::empty(), pos) == t.subrange(pos, t.len() as int),
    decreases t.len() - pos,
{
    if pos < t.len() {
        let open = next_index(t, '{', pos);
        lemma_next_index(t, '{', pos);
        if open < t.len() {
            let close = next_index(t, '}', open + 1);
            lemma_next_index(t, '}', open + 1);
            if close < t.len() {
                lemma_render_from_unbound(t, close + 1);
                let key = t.subrange(open + 1, close);
                assert(lookup(Seq::empty(), key) is None);
                assert(t.subrange(pos, open) + (seq!['{'] + key + seq!['}']) + t.subrange(
                    close + 1,
                    t.len() as int,
                ) =~= t.subrange(pos, t.len() as int));
            }
        }
    } else {
        assert(t.subrange(pos, t.len() as int) =~= Seq::<char>::empty());
    }
}

/// Rendering text that holds no `{` leaves it unchanged, whatever the bindings.
proof fn lemma_render_from_plain(t: Seq<char>, vars: Seq<(Seq<char>, Seq<char>)>, pos: int)
    requires
        0 <= pos <= t.len(),
        forall|k: int| pos <= k < t.len() ==> t[k] != '{',
    ensures
        render_from(t, vars, pos) == t.subrange(pos, t.len() as int),
{
    if pos < t.len() {
        lemma_next_index_at(t, '{', pos, t.len() as int);
    } else {
        assert(t.subrange(pos, t.len() as int) =~= Seq::<char>::empty());
    }
}

proof fn lemma_next_index_shift(a: Seq<char>, b: Seq<char>, c: char, p: int)
    requires
        0 <= p <= b.len(),
    ensures
        next_index(a + b, c, a.len() + p) == a.len() + next_index(b, c, p),
    decreases b.len() - p,
{
    if p < b.len() {
        assert((a + b)[a.len() + p] == b[p]);
        if b[p] != c {
            lemma_next_index_shift(a, b, c, p + 1);
        }
    }
}

/// Rendering depends only on the text from the starting position on.
proof fn lemma_render_from_shift(
    a: Seq<char>,
    b: Seq<char>,
    vars: Seq<(Seq<char>, Seq<char>)>,
    p: int,
)
    requires
        0 <= p <= b.len(),
    ensures
        render_from(a + b, vars, a.len() + p) == render_from(b, vars, p),
    decreases b.len() - p,
{
    let s = a + b;
    if p < b.len() {
        lemma_next_index_shift(a, b, '{', p);
        lemma_next_index(b, '{', p);
        let open = next_index(b, '{', p);
        if open < b.len() {
            lemma_next_index_shift(a, b, '}', open + 1);
            lemma_next_index(b, '}', open + 1);
            let close = next_index(b, '}', open + 1);
            if close < b.len() {
                lemma_render_from_shift(a, b, vars, close + 1);
                assert(s.subrange(a.len() + p, a.len() + open) =~= b.subrange(p, open));
                assert(s.subrange(a.len() + open + 1, a.len() + close) =~= b.subrange(
                    open + 1,
                    close,
                ));
            } else {
                assert(s.subrange(a.len() + p, s.len() as int) =~= b.subrange(p, b.len() as int));
            }
        } else {
            assert(s.subrange(a.len() + p, s.len() as int) =~= b.subrange(p, b.len() as int));
        }
    }
}

/// A key bound at position `i` and at no later position is looked up as the
/// value bound there.
pub proof fn lemma_lookup_found(vars: Seq<(Seq<char>, Seq<char>)>, i: int)
    requires
        0 <= i < vars.len(),
        forall|j: int| i < j < vars.len() ==> #[trigger] vars[j].0 != vars[i].0,
    ensures
        lookup(vars, vars[i].0) == Some(vars[i].1),
    decreases vars.len(),
{
    if i < vars.len() - 1 {
        let rest = vars.drop_last();
        assert(rest[i] == vars[i]);
        assert forall|j: int| i < j < rest.len() implies #[trigger] rest[j].0 != rest[i].0 by {
            assert(rest[j] == vars[j]);
        }
        lemma_lookup_found(rest, i);
    }
}

/// Template text made of pieces of plain text each followed by a
/// placeholder: `plain{key}` for each `(plain, key)` in turn.
pub open spec fn placeholder_run(parts: Seq<(Seq<char>, Seq<char>)>) -> Seq<char>
    decreases parts.len(),
{
    if parts.len() == 0 {
        Seq::empty()
    } else {
        parts[0].0 + seq!['{'] + parts[0].1 + seq!['}'] + placeholder_run(parts.drop_first())
    }
}

/// The pieces of a placeholder run with each placeholder replaced.
pub open spec fn rendered_run(
    parts: Seq<(Seq<char>, Seq<char>)>,
    vars: Seq<(Seq<char>, Seq<char>)>,
) -> Seq<char>
    decreases parts.len(),
{
    if parts.len() == 0 {
        Seq::empty()
    } else {
        parts[0].0 + replacement(vars, parts[0].1) + rendered_run(parts.drop_first(), vars)
    }
}

/// A run of plain pieces (without `{`) and placeholders (keys without `}`)
/// renders piece by piece, and the text after it renders on its own.
pub proof fn lemma_render_placeholder_run(
    parts: Seq<(Seq<char>, Seq<char>)>,
    rest: Seq<char>,
    vars: Seq<(Seq<char>, Seq<char>)>,
)
    requires
        forall|i: int|
            0 <= i < parts.len() ==> !(#[trigger] parts[i]).0.contains('{') && !parts[i].1.contains(
                '}',
            ),
    ensures
        render_chars(placeholder_run(parts) + rest, vars) == rendered_run(parts, vars)
            + render_chars(rest, vars),
    decreases parts.len(),
{
    if parts.len() == 0 {
        assert(placeholder_run(parts) + rest =~= rest);
        assert(rendered_run(parts, vars) + render_chars(rest, vars) =~= render_chars(rest, vars));
    } else {
        let tail = parts.drop_first();
        assert forall|i: int| 0 <= i < tail.len() implies !(#[trigger] tail[i]).0.contains('{')
            && !tail[i].1.contains('}') by {
            assert(tail[i] == parts[i + 1]);
        }
        lemma_render_placeholder_run(tail, rest, vars);
        assert(!parts[0].0.contains('{') && !parts[0].1.contains('}'));
        law_render_replaces_first_placeholder(
            parts[0].0,
            parts[0].1,
            placeholder_run(tail) + rest,
            vars,
        );
        assert(placeholder_run(parts) + rest =~= parts[0].0 + seq!['{'] + parts[0].1 + seq!['}']
            + (placeholder_run(tail) + rest));
        assert(rendered_run(parts, vars) + render_chars(rest, vars) =~= parts[0].0 + replacement(
            vars,
            parts[0].1,
        ) + (rendered_run(tail, vars) + render_chars(rest, vars)));
    }
}

// ── Laws ────────────────────────────────────────────────────────────────────

/// Rendering with no bindings gives the template back unchanged: every
/// placeholder is unmatched and unmatched placeholders stay as they are.
pub proof fn law_render_without_vars_is_identity(t: Seq<char>)
    ensures
        render_chars(t, Seq::empty()) == t,
{
    lemma_render_from_unbound(t, 0);
    assert(t.subrange(0, t.len() as int) =~= t);
}

/// Text without an opening brace renders to itself, whatever the bindings.
pub proof fn law_render_plain_text_is_identity(t: Seq<char>, vars: Seq<(Seq<char>, Seq<char>)>)
    requires
        !t.contains('{'),
    ensures
        render_chars(t, vars) == t,
{
    assert forall|k: int| 0 <= k < t.len() implies t[k] != '{' by {
        if t[k] == '{' {
            assert(t.contains('{'));
        }
    }
    lemma_render_from_plain(t, vars, 0);
    assert(t.subrange(0, t.len() as int) =~= t);
}

/// A placeholder is replaced by its binding: text before the first `{` is
/// kept, `{key}` becomes the value bound to `key` (or stays as it is when
/// unbound), and the rest is rendered on its own.
pub proof fn law_render_replaces_first_placeholder(
    before: Seq<char>,
    key: Seq<char>,
    rest: Seq<char>,
    vars: Seq<(Seq<char>, Seq<char>)>,
)
    requires
        !before.contains('{'),
        !key.contains('}'),
    ensures
        render_chars(before + seq!['{'] + key + seq!['}'] + rest, vars) == before + replacement(
            vars,
            key,
        ) + render_chars(rest, vars),
{
    let head = before + seq!['{'] + key + seq!['}'];
    let t = head + rest;
    let open = before.len() as int;
    let close = open + 1 + key.len();
    assert forall|k: int| 0 <= k < open implies t[k] != '{' by {
        assert(t[k] == before[k]);
        if before[k] == '{' {
            assert(before.contains('{'));
        }
    }
    assert(t[open] == '{');
    lemma_next_index_at(t, '{', 0, open);
    assert forall|k: int| open + 1 <= k < close implies t[k] != '}' by {
        assert(t[k] == key[k - open - 1]);
        if key[k - open - 1] == '}' {
            assert(key.contains('}'));
        }
    }
    assert(t[close] == '}');
    lemma_next_index_at(t, '}', open + 1, close);
    lemma_next_index(t, '{', 0);
    lemma_next_index(t, '}', open + 1);
    assert(t.subrange(0, open) =~= before);
    assert(t.subrange(open + 1, close) =~= key);
    lemma_render_from_shift(head, rest, vars, 0);
}

// ── Executable code ─────────────────────────────────────────────────────────

/// The first index at or after `from` where `t` holds `c`, or `t.len()`.
fn find_char(t: &Vec<char>, c: char, from: usize) -> (r: usize)
    requires
        from <= t@.len(),
    ensures
        r == next_index(t@, c, from as int),
{
    let mut j = from;
    while j < t.len() && t[j] != c
        invariant
            from <= j <= t@.len(),
            forall|k: int| from <= k < j ==> t@[k] != c,
        decreases t@.len() - j,
    {
        j += 1;
    }
    proof {
        lemma_next_index_at(t@, c, from as int, j as int);
    }
    j
}

/// The value bound to the key `t[lo..hi]`, the last binding winning.
fn lookup_var<'a>(vars: &[(&str, &'a str)], t: &Vec<char>, lo: usize, hi: usize) -> (r: Option<
    &'a str,
>)
    requires
        lo <= hi <= t@.len(),
    ensures
        match r {
            Some(value) => lookup(vars_view(vars@), t@.subrange(lo as int, hi as int)) == Some(
                value@,
            ),
            None => lookup(vars_view(vars@), t@.subrange(lo as int, hi as int)) is None,
        },
{
    let ghost key = t@.subrange(lo as int, hi as int);
    let ghost all = vars_view(vars@);
    let mut i = vars.len();
    assert(all.take(i as int) =~= all);
    while i > 0
        invariant
            i <= vars@.len(),
            all == vars_view(vars@),
            key == t@.subrange(lo as int, hi as int),
            lo <= hi <= t@.len(),
            lookup(all, key) == lookup(all.take(i as int), key),
        decreases i,
    {
        i -= 1;
        let (candidate, value) = vars[i];
        let candidate_chars = chars_of(candidate);
        if chars_range_eq(t, lo, hi, &candidate_chars) {
            assert(all.take(i + 1).last() == all[i as int]);
            return Some(value);
        }
        proof {
            lemma_lookup_prefix(all, key, i as int);
        }
    }
    None
}

/// A prompt template: text in which `{name}` marks a placeholder.
pub struct PromptTemplate<'a> {
    template: &'a str,
}

impl<'a> PromptTemplate<'a> {
    /// The text of the template.
    pub closed spec fn text(&self) -> Seq<char> {
        self.template@
    }

    /// A template over the given text.
    pub fn new(template: &'a str) -> (t: Self)
        ensures
            t.text() == template@,
    {
        Self { template }
    }

    /// Replaces each `{key}` with the value bound to `key` in `vars` (the
    /// last binding wins); placeholders without a binding, and a `{` without
    /// a later `}`, are left as they are.
    pub fn render(&self, vars: &[(&str, &str)]) -> (out: String)
        ensures
            out@ == render_chars(self.text(), vars_view(vars@)),
    {
        let t = chars_of(self.template);
        let ghost bindings = vars_view(vars@);
        let mut result = String::new();
        let mut cursor: usize = 0;
        loop
            invariant_except_break
                result@ + render_from(t@, bindings, cursor as int) == render_chars(t@, bindings),
            invariant
                cursor <= t@.len(),
                t@ == self.text(),
                bindings == vars_view(vars@),
            ensures
                result@ == render_chars(t@, bindings),
            decreases t@.len() - cursor,
        {
            let ghost before = result@;
            let open = find_char(&t, '{', cursor);
            proof {
                lemma_next_index(t@, '{', cursor as int);
            }
            if open >= t.len() {
                append_chars(&mut result, &t, cursor, t.len());
                proof {
                    if cursor == t@.len() {
                        assert(t@.subrange(cursor as int, t@.len() as int) =~= Seq::<
                            char,
                        >::empty());
                    }
                }
                break;
            }
            append_chars(&mut result, &t, cursor, open);
            let close = find_char(&t, '}', open + 1);
            proof {
                lemma_next_index(t@, '}', open + 1);
            }
            if close >= t.len() {
                append_chars(&mut result, &t, open, t.len());
                assert(t@.subrange(cursor as int, open as int) + t@.subrange(
                    open as int,
                    t@.len() as int,
                ) =~= t@.subrange(cursor as int, t@.len() as int));
                break;
            }
            match lookup_var(vars, &t, open + 1, close) {
                Some(value) => {
                    result.append(value);
                },
                None => {
                    append_chars(&mut result, &t, open, close + 1);
                    assert(t@.subrange(open as int, close + 1) =~= seq!['{'] + t@.subrange(
                        open + 1,
                        close as int,
                    ) + seq!['}']);
                },
            }
            assert(result@ =~= before + t@.subrange(cursor as int, open as int) + replacement(
                bindings,
                t@.subrange(open + 1, close as int),
            ));
            cursor = close + 1;
        }
        result
    }
}

} // verus!
