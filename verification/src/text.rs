use vstd::prelude::*;
use vstd::std_specs::iter::IteratorSpec;

verus! {

/// Whether `needle` occurs in `hay` as a contiguous run of characters.
pub open spec fn occurs_in(needle: Seq<char>, hay: Seq<char>) -> bool {
    exists|i: int|
        0 <= i && i + needle.len() <= hay.len() && #[trigger] hay.subrange(i, i + needle.len())
            == needle
}

/// Whatever occurs in a text still occurs in it after a suffix is put after.
pub proof fn lemma_occurs_before(needle: Seq<char>, hay: Seq<char>, suffix: Seq<char>)
    requires
        occurs_in(needle, hay),
    ensures
        occurs_in(needle, hay + suffix),
{
    let i = choose|i: int|
        0 <= i && i + needle.len() <= hay.len() && #[trigger] hay.subrange(i, i + needle.len())
            == needle;
    assert((hay + suffix).subrange(i, i + needle.len()) =~= hay.subrange(i, i + needle.len()));
}

/// Each item occurs in the items joined with a separator.
pub proof fn lemma_item_occurs_in_join(items: Seq<Seq<char>>, sep: Seq<char>, k: int)
    requires
        0 <= k < items.len(),
    ensures
        occurs_in(items[k], join(items, sep)),
    decreases items.len(),
{
    if items.len() == 1 {
        lemma_occurs_at_start(items[0], Seq::empty());
        assert(items[0] + Seq::<char>::empty() =~= items[0]);
    } else if k == items.len() - 1 {
        let front = join(items.drop_last(), sep) + sep;
        let j = front.len() as int;
        assert((front + items.last()).subrange(j, j + items[k].len()) =~= items[k]);
    } else {
        lemma_item_occurs_in_join(items.drop_last(), sep, k);
        assert(items.drop_last()[k] == items[k]);
        lemma_occurs_before(items[k], join(items.drop_last(), sep), sep + items.last());
        assert(join(items.drop_last(), sep) + (sep + items.last()) =~= join(items, sep));
    }
}

/// A text occurs at the start of itself followed by anything.
pub proof fn lemma_occurs_at_start(needle: Seq<char>, rest: Seq<char>)
    ensures
        occurs_in(needle, needle + rest),
{
    let i: int = 0;
    assert((needle + rest).subrange(i, i + needle.len()) =~= needle);
}

/// Whatever occurs in a text still occurs in it after a prefix is put before.
pub proof fn lemma_occurs_after(prefix: Seq<char>, needle: Seq<char>, hay: Seq<char>)
    requires
        occurs_in(needle, hay),
    ensures
        occurs_in(needle, prefix + hay),
{
    let i = choose|i: int|
        0 <= i && i + needle.len() <= hay.len() && #[trigger] hay.subrange(i, i + needle.len())
            == needle;
    let j = prefix.len() + i;
    assert((prefix + hay).subrange(j, j + needle.len()) =~= hay.subrange(i, i + needle.len()));
}

// ── Specifications over character sequences ─────────────────────────────────

/// The Unicode `White_Space` property, as listed in the Unicode Character
/// Database (`PropList.txt`): the characters that `char::is_whitespace`
/// accepts.
pub open spec fn is_white_space(c: char) -> bool {
    let n = c as u32;
    ||| 0x09 <= n <= 0x0d
    ||| n == 0x20
    ||| n == 0x85
    ||| n == 0xa0
    ||| n == 0x1680
    ||| 0x2000 <= n <= 0x200a
    ||| n == 0x2028
    ||| n == 0x2029
    ||| n == 0x202f
    ||| n == 0x205f
    ||| n == 0x3000
}

/// `s` without its leading white space.
pub open spec fn trim_start(s: Seq<char>) -> Seq<char>
    decreases s.len(),
{
    if s.len() > 0 && is_white_space(s[0]) {
        trim_start(s.drop_first())
    } else {
        s
    }
}

/// `s` without its trailing white space.
pub open spec fn trim_end(s: Seq<char>) -> Seq<char>
    decreases s.len(),
{
    if s.len() > 0 && is_white_space(s.last()) {
        trim_end(s.drop_last())
    } else {
        s
    }
}

/// `s` without leading and trailing white space (what `str::trim` returns).
pub open spec fn trim(s: Seq<char>) -> Seq<char> {
    trim_end(trim_start(s))
}

/// True when `s` holds nothing but white space.
pub open spec fn is_blank(s: Seq<char>) -> bool {
    forall|i: int| 0 <= i < s.len() ==> is_white_space(#[trigger] s[i])
}

/// The decimal digit for `d` (taken modulo 10).
pub open spec fn digit_char(d: nat) -> char {
    let d = d % 10;
    if d == 0 {
        '0'
    } else if d == 1 {
        '1'
    } else if d == 2 {
        '2'
    } else if d == 3 {
        '3'
    } else if d == 4 {
        '4'
    } else if d == 5 {
        '5'
    } else if d == 6 {
        '6'
    } else if d == 7 {
        '7'
    } else if d == 8 {
        '8'
    } else {
        '9'
    }
}

/// The decimal notation of `n`, without sign or leading zeros.
pub open spec fn decimal(n: nat) -> Seq<char>
    decreases n,
{
    if n < 10 {
        seq![digit_char(n)]
    } else {
        decimal(n / 10).push(digit_char(n % 10))
    }
}

/// The items joined with `sep` between consecutive items.
pub open spec fn join(items: Seq<Seq<char>>, sep: Seq<char>) -> Seq<char>
    decreases items.len(),
{
    if items.len() == 0 {
        Seq::empty()
    } else if items.len() == 1 {
        items[0]
    } else {
        join(items.drop_last(), sep) + sep + items.last()
    }
}

/// The character sequences of a list of strings.
pub open spec fn views_of(items: Seq<String>) -> Seq<Seq<char>> {
    items.map_values(|s: String| s@)
}

// ── Lemmas ──────────────────────────────────────────────────────────────────

proof fn lemma_trim_start_at(s: Seq<char>, lo: int)
    requires
        0 <= lo <= s.len(),
        forall|i: int| 0 <= i < lo ==> is_white_space(#[trigger] s[i]),
        lo == s.len() || !is_white_space(s[lo]),
    ensures
        trim_start(s) == s.subrange(lo, s.len() as int),
    decreases lo,
{
    if lo == 0 {
        assert(s.subrange(0, s.len() as int) =~= s);
    } else {
        let t = s.drop_first();
        assert forall|i: int| 0 <= i < lo - 1 implies is_white_space(#[trigger] t[i]) by {
            assert(t[i] == s[i + 1]);
        }
        lemma_trim_start_at(t, lo - 1);
        assert(t.subrange(lo - 1, t.len() as int) =~= s.subrange(lo, s.len() as int));
    }
}

proof fn lemma_trim_end_at(s: Seq<char>, hi: int)
    requires
        0 <= hi <= s.len(),
        forall|i: int| hi <= i < s.len() ==> is_white_space(#[trigger] s[i]),
        hi == 0 || !is_white_space(s[hi - 1]),
    ensures
        trim_end(s) == s.subrange(0, hi),
    decreases s.len() - hi,
{
    if hi == s.len() {
        assert(s.subrange(0, hi) =~= s);
    } else {
        let t = s.drop_last();
        assert forall|i: int| hi <= i < t.len() implies is_white_space(#[trigger] t[i]) by {
            assert(t[i] == s[i]);
        }
        lemma_trim_end_at(t, hi);
        assert(t.subrange(0, hi) =~= s.subrange(0, hi));
    }
}

/// A trimmed sequence is blank exactly when it is empty, and trimming blank
/// text leaves nothing.
pub proof fn lemma_trim_empty_iff_blank(s: Seq<char>)
    ensures
        trim(s).len() == 0 <==> is_blank(s),
    decreases s.len(),
{
    if s.len() > 0 && is_white_space(s[0]) {
        lemma_trim_empty_iff_blank(s.drop_first());
        assert(trim(s) == trim(s.drop_first()));
        if is_blank(s.drop_first()) {
            assert forall|i: int| 0 <= i < s.len() implies is_white_space(#[trigger] s[i]) by {
                if i > 0 {
                    assert(s[i] == s.drop_first()[i - 1]);
                }
            }
        }
        if is_blank(s) {
            assert forall|i: int| 0 <= i < s.drop_first().len() implies is_white_space(
                #[trigger] s.drop_first()[i],
            ) by {
                assert(s.drop_first()[i] == s[i + 1]);
            }
        }
    } else if s.len() > 0 {
        assert(trim_start(s) == s);
        lemma_trim_end_keeps_first(s);
    }
}

proof fn lemma_trim_end_keeps_first(s: Seq<char>)
    requires
        s.len() > 0,
        !is_white_space(s[0]),
    ensures
        trim_end(s).len() > 0,
    decreases s.len(),
{
    if is_white_space(s.last()) {
        lemma_trim_end_keeps_first(s.drop_last());
    }
}

// ── Executable helpers ──────────────────────────────────────────────────────

/// Collects the characters of `s`, in order.
pub(crate) fn chars_of(s: &str) -> (out: Vec<char>)
    ensures
        out@ == s@,
{
    let mut it = s.chars();
    let mut out: Vec<char> = Vec::new();
    loop
        invariant
            out@ + it.remaining() == s@,
            it.decrease() is Some,
        ensures
            out@ == s@,
        decreases it.decrease()->0,
    {
        match it.next() {
            Some(c) => {
                out.push(c);
            },
            None => {
                break;
            },
        }
    }
    out
}

/// Appends one character to a string: `String::push`.
#[verifier::external_body]
pub(crate) fn push_char(s: &mut String, c: char)
    ensures
        final(s)@ == old(s)@.push(c),
{
    s.push(c);
}

/// Appends `v[lo..hi]` to `out`.
pub(crate) fn append_chars(out: &mut String, v: &Vec<char>, lo: usize, hi: usize)
    requires
        lo <= hi <= v@.len(),
    ensures
        final(out)@ == old(out)@ + v@.subrange(lo as int, hi as int),
{
    let mut i = lo;
    while i < hi
        invariant
            lo <= i <= hi <= v@.len(),
            out@ == old(out)@ + v@.subrange(lo as int, i as int),
        decreases hi - i,
    {
        push_char(out, v[i]);
        i += 1;
        assert(v@.subrange(lo as int, i as int) =~= v@.subrange(lo as int, i - 1).push(
            v@[i - 1],
        ));
    }
}

/// A fresh string holding `v[lo..hi]`.
pub(crate) fn string_of_chars(v: &Vec<char>, lo: usize, hi: usize) -> (s: String)
    requires
        lo <= hi <= v@.len(),
    ensures
        s@ == v@.subrange(lo as int, hi as int),
{
    let mut s = String::new();
    append_chars(&mut s, v, lo, hi);
    s
}

/// Whether `v[lo..hi]` equals `w`.
pub(crate) fn chars_range_eq(v: &Vec<char>, lo: usize, hi: usize, w: &Vec<char>) -> (eq: bool)
    requires
        lo <= hi <= v@.len(),
    ensures
        eq == (v@.subrange(lo as int, hi as int) == w@),
{
    if hi - lo != w.len() {
        assert(v@.subrange(lo as int, hi as int).len() != w@.len());
        return false;
    }
    let mut i: usize = 0;
    while i < w.len()
        invariant
            hi - lo == w@.len(),
            lo <= hi <= v@.len(),
            0 <= i <= w@.len(),
            forall|k: int| 0 <= k < i ==> v@[lo + k] == w@[k],
        decreases w@.len() - i,
    {
        if v[lo + i] != w[i] {
            assert(v@.subrange(lo as int, hi as int)[i as int] != w@[i as int]);
            return false;
        }
        i += 1;
    }
    assert(v@.subrange(lo as int, hi as int) =~= w@);
    true
}

/// Whether two string slices hold the same characters.
pub(crate) fn str_eq(a: &str, b: &str) -> (eq: bool)
    ensures
        eq == (a@ == b@),
{
    let av = chars_of(a);
    let bv = chars_of(b);
    let eq = chars_range_eq(&av, 0, av.len(), &bv);
    assert(av@.subrange(0, av@.len() as int) =~= av@);
    eq
}

/// Whether `c` has the Unicode `White_Space` property.
pub(crate) fn is_white_space_char(c: char) -> (ws: bool)
    ensures
        ws == is_white_space(c),
{
    let n = c as u32;
    (0x09 <= n && n <= 0x0d) || n == 0x20 || n == 0x85 || n == 0xa0 || n == 0x1680 || (0x2000
        <= n && n <= 0x200a) || n == 0x2028 || n == 0x2029 || n == 0x202f || n == 0x205f || n
        == 0x3000
}

/// The bounds `(lo, hi)` of `v` without leading and trailing white space.
fn trim_bounds(v: &Vec<char>) -> (b: (usize, usize))
    ensures
        b.0 <= b.1 <= v@.len(),
        v@.subrange(b.0 as int, b.1 as int) == trim(v@),
        trim_start(v@) == v@.subrange(b.0 as int, v@.len() as int),
{
    let mut lo: usize = 0;
    while lo < v.len() && is_white_space_char(v[lo])
        invariant
            lo <= v@.len(),
            forall|i: int| 0 <= i < lo ==> is_white_space(#[trigger] v@[i]),
        decreases v@.len() - lo,
    {
        lo += 1;
    }
    proof {
        lemma_trim_start_at(v@, lo as int);
    }
    let mut hi: usize = v.len();
    while hi > lo && is_white_space_char(v[hi - 1])
        invariant
            lo <= hi <= v@.len(),
            forall|i: int| hi <= i < v@.len() ==> is_white_space(#[trigger] v@[i]),
        decreases hi - lo,
    {
        hi -= 1;
    }
    proof {
        let t = v@.subrange(lo as int, v@.len() as int);
        assert forall|i: int| hi - lo <= i < t.len() implies is_white_space(#[trigger] t[i]) by {
            assert(t[i] == v@[lo + i]);
        }
        if hi > lo {
            assert(t[hi - lo - 1] == v@[hi - 1]);
        }
        lemma_trim_end_at(t, hi - lo);
        assert(t.subrange(0, hi - lo) =~= v@.subrange(lo as int, hi as int));
    }
    (lo, hi)
}

/// `s` without leading and trailing white space.
pub(crate) fn trimmed(s: &str) -> (t: String)
    ensures
        t@ == trim(s@),
{
    let v = chars_of(s);
    let (lo, hi) = trim_bounds(&v);
    string_of_chars(&v, lo, hi)
}

/// `s` without trailing white space.
pub(crate) fn trimmed_end(s: &str) -> (t: String)
    ensures
        t@ == trim_end(s@),
{
    let v = chars_of(s);
    let mut hi: usize = v.len();
    while hi > 0 && is_white_space_char(v[hi - 1])
        invariant
            hi <= v@.len(),
            forall|i: int| hi <= i < v@.len() ==> is_white_space(#[trigger] v@[i]),
        decreases hi,
    {
        hi -= 1;
    }
    proof {
        lemma_trim_end_at(v@, hi as int);
    }
    string_of_chars(&v, 0, hi)
}

/// `s` without trailing white space, as a slice of `s`.
pub(crate) fn trim_end_str<'a>(s: &'a str) -> (t: &'a str)
    ensures
        t@ == trim_end(s@),
{
    let v = chars_of(s);
    let mut hi: usize = v.len();
    while hi > 0 && is_white_space_char(v[hi - 1])
        invariant
            hi <= v@.len(),
            forall|i: int| hi <= i < v@.len() ==> is_white_space(#[trigger] v@[i]),
        decreases hi,
    {
        hi -= 1;
    }
    proof {
        lemma_trim_end_at(v@, hi as int);
    }
    s.substring_char(0, hi)
}

/// Whether `s` holds nothing but white space (`s.trim().is_empty()`).
pub(crate) fn is_blank_str(s: &str) -> (blank: bool)
    ensures
        blank == is_blank(s@),
        blank == (trim(s@).len() == 0),
{
    let v = chars_of(s);
    let (lo, hi) = trim_bounds(&v);
    proof {
        lemma_trim_empty_iff_blank(s@);
    }
    lo == hi
}

/// The decimal digit character for `d`.
fn digit(d: u64) -> (c: char)
    requires
        d < 10,
    ensures
        c == digit_char(d as nat),
{
    if d == 0 {
        '0'
    } else if d == 1 {
        '1'
    } else if d == 2 {
        '2'
    } else if d == 3 {
        '3'
    } else if d == 4 {
        '4'
    } else if d == 5 {
        '5'
    } else if d == 6 {
        '6'
    } else if d == 7 {
        '7'
    } else if d == 8 {
        '8'
    } else {
        '9'
    }
}

/// Appends the decimal notation of `n` to `out`.
pub(crate) fn push_decimal(out: &mut String, n: u64)
    ensures
        final(out)@ == old(out)@ + decimal(n as nat),
    decreases n,
{
    if n >= 10 {
        push_decimal(out, n / 10);
    }
    push_char(out, digit(n % 10));
}

/// The decimal notation of `n`.
pub(crate) fn decimal_string(n: u64) -> (s: String)
    ensures
        s@ == decimal(n as nat),
{
    let mut s = String::new();
    push_decimal(&mut s, n);
    assert(s@ =~= decimal(n as nat));
    s
}

/// The strings joined with `sep` between consecutive items.
pub(crate) fn join_strings(items: &[String], sep: &str) -> (s: String)
    ensures
        s@ == join(views_of(items@), sep@),
{
    let mut s = String::new();
    let mut i: usize = 0;
    while i < items.len()
        invariant
            0 <= i <= items@.len(),
            s@ == join(views_of(items@).take(i as int), sep@),
        decreases items@.len() - i,
    {
        let ghost before = views_of(items@).take(i as int);
        if i > 0 {
            s.append(sep);
        }
        s.append(items[i].as_str());
        i += 1;
        proof {
            let now = views_of(items@).take(i as int);
            assert(now.drop_last() =~= before);
            if i == 1 {
                assert(before.len() == 0);
                assert(s@ =~= now[0]);
            }
        }
    }
    assert(views_of(items@).take(items@.len() as int) =~= views_of(items@));
    s
}

} // verus!
