//! Canonicalization of raw identifier strings.
//!
//! Equivalent identifiers must compare equal despite formatting noise: the
//! normalizer removes every space, tab, newline and carriage return, uppercases
//! ASCII letters, and sheds a single leading `G` data-entry prefix exactly when
//! the remainder is 18 characters long.

use vstd::prelude::*;

verus! {

/// The whitespace characters that identifier cleanup removes.
pub open spec fn is_id_space(c: char) -> bool {
    c == ' ' || c == '\t' || c == '\n' || c == '\r'
}

/// ASCII lowercase letters map to their uppercase form; any other character is kept.
pub open spec fn upper_char(c: char) -> char {
    if 'a' <= c && c <= 'z' {
        ((c as u32) - 32) as char
    } else {
        c
    }
}

/// Whitespace removal and ASCII uppercasing: the first stage of normalization.
pub open spec fn cleaned(s: Seq<char>) -> Seq<char>
    decreases s.len(),
{
    if s.len() == 0 {
        Seq::empty()
    } else {
        cleaned(s.drop_last()) + if is_id_space(s.last()) {
            Seq::<char>::empty()
        } else {
            seq![upper_char(s.last())]
        }
    }
}

/// The full normal form: a cleaned identifier sheds one leading 'G' exactly
/// when the remainder is 18 characters long.
pub open spec fn normalize_spec(s: Seq<char>) -> Seq<char> {
    let c = cleaned(s);
    if c.len() == 19 && c[0] == 'G' {
        c.subrange(1, 19)
    } else {
        c
    }
}

/// Leading whitespace dropped.
pub open spec fn trim_front(s: Seq<char>) -> Seq<char>
    decreases s.len(),
{
    if s.len() > 0 && is_id_space(s[0]) {
        trim_front(s.drop_first())
    } else {
        s
    }
}

/// Trailing whitespace dropped.
pub open spec fn trim_back(s: Seq<char>) -> Seq<char>
    decreases s.len(),
{
    if s.len() > 0 && is_id_space(s.last()) {
        trim_back(s.drop_last())
    } else {
        s
    }
}

/// Leading and trailing whitespace dropped.
pub open spec fn trim_spec(s: Seq<char>) -> Seq<char> {
    trim_back(trim_front(s))
}

/// Relies on std's String::push: appends the given character to the end of the string.
#[verifier::external_body]
fn push_char(s: &mut String, c: char)
    ensures
        final(s)@ == old(s)@.push(c),
{
    s.push(c);
}

fn is_space_char(c: char) -> (r: bool)
    ensures
        r == is_id_space(c),
{
    c == ' ' || c == '\t' || c == '\n' || c == '\r'
}

fn to_upper(c: char) -> (r: char)
    ensures
        r == upper_char(c),
{
    match c {
        'a' => 'A',
        'b' => 'B',
        'c' => 'C',
        'd' => 'D',
        'e' => 'E',
        'f' => 'F',
        'g' => 'G',
        'h' => 'H',
        'i' => 'I',
        'j' => 'J',
        'k' => 'K',
        'l' => 'L',
        'm' => 'M',
        'n' => 'N',
        'o' => 'O',
        'p' => 'P',
        'q' => 'Q',
        'r' => 'R',
        's' => 'S',
        't' => 'T',
        'u' => 'U',
        'v' => 'V',
        'w' => 'W',
        'x' => 'X',
        'y' => 'Y',
        'z' => 'Z',
        _ => c,
    }
}

/// Canonicalize a raw identifier: strip all whitespace, uppercase ASCII
/// letters, and remove one leading 'G' when the remainder is exactly 18
/// characters long. Total and pure: every input has a stable normal form.
pub fn normalize_id_number(id: &str) -> (r: String)
    ensures
        r@ == normalize_spec(id@),
{
    let n = id.unicode_len();
    let mut out = String::new();
    let mut i: usize = 0;
    while i < n
        invariant
            n == id@.len(),
            i <= n,
            out@ == cleaned(id@.take(i as int)),
        decreases n - i,
    {
        let c = id.get_char(i);
        proof {
            assert(id@.take(i as int + 1).drop_last() =~= id@.take(i as int));
            assert(id@.take(i as int + 1).last() == id@[i as int]);
        }
        if is_space_char(c) {
            proof {
                assert(cleaned(id@.take(i as int + 1)) =~= cleaned(id@.take(i as int)));
            }
        } else {
            let u = to_upper(c);
            push_char(&mut out, u);
            proof {
                assert(cleaned(id@.take(i as int + 1)) =~= cleaned(id@.take(i as int)).push(
                    upper_char(id@[i as int]),
                ));
            }
        }
        i = i + 1;
    }
    proof {
        assert(id@.take(n as int) =~= id@);
    }
    let len = out.as_str().unicode_len();
    if len == 19 && out.as_str().get_char(0) == 'G' {
        let stripped = out.as_str().substring_char(1, 19);
        String::from_str(stripped)
    } else {
        out
    }
}

/// Every character of a cleaned string is non-whitespace and fixed under
/// uppercasing.
proof fn lemma_upper_char_props(c: char)
    ensures
        upper_char(upper_char(c)) == upper_char(c),
        !is_id_space(c) ==> !is_id_space(upper_char(c)),
{
}

proof fn lemma_cleaned_chars(s: Seq<char>)
    ensures
        forall|i: int|
            0 <= i < cleaned(s).len() ==> !is_id_space(#[trigger] cleaned(s)[i]) && upper_char(
                cleaned(s)[i],
            ) == cleaned(s)[i],
    decreases s.len(),
{
    if s.len() > 0 {
        lemma_cleaned_chars(s.drop_last());
        lemma_upper_char_props(s.last());
        let prefix = cleaned(s.drop_last());
        assert forall|i: int| 0 <= i < cleaned(s).len() implies !is_id_space(
            #[trigger] cleaned(s)[i],
        ) && upper_char(cleaned(s)[i]) == cleaned(s)[i] by {
            if i < prefix.len() {
                assert(cleaned(s)[i] == prefix[i]);
            } else {
                assert(!is_id_space(s.last()));
                assert(cleaned(s)[i] == upper_char(s.last()));
            }
        }
    }
}

/// A string of non-whitespace characters fixed under uppercasing is its own
/// cleaned form.
proof fn lemma_cleaned_fixed(s: Seq<char>)
    requires
        forall|i: int| 0 <= i < s.len() ==> !is_id_space(#[trigger] s[i]) && upper_char(s[i]) == s[i],
    ensures
        cleaned(s) == s,
    decreases s.len(),
{
    if s.len() == 0 {
        assert(cleaned(s) =~= s);
    } else {
        lemma_cleaned_fixed(s.drop_last());
        assert(cleaned(s) =~= s);
    }
}

/// Normalization is idempotent: normalizing an already-normalized identifier
/// changes nothing.
pub proof fn lemma_normalize_idempotent(s: Seq<char>)
    ensures
        normalize_spec(normalize_spec(s)) == normalize_spec(s),
{
    lemma_cleaned_chars(s);
    let c = cleaned(s);
    let r = normalize_spec(s);
    assert(forall|i: int|
        0 <= i < r.len() ==> !is_id_space(#[trigger] r[i]) && upper_char(r[i]) == r[i]);
    lemma_cleaned_fixed(r);
    if c.len() == 19 && c[0] == 'G' {
        assert(r.len() == 18);
    }
}

proof fn lemma_trim_front_skip(s: Seq<char>, i: int)
    requires
        0 <= i <= s.len(),
        forall|k: int| 0 <= k < i ==> is_id_space(#[trigger] s[k]),
        i < s.len() ==> !is_id_space(s[i]),
    ensures
        trim_front(s) == s.subrange(i, s.len() as int),
    decreases i,
{
    if i == 0 {
        if s.len() == 0 || !is_id_space(s[0]) {
            assert(trim_front(s) =~= s.subrange(0, s.len() as int));
        }
    } else {
        let t = s.drop_first();
        assert(forall|k: int| 0 <= k < i - 1 ==> is_id_space(#[trigger] t[k]));
        lemma_trim_front_skip(t, i - 1);
        assert(t.subrange(i - 1, t.len() as int) =~= s.subrange(i, s.len() as int));
    }
}

proof fn lemma_trim_back_skip(s: Seq<char>, j: int)
    requires
        0 <= j <= s.len(),
        forall|k: int| j <= k < s.len() ==> is_id_space(#[trigger] s[k]),
        j > 0 ==> !is_id_space(s[j - 1]),
    ensures
        trim_back(s) == s.subrange(0, j),
    decreases s.len() - j,
{
    if j == s.len() {
        if s.len() == 0 || !is_id_space(s.last()) {
            assert(trim_back(s) =~= s.subrange(0, j));
        } else {
            assert(false);
        }
    } else {
        let t = s.drop_last();
        assert(forall|k: int| j <= k < t.len() ==> is_id_space(#[trigger] t[k]));
        lemma_trim_back_skip(t, j);
        assert(t.subrange(0, j) =~= s.subrange(0, j));
    }
}

proof fn lemma_trim_range(s: Seq<char>, start: int, end: int)
    requires
        0 <= start <= end <= s.len(),
        forall|k: int| 0 <= k < start ==> is_id_space(#[trigger] s[k]),
        forall|k: int| end <= k < s.len() ==> is_id_space(#[trigger] s[k]),
        start < end ==> !is_id_space(s[start]) && !is_id_space(s[end - 1]),
        start == end ==> end == s.len(),
    ensures
        trim_spec(s) == s.subrange(start, end),
{
    lemma_trim_front_skip(s, start);
    let t = s.subrange(start, s.len() as int);
    assert(forall|k: int| end - start <= k < t.len() ==> is_id_space(#[trigger] t[k]));
    lemma_trim_back_skip(t, end - start);
    assert(t.subrange(0, end - start) =~= s.subrange(start, end));
}

/// Drop leading and trailing whitespace, keeping the interior untouched.
pub fn trim_str(s: &str) -> (r: String)
    ensures
        r@ == trim_spec(s@),
{
    let n = s.unicode_len();
    let mut start: usize = 0;
    while start < n && is_space_char(s.get_char(start))
        invariant
            n == s@.len(),
            start <= n,
            forall|k: int| 0 <= k < start ==> is_id_space(#[trigger] s@[k]),
        decreases n - start,
    {
        start = start + 1;
    }
    if start == n {
        proof {
            lemma_trim_range(s@, n as int, n as int);
        }
        let r = String::new();
        proof {
            assert(r@ =~= s@.subrange(n as int, n as int));
        }
        return r;
    }
    let mut end: usize = n;
    while end > start + 1 && is_space_char(s.get_char(end - 1))
        invariant
            start < n,
            start < end <= n,
            n == s@.len(),
            forall|k: int| end <= k < n ==> is_id_space(#[trigger] s@[k]),
        decreases end,
    {
        end = end - 1;
    }
    let sub = s.substring_char(start, end);
    let r = String::from_str(sub);
    proof {
        if is_id_space(s@[end as int - 1]) {
            assert(end == start + 1);
            assert(!is_id_space(s@[start as int]));
            assert(false);
        }
        lemma_trim_range(s@, start as int, end as int);
    }
    r
}

} // verus!
