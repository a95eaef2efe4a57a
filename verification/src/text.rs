//! Character classification and small string helpers shared by the rest of
//! the crate. Paths are handled as plain strings with `/` separators.

use vstd::prelude::*;

verus! {

/// The characters of the Unicode control category: the C0 range, delete, and
/// the C1 range.
pub open spec fn is_control_char(c: char) -> bool {
    (c as u32) < 0x20 || (c as u32) == 0x7f || (0x80 <= (c as u32) && (c as u32) <= 0x9f)
}

/// Executable mirror of `is_control_char`.
pub fn char_is_control(c: char) -> (r: bool)
    ensures
        r == is_control_char(c),
{
    let u = c as u32;
    u < 0x20 || u == 0x7f || (0x80 <= u && u <= 0x9f)
}

/// The characters with the Unicode white-space property.
pub open spec fn is_whitespace_char(c: char) -> bool {
    ||| (0x09 <= (c as u32) && (c as u32) <= 0x0d)
    ||| (c as u32) == 0x20
    ||| (c as u32) == 0x85
    ||| (c as u32) == 0xa0
    ||| (c as u32) == 0x1680
    ||| (0x2000 <= (c as u32) && (c as u32) <= 0x200a)
    ||| (c as u32) == 0x2028
    ||| (c as u32) == 0x2029
    ||| (c as u32) == 0x202f
    ||| (c as u32) == 0x205f
    ||| (c as u32) == 0x3000
}

/// Executable mirror of `is_whitespace_char`.
pub fn char_is_whitespace(c: char) -> (r: bool)
    ensures
        r == is_whitespace_char(c),
{
    let u = c as u32;
    (0x09 <= u && u <= 0x0d) || u == 0x20 || u == 0x85 || u == 0xa0 || u == 0x1680 || (0x2000
        <= u && u <= 0x200a) || u == 0x2028 || u == 0x2029 || u == 0x202f || u == 0x205f || u
        == 0x3000
}

pub open spec fn is_ascii_digit(c: char) -> bool {
    '0' <= c && c <= '9'
}

pub open spec fn is_ascii_lowercase(c: char) -> bool {
    'a' <= c && c <= 'z'
}

pub open spec fn is_ascii_uppercase(c: char) -> bool {
    'A' <= c && c <= 'Z'
}

pub open spec fn is_ascii_alphanumeric(c: char) -> bool {
    is_ascii_digit(c) || is_ascii_lowercase(c) || is_ascii_uppercase(c)
}

/// Executable mirror of `is_ascii_alphanumeric`.
pub fn char_is_ascii_alphanumeric(c: char) -> (r: bool)
    ensures
        r == is_ascii_alphanumeric(c),
{
    ('0' <= c && c <= '9') || ('a' <= c && c <= 'z') || ('A' <= c && c <= 'Z')
}

/// Relies on `String::push`: appends exactly the one character.
#[verifier::external_body]
pub fn push_char(s: &mut String, c: char)
    ensures
        final(s)@ == old(s)@.push(c),
{
    s.push(c);
}

/// Whether the character sequence holds `c` anywhere.
pub fn contains_char(s: &str, c: char) -> (r: bool)
    ensures
        r == s@.contains(c),
{
    let n = s.unicode_len();
    let mut i: usize = 0;
    while i < n
        invariant
            n == s@.len(),
            i <= n,
            forall|j: int| 0 <= j < i ==> s@[j] != c,
        decreases n - i,
    {
        if s.get_char(i) == c {
            assert(s@.contains(c)) by {
                assert(s@[i as int] == c);
            }
            return true;
        }
        i += 1;
    }
    assert(!s@.contains(c)) by {
        assert(forall|j: int| 0 <= j < s@.len() ==> s@[j] != c);
    }
    false
}

/// Whether some character of `s` satisfies `is_control_char`.
pub open spec fn has_control_char(s: Seq<char>) -> bool {
    exists|i: int| 0 <= i < s.len() && is_control_char(s[i])
}

/// Executable mirror of `has_control_char`.
pub fn contains_control_char(s: &str) -> (r: bool)
    ensures
        r == has_control_char(s@),
{
    let n = s.unicode_len();
    let mut i: usize = 0;
    while i < n
        invariant
            n == s@.len(),
            i <= n,
            forall|j: int| 0 <= j < i ==> !is_control_char(s@[j]),
        decreases n - i,
    {
        if char_is_control(s.get_char(i)) {
            assert(has_control_char(s@)) by {
                assert(is_control_char(s@[i as int]));
            }
            return true;
        }
        i += 1;
    }
    false
}

/// The index of the first occurrence of `c`, if any.
pub fn find_char(s: &str, c: char) -> (r: Option<usize>)
    ensures
        match r {
            Some(i) => i < s@.len() && s@[i as int] == c && forall|j: int|
                0 <= j < i ==> s@[j] != c,
            None => !s@.contains(c),
        },
{
    let n = s.unicode_len();
    let mut i: usize = 0;
    while i < n
        invariant
            n == s@.len(),
            i <= n,
            forall|j: int| 0 <= j < i ==> s@[j] != c,
        decreases n - i,
    {
        if s.get_char(i) == c {
            return Some(i);
        }
        i += 1;
    }
    assert(!s@.contains(c)) by {
        assert(forall|j: int| 0 <= j < s@.len() ==> s@[j] != c);
    }
    None
}

/// The index of the last occurrence of `c`, if any.
pub fn rfind_char(s: &str, c: char) -> (r: Option<usize>)
    ensures
        match r {
            Some(i) => i < s@.len() && s@[i as int] == c && forall|j: int|
                i < j < s@.len() ==> s@[j] != c,
            None => !s@.contains(c),
        },
{
    let n = s.unicode_len();
    let mut i: usize = n;
    while i > 0
        invariant
            n == s@.len(),
            i <= n,
            forall|j: int| i <= j < s@.len() ==> s@[j] != c,
        decreases i,
    {
        i -= 1;
        if s.get_char(i) == c {
            return Some(i);
        }
    }
    assert(!s@.contains(c)) by {
        assert(forall|j: int| 0 <= j < s@.len() ==> s@[j] != c);
    }
    None
}

/// Whether the two strings hold the same characters.
pub fn str_eq(a: &str, b: &str) -> (r: bool)
    ensures
        r == (a@ == b@),
{
    let na = a.unicode_len();
    let nb = b.unicode_len();
    if na != nb {
        return false;
    }
    let mut i: usize = 0;
    while i < na
        invariant
            na == a@.len(),
            na == b@.len(),
            i <= na,
            forall|j: int| 0 <= j < i ==> a@[j] == b@[j],
        decreases na - i,
    {
        if a.get_char(i) != b.get_char(i) {
            return false;
        }
        i += 1;
    }
    proof {
        assert(a@ =~= b@);
    }
    true
}

pub open spec fn spec_starts_with(s: Seq<char>, prefix: Seq<char>) -> bool {
    prefix.len() <= s.len() && s.subrange(0, prefix.len() as int) == prefix
}

/// Whether `s` begins with `prefix`.
pub fn str_starts_with(s: &str, prefix: &str) -> (r: bool)
    ensures
        r == spec_starts_with(s@, prefix@),
{
    let n = s.unicode_len();
    let np = prefix.unicode_len();
    if np > n {
        assert(!spec_starts_with(s@, prefix@));
        return false;
    }
    let mut i: usize = 0;
    while i < np
        invariant
            n == s@.len(),
            np == prefix@.len(),
            np <= n,
            i <= np,
            forall|j: int| 0 <= j < i ==> s@[j] == prefix@[j],
        decreases np - i,
    {
        if s.get_char(i) != prefix.get_char(i) {
            assert(!spec_starts_with(s@, prefix@)) by {
                assert(s@.subrange(0, prefix@.len() as int)[i as int] != prefix@[i as int]);
            }
            return false;
        }
        i += 1;
    }
    assert(s@.subrange(0, prefix@.len() as int) =~= prefix@);
    true
}

pub open spec fn spec_ends_with(s: Seq<char>, suffix: Seq<char>) -> bool {
    suffix.len() <= s.len() && s.subrange(s.len() - suffix.len(), s.len() as int) == suffix
}

/// Whether `s` ends with `suffix`.
pub fn str_ends_with(s: &str, suffix: &str) -> (r: bool)
    ensures
        r == spec_ends_with(s@, suffix@),
{
    let n = s.unicode_len();
    let ns = suffix.unicode_len();
    if ns > n {
        assert(!spec_ends_with(s@, suffix@));
        return false;
    }
    let off = n - ns;
    let mut i: usize = 0;
    while i < ns
        invariant
            n == s@.len(),
            ns == suffix@.len(),
            off == n - ns,
            i <= ns,
            forall|j: int| 0 <= j < i ==> s@[off + j] == suffix@[j],
        decreases ns - i,
    {
        if s.get_char(off + i) != suffix.get_char(i) {
            assert(!spec_ends_with(s@, suffix@)) by {
                assert(s@.subrange(s@.len() - suffix@.len(), s@.len() as int)[i as int]
                    != suffix@[i as int]);
            }
            return false;
        }
        i += 1;
    }
    assert(s@.subrange(s@.len() - suffix@.len(), s@.len() as int) =~= suffix@);
    true
}

/// `s` with every occurrence of `from` replaced by `to`.
pub open spec fn spec_replace_char(s: Seq<char>, from: char, to: char) -> Seq<char> {
    s.map_values(|c: char| if c == from { to } else { c })
}

/// Executable mirror of `spec_replace_char`.
pub fn replace_char(s: &str, from: char, to: char) -> (r: String)
    ensures
        r@ == spec_replace_char(s@, from, to),
{
    let n = s.unicode_len();
    let mut out = String::new();
    let mut i: usize = 0;
    while i < n
        invariant
            n == s@.len(),
            i <= n,
            out@ == spec_replace_char(s@.take(i as int), from, to),
        decreases n - i,
    {
        let c = s.get_char(i);
        if c == from {
            push_char(&mut out, to);
        } else {
            push_char(&mut out, c);
        }
        proof {
            assert(s@.take(i + 1).map_values(|x: char| if x == from { to } else { x })
                =~= s@.take(i as int).map_values(|x: char| if x == from { to } else { x }).push(
                if s@[i as int] == from { to } else { s@[i as int] }));
        }
        i += 1;
    }
    proof {
        assert(s@.take(n as int) =~= s@);
    }
    out
}

/// The longest prefix of `s` that holds no `stop` character.
pub open spec fn spec_prefix_before(s: Seq<char>, stop: char) -> Seq<char>
    decreases s.len(),
{
    if s.len() == 0 {
        s
    } else if s[0] == stop {
        Seq::<char>::empty()
    } else {
        seq![s[0]] + spec_prefix_before(s.drop_first(), stop)
    }
}

/// The number of leading whitespace characters.
pub open spec fn spec_ws_prefix_len(s: Seq<char>) -> int
    decreases s.len(),
{
    if s.len() == 0 {
        0
    } else if is_whitespace_char(s[0]) {
        1 + spec_ws_prefix_len(s.drop_first())
    } else {
        0
    }
}

/// The number of trailing whitespace characters.
pub open spec fn spec_ws_suffix_len(s: Seq<char>) -> int
    decreases s.len(),
{
    if s.len() == 0 {
        0
    } else if is_whitespace_char(s.last()) {
        1 + spec_ws_suffix_len(s.drop_last())
    } else {
        0
    }
}

/// `s` without leading and trailing whitespace.
pub open spec fn spec_trim(s: Seq<char>) -> Seq<char> {
    let a = spec_ws_prefix_len(s);
    if a == s.len() {
        Seq::<char>::empty()
    } else {
        s.subrange(a, s.len() - spec_ws_suffix_len(s))
    }
}

proof fn lemma_ws_prefix_len_of(s: Seq<char>, a: int)
    requires
        0 <= a <= s.len(),
        forall|j: int| 0 <= j < a ==> is_whitespace_char(s[j]),
        a < s.len() ==> !is_whitespace_char(s[a]),
    ensures
        spec_ws_prefix_len(s) == a,
    decreases s.len(),
{
    if s.len() > 0 && is_whitespace_char(s[0]) {
        assert(a > 0);
        lemma_ws_prefix_len_of(s.drop_first(), a - 1);
    }
}

proof fn lemma_ws_suffix_len_of(s: Seq<char>, b: int)
    requires
        0 <= b <= s.len(),
        forall|j: int| s.len() - b <= j < s.len() ==> is_whitespace_char(s[j]),
        b < s.len() ==> !is_whitespace_char(s[s.len() - b - 1]),
    ensures
        spec_ws_suffix_len(s) == b,
    decreases s.len(),
{
    if s.len() > 0 && is_whitespace_char(s.last()) {
        assert(b > 0);
        lemma_ws_suffix_len_of(s.drop_last(), b - 1);
    }
}

/// A concatenation holds an element exactly when one of its parts does.
pub proof fn lemma_concat_contains<A>(a: Seq<A>, b: Seq<A>, c: A)
    ensures
        (a + b).contains(c) <==> a.contains(c) || b.contains(c),
{
    if a.contains(c) {
        let i = choose|i: int| 0 <= i < a.len() && a[i] == c;
        assert((a + b)[i] == c);
    }
    if b.contains(c) {
        let i = choose|i: int| 0 <= i < b.len() && b[i] == c;
        assert((a + b)[a.len() + i] == c);
    }
    if (a + b).contains(c) {
        let i = choose|i: int| 0 <= i < (a + b).len() && (a + b)[i] == c;
        if i < a.len() {
            assert(a[i] == c);
        } else {
            assert(b[i - a.len()] == c);
        }
    }
}

/// A subrange holds no character that the whole sequence lacks.
pub proof fn lemma_subrange_contains(s: Seq<char>, i: int, j: int, c: char)
    requires
        0 <= i <= j <= s.len(),
    ensures
        s.subrange(i, j).contains(c) ==> s.contains(c),
{
    if s.subrange(i, j).contains(c) {
        let k = choose|k: int| 0 <= k < j - i && s.subrange(i, j)[k] == c;
        assert(s[i + k] == c);
    }
}

proof fn lemma_ws_prefix_len_bounds(s: Seq<char>)
    ensures
        0 <= spec_ws_prefix_len(s) <= s.len(),
        spec_ws_prefix_len(s) < s.len() ==> !is_whitespace_char(s[spec_ws_prefix_len(s)]),
    decreases s.len(),
{
    if s.len() > 0 && is_whitespace_char(s[0]) {
        lemma_ws_prefix_len_bounds(s.drop_first());
        if spec_ws_prefix_len(s) < s.len() {
            assert(s.drop_first()[spec_ws_prefix_len(s) - 1] == s[spec_ws_prefix_len(s)]);
        }
    }
}

proof fn lemma_ws_suffix_len_bounds(s: Seq<char>)
    ensures
        0 <= spec_ws_suffix_len(s) <= s.len(),
        forall|j: int| s.len() - spec_ws_suffix_len(s) <= j < s.len() ==> is_whitespace_char(
            s[j],
        ),
    decreases s.len(),
{
    if s.len() > 0 && is_whitespace_char(s.last()) {
        lemma_ws_suffix_len_bounds(s.drop_last());
        assert forall|j: int|
            s.len() - spec_ws_suffix_len(s) <= j < s.len() implies is_whitespace_char(
            s[j],
        ) by {
            if j < s.len() - 1 {
                assert(s.drop_last()[j] == s[j]);
            }
        }
    }
}

/// Trimming introduces no character: whatever the trimmed string holds, the
/// original held.
pub proof fn lemma_trim_contains(s: Seq<char>, c: char)
    ensures
        spec_trim(s).contains(c) ==> s.contains(c),
{
    lemma_ws_prefix_len_bounds(s);
    lemma_ws_suffix_len_bounds(s);
    let a = spec_ws_prefix_len(s);
    if a < s.len() {
        let b = spec_ws_suffix_len(s);
        assert(b <= s.len() - a - 1) by {
            if b > s.len() - a - 1 {
                assert(is_whitespace_char(s[a]));
            }
        }
        lemma_subrange_contains(s, a, s.len() - b, c);
    }
}

/// The prefix taken before the first `stop` never holds `stop`.
pub proof fn lemma_prefix_before_no_stop(p: Seq<char>, stop: char)
    ensures
        !spec_prefix_before(p, stop).contains(stop),
    decreases p.len(),
{
    if p.len() > 0 && p[0] != stop {
        lemma_prefix_before_no_stop(p.drop_first(), stop);
        lemma_concat_contains(seq![p[0]], spec_prefix_before(p.drop_first(), stop), stop);
        assert(!seq![p[0]].contains(stop)) by {
            if seq![p[0]].contains(stop) {
                let i = choose|i: int| 0 <= i < 1 && seq![p[0]][i] == stop;
                assert(seq![p[0]][0] == p[0]);
            }
        }
    }
}

/// Executable mirror of `spec_trim`.
pub fn trim(s: &str) -> (r: String)
    ensures
        r@ == spec_trim(s@),
{
    let n = s.unicode_len();
    let mut a: usize = 0;
    while a < n && char_is_whitespace(s.get_char(a))
        invariant
            n == s@.len(),
            a <= n,
            forall|j: int| 0 <= j < a ==> is_whitespace_char(s@[j]),
        decreases n - a,
    {
        a += 1;
    }
    proof {
        lemma_ws_prefix_len_of(s@, a as int);
    }
    if a == n {
        let r = String::new();
        return r;
    }
    let mut b: usize = n;
    while b > a && char_is_whitespace(s.get_char(b - 1))
        invariant
            n == s@.len(),
            a < n,
            a <= b <= n,
            !is_whitespace_char(s@[a as int]),
            forall|j: int| b <= j < n ==> is_whitespace_char(s@[j]),
        decreases b,
    {
        b -= 1;
    }
    proof {
        lemma_ws_suffix_len_of(s@, n - b);
    }
    let r = s.substring_char(a, b);
    proof {
        assert(r@ == spec_trim(s@));
    }
    String::from_str(r)
}

/// Characters up to but not including the first occurrence of `stop`
/// (the whole string when `stop` does not occur).
pub fn prefix_before(s: &str, stop: char) -> (r: String)
    ensures
        r@ == spec_prefix_before(s@, stop),
        !r@.contains(stop),
{
    let cut = match find_char(s, stop) {
        Some(i) => i,
        None => s.unicode_len(),
    };
    let r = s.substring_char(0, cut);
    proof {
        lemma_prefix_before_is_subrange(s@, stop, cut as int);
        assert(forall|j: int| 0 <= j < r@.len() ==> r@[j] != stop);
        assert(!r@.contains(stop)) by {
            assert(forall|j: int| 0 <= j < r@.len() ==> r@[j] != stop);
        }
    }
    String::from_str(r)
}

/// The prefix before the first `stop` is the subrange up to its index.
pub proof fn lemma_prefix_before_is_subrange(s: Seq<char>, stop: char, cut: int)
    requires
        0 <= cut <= s.len(),
        forall|j: int| 0 <= j < cut ==> s[j] != stop,
        cut < s.len() ==> s[cut] == stop,
    ensures
        spec_prefix_before(s, stop) == s.subrange(0, cut),
    decreases s.len(),
{
    if s.len() == 0 {
        assert(spec_prefix_before(s, stop) =~= s.subrange(0, cut));
    } else if s[0] == stop {
        assert(cut == 0);
        assert(spec_prefix_before(s, stop) =~= s.subrange(0, cut));
    } else {
        assert(cut > 0 || cut == 0);
        if cut == 0 {
            assert(s[0] != stop);
            assert(cut < s.len() ==> s[cut] == stop);
            assert(false);
        }
        lemma_prefix_before_is_subrange(s.drop_first(), stop, cut - 1);
        assert(spec_prefix_before(s, stop) =~= seq![s[0]] + s.drop_first().subrange(0, cut - 1));
        assert(seq![s[0]] + s.drop_first().subrange(0, cut - 1) =~= s.subrange(0, cut));
    }
}

} // verus!
