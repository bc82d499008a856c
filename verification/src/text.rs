//! Small verified helpers for working with text.

use vstd::prelude::*;

verus! {

/// Whether `c` is an ASCII uppercase letter.
pub open spec fn spec_is_ascii_upper(c: char) -> bool {
    65 <= c as u32 <= 90
}

/// Whether two characters are equal up to ASCII case.
pub open spec fn spec_chars_eq_ignore_ascii_case(a: char, b: char) -> bool {
    ||| a == b
    ||| (spec_is_ascii_upper(a) && a as u32 + 32 == b as u32)
    ||| (spec_is_ascii_upper(b) && b as u32 + 32 == a as u32)
}

/// Whether two character sequences are equal up to ASCII case.
pub open spec fn spec_eq_ignore_ascii_case(a: Seq<char>, b: Seq<char>) -> bool {
    a.len() == b.len() && (forall|i: int|
        0 <= i < a.len() ==> spec_chars_eq_ignore_ascii_case(a[i], #[trigger] b[i]))
}

/// Distinct characters have distinct code points.
proof fn lemma_char_code_injective(a: char, b: char)
    requires
        (a as u32) == (b as u32),
    ensures
        a == b,
{
}

/// Equality up to ASCII case is symmetric.
pub proof fn lemma_eq_ignore_ascii_case_symm(a: Seq<char>, b: Seq<char>)
    requires
        spec_eq_ignore_ascii_case(a, b),
    ensures
        spec_eq_ignore_ascii_case(b, a),
{
    assert forall|i: int| 0 <= i < b.len() implies spec_chars_eq_ignore_ascii_case(
        b[i],
        #[trigger] a[i],
    ) by {
        assert(spec_chars_eq_ignore_ascii_case(a[i], b[i]));
    }
}

/// Equality up to ASCII case is transitive.
pub proof fn lemma_eq_ignore_ascii_case_trans(a: Seq<char>, b: Seq<char>, c: Seq<char>)
    requires
        spec_eq_ignore_ascii_case(a, b),
        spec_eq_ignore_ascii_case(b, c),
    ensures
        spec_eq_ignore_ascii_case(a, c),
{
    assert forall|i: int| 0 <= i < a.len() implies spec_chars_eq_ignore_ascii_case(
        a[i],
        #[trigger] c[i],
    ) by {
        let x = a[i];
        let z = c[i];
        assert(spec_chars_eq_ignore_ascii_case(x, b[i]));
        assert(spec_chars_eq_ignore_ascii_case(b[i], z));
        if (x as u32) == (z as u32) {
            lemma_char_code_injective(x, z);
        }
        assert(spec_chars_eq_ignore_ascii_case(x, z));
    }
}

/// Compares two strings for equality, treating ASCII letters that differ only
/// in case as equal.
pub fn eq_ignore_ascii_case(a: &str, b: &str) -> (r: bool)
    ensures
        r == spec_eq_ignore_ascii_case(a@, b@),
{
    let a_len = a.unicode_len();
    let b_len = b.unicode_len();
    if a_len != b_len {
        return false;
    }
    let mut i: usize = 0;
    while i < a_len
        invariant
            i <= a_len,
            a_len == a@.len(),
            b_len == b@.len(),
            a_len == b_len,
            forall|j: int| 0 <= j < i ==> spec_chars_eq_ignore_ascii_case(a@[j], #[trigger] b@[j]),
        decreases a_len - i,
    {
        let ca = a.get_char(i);
        let cb = b.get_char(i);
        let ua = ca as u32;
        let ub = cb as u32;
        let same = if ua == ub {
            true
        } else if 65 <= ua && ua <= 90 && ua + 32 == ub {
            true
        } else if 65 <= ub && ub <= 90 && ub + 32 == ua {
            true
        } else {
            false
        };
        if !same {
            assert(!spec_chars_eq_ignore_ascii_case(a@[i as int], b@[i as int]));
            return false;
        }
        i += 1;
    }
    true
}

/// Compares two strings for exact equality, character by character.
pub fn str_eq(a: &str, b: &str) -> (r: bool)
    ensures
        r == (a@ == b@),
{
    let n = a.unicode_len();
    if n != b.unicode_len() {
        return false;
    }
    let mut i: usize = 0;
    while i < n
        invariant
            i <= n,
            n == a@.len(),
            n == b@.len(),
            forall|j: int| 0 <= j < i ==> a@[j] == b@[j],
        decreases n - i,
    {
        if a.get_char(i) != b.get_char(i) {
            return false;
        }
        i += 1;
    }
    proof {
        assert(a@ =~= b@);
    }
    true
}

/// Whether `c` counts as whitespace; what it holds is determined by the
/// character alone.
pub uninterp spec fn spec_is_whitespace(c: char) -> bool;

/// Relies on char::is_whitespace: whether `c` is Unicode whitespace, a
/// property of the character alone.
#[verifier::external_body]
pub(crate) fn char_is_whitespace(c: char) -> (r: bool)
    ensures
        r == spec_is_whitespace(c),
{
    c.is_whitespace()
}

/// `s` with its leading whitespace removed.
pub open spec fn spec_trim_start(s: Seq<char>) -> Seq<char>
    decreases s.len(),
{
    if s.len() > 0 && spec_is_whitespace(s[0]) {
        spec_trim_start(s.skip(1))
    } else {
        s
    }
}

/// `s` with its trailing whitespace removed.
pub open spec fn spec_trim_end(s: Seq<char>) -> Seq<char>
    decreases s.len(),
{
    if s.len() > 0 && spec_is_whitespace(s.last()) {
        spec_trim_end(s.drop_last())
    } else {
        s
    }
}

/// `s` with leading and trailing whitespace removed.
pub open spec fn spec_trim(s: Seq<char>) -> Seq<char> {
    spec_trim_end(spec_trim_start(s))
}

proof fn lemma_trim_start_at(s: Seq<char>, i: int)
    requires
        0 <= i <= s.len(),
        forall|k: int| 0 <= k < i ==> spec_is_whitespace(#[trigger] s[k]),
        i < s.len() ==> !spec_is_whitespace(s[i]),
    ensures
        spec_trim_start(s) == s.skip(i),
    decreases i,
{
    if i == 0 {
        assert(s.skip(0) =~= s);
    } else {
        assert(spec_is_whitespace(s[0]));
        lemma_trim_start_at(s.skip(1), i - 1);
        assert(s.skip(1).skip(i - 1) =~= s.skip(i));
    }
}

proof fn lemma_trim_end_at(s: Seq<char>, j: int)
    requires
        0 <= j <= s.len(),
        forall|k: int| j <= k < s.len() ==> spec_is_whitespace(#[trigger] s[k]),
        j > 0 ==> !spec_is_whitespace(s[j - 1]),
    ensures
        spec_trim_end(s) == s.take(j),
    decreases s.len() - j,
{
    if j == s.len() {
        assert(s.take(j) =~= s);
    } else {
        assert(spec_is_whitespace(s.last()));
        lemma_trim_end_at(s.drop_last(), j);
        assert(s.drop_last().take(j) =~= s.take(j));
    }
}

/// Removes leading and trailing whitespace from a string.
pub fn trim(s: &str) -> (r: &str)
    ensures
        r@ == spec_trim(s@),
{
    let n = s.unicode_len();
    let mut start: usize = 0;
    while start < n
        invariant
            start <= n,
            n == s@.len(),
            forall|k: int| 0 <= k < start ==> spec_is_whitespace(#[trigger] s@[k]),
        ensures
            start <= n,
            n == s@.len(),
            forall|k: int| 0 <= k < start ==> spec_is_whitespace(#[trigger] s@[k]),
            start < n ==> !spec_is_whitespace(s@[start as int]),
        decreases n - start,
    {
        let c = s.get_char(start);
        if !char_is_whitespace(c) {
            break;
        }
        start += 1;
    }
    let mut end: usize = n;
    while end > start
        invariant
            start <= end <= n,
            n == s@.len(),
            forall|k: int| end <= k < n ==> spec_is_whitespace(#[trigger] s@[k]),
        ensures
            start <= end <= n,
            n == s@.len(),
            forall|k: int| end <= k < n ==> spec_is_whitespace(#[trigger] s@[k]),
            end > start ==> !spec_is_whitespace(s@[end - 1]),
        decreases end,
    {
        let c = s.get_char(end - 1);
        if !char_is_whitespace(c) {
            break;
        }
        end -= 1;
    }
    proof {
        lemma_trim_start_at(s@, start as int);
        let t = s@.skip(start as int);
        assert(forall|k: int|
            end - start <= k < t.len() ==> spec_is_whitespace(#[trigger] t[k]));
        lemma_trim_end_at(t, end - start);
        assert(t.take(end - start) =~= s@.subrange(start as int, end as int));
    }
    s.substring_char(start, end)
}

/// The parts joined with a single space between adjacent parts.
pub open spec fn spec_join_spaces(parts: Seq<Seq<char>>) -> Seq<char>
    decreases parts.len(),
{
    if parts.len() == 0 {
        Seq::empty()
    } else if parts.len() == 1 {
        parts[0]
    } else {
        parts[0] + seq![' '] + spec_join_spaces(parts.skip(1))
    }
}

/// Joins the parts with a single space between adjacent parts.
pub fn join_spaces(parts: &Vec<String>) -> (r: String)
    ensures
        r@ == spec_join_spaces(parts.deep_view()),
{
    let ghost pv = parts.deep_view();
    let n = parts.len();
    let mut out = String::new();
    let mut i: usize = 0;
    while i < n
        invariant
            i <= n,
            n == parts.len(),
            pv == parts.deep_view(),
            pv.len() == n,
            i == 0 ==> out@.len() == 0,
            0 < i < n ==> spec_join_spaces(pv) == out@ + seq![' '] + spec_join_spaces(
                pv.skip(i as int),
            ),
            i == n && n > 0 ==> spec_join_spaces(pv) == out@,
        decreases n - i,
    {
        proof {
            assert(pv[i as int] == parts@[i as int]@);
            assert(pv.skip(i as int)[0] == pv[i as int]);
            assert(pv.skip(i as int).skip(1) =~= pv.skip(i + 1));
        }
        if i > 0 {
            proof {
                reveal_strlit(" ");
                assert(" "@ =~= seq![' ']);
            }
            out.append(" ");
        }
        out.append(parts[i].as_str());
        proof {
            let rest = pv.skip(i as int);
            if i == 0 {
                assert(out@ =~= pv[0]);
                if n > 1 {
                    assert(spec_join_spaces(pv) == pv[0] + seq![' '] + spec_join_spaces(
                        pv.skip(1),
                    ));
                }
            } else {
                if i + 1 < n {
                    assert(spec_join_spaces(rest) == rest[0] + seq![' '] + spec_join_spaces(
                        rest.skip(1),
                    ));
                    assert(spec_join_spaces(pv) =~= out@ + seq![' '] + spec_join_spaces(
                        pv.skip(i + 1),
                    ));
                } else {
                    assert(spec_join_spaces(rest) == rest[0]);
                    assert(spec_join_spaces(pv) =~= out@);
                }
            }
        }
        i += 1;
    }
    proof {
        if n == 0 {
            assert(out@ =~= spec_join_spaces(pv));
        }
    }
    out
}

/// The decimal digit character for a value below ten.
pub open spec fn spec_digit_char(d: int) -> char {
    if d == 0 {
        '0'
    } else if d == 1 {
        '1'
    } else if d == 2 {
        '2'
    } else if d == 3 {
        '3'
    } else if d == 4 {
        '4'
    } else if d == 5 {
        '5'
    } else if d == 6 {
        '6'
    } else if d == 7 {
        '7'
    } else if d == 8 {
        '8'
    } else {
        '9'
    }
}

/// The decimal rendering of a non-negative integer, most significant digit
/// first, without leading zeroes.
pub open spec fn spec_u64_dec(n: nat) -> Seq<char>
    decreases n,
{
    if n < 10 {
        seq![spec_digit_char(n as int)]
    } else {
        spec_u64_dec(n / 10) + seq![spec_digit_char((n % 10) as int)]
    }
}

/// The decimal rendering of a signed integer: a minus sign for negative
/// values, then the magnitude's digits.
pub open spec fn spec_i64_dec(v: int) -> Seq<char> {
    if v < 0 {
        seq!['-'] + spec_u64_dec((-v) as nat)
    } else {
        spec_u64_dec(v as nat)
    }
}

/// The one-character string for a decimal digit value.
fn digit_str(d: u64) -> (r: &'static str)
    requires
        d < 10,
    ensures
        r@ == seq![spec_digit_char(d as int)],
{
    proof {
        reveal_strlit("0");
        reveal_strlit("1");
        reveal_strlit("2");
        reveal_strlit("3");
        reveal_strlit("4");
        reveal_strlit("5");
        reveal_strlit("6");
        reveal_strlit("7");
        reveal_strlit("8");
        reveal_strlit("9");
    }
    let r = match d {
        0 => "0",
        1 => "1",
        2 => "2",
        3 => "3",
        4 => "4",
        5 => "5",
        6 => "6",
        7 => "7",
        8 => "8",
        _ => "9",
    };
    proof {
        assert(r@ =~= seq![spec_digit_char(d as int)]);
    }
    r
}

/// Renders a non-negative integer in decimal.
pub fn u64_to_string(n: u64) -> (r: String)
    ensures
        r@ == spec_u64_dec(n as nat),
    decreases n,
{
    if n < 10 {
        String::from_str(digit_str(n))
    } else {
        let mut s = u64_to_string(n / 10);
        s.append(digit_str(n % 10));
        s
    }
}

/// Renders a signed integer in decimal, with a leading minus sign when
/// negative.
pub fn i64_to_string(v: i64) -> (r: String)
    ensures
        r@ == spec_i64_dec(v as int),
{
    if v >= 0 {
        u64_to_string(v as u64)
    } else {
        let magnitude: u64 = (-(v as i128)) as u64;
        proof {
            reveal_strlit("-");
            assert("-"@ =~= seq!['-']);
        }
        let mut s = String::from_str("-");
        s.append(u64_to_string(magnitude).as_str());
        s
    }
}


} // verus!
