//! Text operations on which matching and message formatting rest.

use vstd::prelude::*;

verus! {

/// `needle` occurs in `hay` starting at position `i`.
pub open spec fn occurs_at(hay: Seq<char>, needle: Seq<char>, i: int) -> bool {
    &&& 0 <= i
    &&& i + needle.len() <= hay.len()
    &&& hay.subrange(i, i + needle.len()) == needle
}

/// `needle` is a contiguous part of `hay` (what `str::contains` decides for a string pattern).
pub open spec fn is_substring(needle: Seq<char>, hay: Seq<char>) -> bool {
    exists|i: int| occurs_at(hay, needle, i)
}

/// Whether `needle` occurs in `hay`, in the sense of `str::contains` with a string pattern.
pub fn str_contains(hay: &str, needle: &str) -> (found: bool)
    ensures
        found == is_substring(needle@, hay@),
{
    let n = hay.unicode_len();
    let m = needle.unicode_len();
    if m > n {
        proof {
            assert forall|i: int| !occurs_at(hay@, needle@, i) by {}
        }
        return false;
    }
    let mut i: usize = 0;
    while i <= n - m
        invariant
            n == hay@.len(),
            m == needle@.len(),
            m <= n,
            i <= n - m + 1,
            forall|j: int| 0 <= j < i ==> !occurs_at(hay@, needle@, j),
        decreases n - m + 1 - i,
    {
        let mut k: usize = 0;
        let mut same = true;
        while k < m
            invariant
                n == hay@.len(),
                m == needle@.len(),
                i + m <= n,
                k <= m,
                same == (forall|t: int| 0 <= t < k ==> hay@[i + t] == needle@[t]),
            decreases m - k,
        {
            if hay.get_char(i + k) != needle.get_char(k) {
                same = false;
            }
            k = k + 1;
        }
        if same {
            proof {
                assert(hay@.subrange(i as int, i + m) =~= needle@);
                assert(occurs_at(hay@, needle@, i as int));
            }
            return true;
        }
        proof {
            if occurs_at(hay@, needle@, i as int) {
                assert forall|t: int| 0 <= t < m implies hay@[i + t] == needle@[t] by {
                    assert(hay@.subrange(i as int, i + m)[t] == hay@[i + t]);
                }
            }
        }
        i = i + 1;
    }
    proof {
        assert forall|j: int| !occurs_at(hay@, needle@, j) by {
            if j >= i {
                assert(j + m > n);
            }
        }
    }
    false
}


/// What `str::to_lowercase` gives for a string: its Unicode lowercase form, where
/// a character's mapping may depend on its neighbours (a final sigma). A fixed
/// function of the characters alone.
pub uninterp spec fn lowercase(s: Seq<char>) -> Seq<char>;

/// Calls `str::to_lowercase`. The contract names its result `lowercase` of the
/// input's characters, and states that the empty string stays empty (each
/// character maps to at least one character, so nothing comes from nothing);
/// the Unicode case tables behind it are not stated here.
#[verifier::external_body]
pub(crate) fn to_lowercase(s: &str) -> (lowered: String)
    ensures
        lowered@ == lowercase(s@),
        s@.len() == 0 ==> lowered@.len() == 0,
{
    s.to_lowercase()
}

/// The character of a decimal digit.
pub open spec fn digit_char(d: nat) -> char
    recommends
        d < 10,
{
    (48 + d) as char
}

/// The decimal notation of `n`, most significant digit first, no leading zeros.
pub open spec fn decimal(n: nat) -> Seq<char>
    decreases n,
{
    if n < 10 {
        seq![digit_char(n)]
    } else {
        decimal(n / 10).push(digit_char(n % 10))
    }
}

fn digit_str(d: u64) -> (s: &'static str)
    requires
        d < 10,
    ensures
        s@ == seq![digit_char(d as nat)],
{
    proof {
        reveal_strlit("0");
        reveal_strlit("1");
        reveal_strlit("2");
        reveal_strlit("3");
        reveal_strlit("4");
        reveal_strlit("5");
        reveal_strlit("6");
        reveal_strlit("7");
        reveal_strlit("8");
        reveal_strlit("9");
    }
    match d {
        0 => "0",
        1 => "1",
        2 => "2",
        3 => "3",
        4 => "4",
        5 => "5",
        6 => "6",
        7 => "7",
        8 => "8",
        _ => "9",
    }
}

/// The decimal notation of `n`, as `n.to_string()` writes it.
pub fn u64_to_decimal(n: u64) -> (s: String)
    ensures
        s@ == decimal(n as nat),
    decreases n,
{
    if n < 10 {
        String::from_str(digit_str(n))
    } else {
        let mut s = u64_to_decimal(n / 10);
        s.append(digit_str(n % 10));
        s
    }
}

/// A decimal digit character.
pub open spec fn is_digit(c: char) -> bool {
    '0' <= c && c <= '9'
}

/// The value of a digit character.
pub open spec fn digit_value(c: char) -> nat {
    (c as int - 48) as nat
}

/// The value of a string of decimal digits (0 for the empty string).
pub open spec fn digits_value(s: Seq<char>) -> nat
    decreases s.len(),
{
    if s.len() == 0 {
        0
    } else {
        digits_value(s.drop_last()) * 10 + digit_value(s.last())
    }
}

/// The part of `s` that holds the digits: `s` without one leading `+`.
pub open spec fn unsigned_body(s: Seq<char>) -> Seq<char> {
    if s.len() > 0 && s[0] == '+' {
        s.drop_first()
    } else {
        s
    }
}

/// What `s.parse::<u16>()` gives: an optional `+`, then one or more decimal
/// digits whose value fits in 16 bits; anything else is refused.
pub open spec fn parse_u16_spec(s: Seq<char>) -> Option<u16> {
    let body = unsigned_body(s);
    if body.len() > 0 && (forall|i: int| 0 <= i < body.len() ==> is_digit(#[trigger] body[i]))
        && digits_value(body) <= 65535 {
        Some(digits_value(body) as u16)
    } else {
        None
    }
}

proof fn lemma_digits_value_prefix(s: Seq<char>, k: int)
    requires
        0 <= k < s.len(),
        forall|i: int| 0 <= i < s.len() ==> is_digit(#[trigger] s[i]),
    ensures
        digits_value(s.subrange(0, k + 1)) == digits_value(s.subrange(0, k)) * 10 + digit_value(s[k]),
{
    assert(s.subrange(0, k + 1).drop_last() =~= s.subrange(0, k));
}

proof fn lemma_digits_value_monotone(s: Seq<char>, k: int)
    requires
        0 <= k <= s.len(),
        forall|i: int| 0 <= i < s.len() ==> is_digit(#[trigger] s[i]),
    ensures
        digits_value(s.subrange(0, k)) <= digits_value(s),
    decreases s.len() - k,
{
    if k < s.len() {
        lemma_digits_value_prefix(s, k);
        lemma_digits_value_monotone(s, k + 1);
    } else {
        assert(s.subrange(0, k) =~= s);
    }
}

/// Parses a 16-bit unsigned number as `str::parse::<u16>` does.
pub fn parse_u16(s: &str) -> (res: Option<u16>)
    ensures
        res == parse_u16_spec(s@),
{
    let n = s.unicode_len();
    let mut start: usize = 0;
    if n > 0 && s.get_char(0) == '+' {
        start = 1;
    }
    let ghost body = unsigned_body(s@);
    proof {
        assert(body =~= s@.subrange(start as int, n as int));
    }
    if start >= n {
        return None;
    }
    let mut acc: u32 = 0;
    let mut i: usize = start;
    while i < n
        invariant
            n == s@.len(),
            start <= i <= n,
            body == unsigned_body(s@),
            body =~= s@.subrange(start as int, n as int),
            forall|j: int| 0 <= j < i - start ==> is_digit(#[trigger] body[j]),
            acc as nat == digits_value(body.subrange(0, i - start)),
            acc <= 65535,
        decreases n - i,
    {
        let c = s.get_char(i);
        proof {
            assert(body[i - start] == s@[i as int]);
        }
        if !('0' <= c && c <= '9') {
            proof {
                assert(!is_digit(body[i - start]));
                assert(!(forall|j: int| 0 <= j < body.len() ==> is_digit(#[trigger] body[j])));
            }
            return None;
        }
        let d = (c as u32) - 48;
        proof {
            assert(body[i - start] == c);
            assert(body.subrange(0, i - start + 1).drop_last() =~= body.subrange(0, i - start));
            assert(body.subrange(0, i - start + 1).last() == c);
        }
        let next = acc * 10 + d;
        if next > 65535 {
            proof {
                assert(forall|j: int| 0 <= j < i - start + 1 ==> is_digit(#[trigger] body[j]));
                assert(digit_value(c) == d);
                assert(digits_value(body.subrange(0, i - start + 1)) == digits_value(
                    body.subrange(0, i - start),
                ) * 10 + digit_value(c));
                assert(digits_value(body.subrange(0, i - start + 1)) == next);
                if forall|j: int| 0 <= j < body.len() ==> is_digit(#[trigger] body[j]) {
                    lemma_digits_value_monotone(body, i - start + 1);
                    assert(digits_value(body) > 65535);
                }
            }
            return None;
        }
        acc = next;
        i = i + 1;
    }
    proof {
        assert(body.subrange(0, n - start) =~= body);
    }
    Some(acc as u16)
}

/// The items of `list` separated by `sep`, as `slice::join` writes them.
pub open spec fn joined(list: Seq<Seq<char>>, sep: Seq<char>) -> Seq<char>
    decreases list.len(),
{
    if list.len() == 0 {
        Seq::empty()
    } else if list.len() == 1 {
        list[0]
    } else {
        joined(list.drop_last(), sep) + sep + list.last()
    }
}

/// A part of `a`, or of `b`, is a part of `a + b`.
pub proof fn lemma_substring_extend(x: Seq<char>, a: Seq<char>, b: Seq<char>)
    ensures
        is_substring(x, a) ==> is_substring(x, a + b),
        is_substring(x, b) ==> is_substring(x, a + b),
{
    if is_substring(x, a) {
        let i = choose|i: int| occurs_at(a, x, i);
        assert((a + b).subrange(i, i + x.len()) =~= a.subrange(i, i + x.len()));
        assert(occurs_at(a + b, x, i));
    }
    if is_substring(x, b) {
        let i = choose|i: int| occurs_at(b, x, i);
        let j = a.len() + i;
        assert((a + b).subrange(j, j + x.len()) =~= b.subrange(i, i + x.len()));
        assert(occurs_at(a + b, x, j));
    }
}

/// Every item of a list occurs in the list joined with any separator.
pub proof fn lemma_joined_contains(list: Seq<Seq<char>>, sep: Seq<char>, k: int)
    requires
        0 <= k < list.len(),
    ensures
        is_substring(list[k], joined(list, sep)),
    decreases list.len(),
{
    if list.len() == 1 {
        assert(list[k].subrange(0, list[k].len() as int) =~= list[k]);
        assert(occurs_at(list[k], list[k], 0));
    } else {
        let rest = list.drop_last();
        let last = list.last();
        let left = joined(rest, sep) + sep;
        assert(joined(list, sep) == left + last);
        if k == list.len() - 1 {
            assert(last.subrange(0, last.len() as int) =~= last);
            assert(occurs_at(last, last, 0));
            lemma_substring_extend(last, left, last);
        } else {
            lemma_joined_contains(rest, sep, k);
            assert(rest[k] == list[k]);
            lemma_substring_extend(list[k], joined(rest, sep), sep);
            lemma_substring_extend(list[k], left, last);
        }
    }
}

/// The strings of a vector, by their characters.
pub open spec fn strings_view(v: Seq<String>) -> Seq<Seq<char>> {
    v.map_values(|s: String| s@)
}

/// `list.join(sep)`.
pub fn join_strings(list: &Vec<String>, sep: &str) -> (res: String)
    ensures
        res@ == joined(strings_view(list@), sep@),
{
    let mut res = String::new();
    let ghost views = strings_view(list@);
    let mut i: usize = 0;
    while i < list.len()
        invariant
            i <= list.len(),
            views == strings_view(list@),
            res@ == joined(views.take(i as int), sep@),
        decreases list.len() - i,
    {
        proof {
            assert(views.take(i + 1).drop_last() =~= views.take(i as int));
        }
        if i != 0 {
            res.append(sep);
        }
        res.append(list[i].as_str());
        proof {
            assert(views.take(i + 1).last() == list@[i as int]@);
            if i == 0 {
                assert(views.take(1).len() == 1);
            }
        }
        i = i + 1;
    }
    proof {
        assert(views.take(list.len() as int) =~= views);
    }
    res
}

} // verus!
