//! Scanning of text by characters: searching, splitting into fields and
//! reading decimal numerals.

use vstd::prelude::*;

verus! {

/// The characters of an optional text.
pub open spec fn opt_text(t: Option<&str>) -> Option<Seq<char>> {
    match t {
        Some(s) => Some(s@),
        None => None,
    }
}

/// Whether `c` is one of the ASCII digits.
pub open spec fn is_digit(c: char) -> bool {
    48 <= c as u32 <= 57
}

/// Whether `c` has the Unicode property `White_Space`.
pub open spec fn is_space(c: char) -> bool {
    let u = c as u32;
    (9 <= u <= 13) || u == 0x20 || u == 0x85 || u == 0xA0 || u == 0x1680 || (0x2000 <= u
        <= 0x200A) || u == 0x2028 || u == 0x2029 || u == 0x202F || u == 0x205F || u == 0x3000
}

/// The first index at or after `from` at which `c` stands in `s`; the length
/// of `s` where there is none.
pub open spec fn find_from(s: Seq<char>, c: char, from: int) -> int
    decreases s.len() - from,
{
    if from < 0 || from >= s.len() {
        s.len() as int
    } else if s[from] == c {
        from
    } else {
        find_from(s, c, from + 1)
    }
}

/// The first index at or after `from` whose character is white space
/// (`space == true`) or is not (`space == false`); the length of `s` where
/// there is none.
pub open spec fn scan_space(s: Seq<char>, space: bool, from: int) -> int
    decreases s.len() - from,
{
    if from < 0 || from >= s.len() {
        s.len() as int
    } else if is_space(s[from]) == space {
        from
    } else {
        scan_space(s, space, from + 1)
    }
}

/// The fields of `s` that white space separates, from index `from` on.
pub open spec fn space_fields(s: Seq<char>, from: int) -> Seq<Seq<char>>
    decreases s.len() - from,
{
    let start = scan_space(s, false, from);
    let end = scan_space(s, true, start);
    if 0 <= from <= start < end <= s.len() {
        seq![s.subrange(start, end)] + space_fields(s, end)
    } else {
        Seq::empty()
    }
}

/// The number that a run of digits denotes.
pub open spec fn digits_value(s: Seq<char>) -> nat
    decreases s.len(),
{
    if s.len() == 0 {
        0
    } else {
        digits_value(s.drop_last()) * 10 + ((s.last() as u32 - 48) as nat)
    }
}

/// Whether every character of `s` is a digit.
pub open spec fn all_digits(s: Seq<char>) -> bool {
    forall|i: int| 0 <= i < s.len() ==> is_digit(#[trigger] s[i])
}

/// `s` without one leading plus sign.
pub open spec fn unsigned_body(s: Seq<char>) -> Seq<char> {
    if s.len() > 0 && s[0] == '+' {
        s.subrange(1, s.len() as int)
    } else {
        s
    }
}

/// The number that `s` denotes as an unsigned decimal numeral of at most
/// `max`: an optional plus sign, then one or more digits. Anything else
/// denotes nothing.
pub open spec fn parse_decimal(s: Seq<char>, max: nat) -> Option<nat> {
    let body = unsigned_body(s);
    if body.len() > 0 && all_digits(body) && digits_value(body) <= max {
        Some(digits_value(body))
    } else {
        None
    }
}

/// Whether `pat` stands in `s` at index `i`.
pub open spec fn occurs_at(s: Seq<char>, pat: Seq<char>, i: int) -> bool {
    0 <= i && i + pat.len() <= s.len() && s.subrange(i, i + pat.len()) == pat
}

/// Whether `pat` stands somewhere in `s`.
pub open spec fn contains_text(s: Seq<char>, pat: Seq<char>) -> bool {
    exists|i: int| occurs_at(s, pat, i)
}

/// `s` without the white space at its two ends.
pub open spec fn trimmed(s: Seq<char>) -> Seq<char> {
    let start = scan_space(s, false, 0);
    s.subrange(start, trim_end(s, start))
}

/// The end of the last character at or after `start` that is no white space;
/// `start` where there is none.
pub open spec fn trim_end(s: Seq<char>, start: int) -> int
    decreases s.len(),
{
    if s.len() <= start || s.len() == 0 {
        start
    } else if !is_space(s.last()) {
        s.len() as int
    } else {
        trim_end(s.drop_last(), start)
    }
}

pub proof fn lemma_find_from_bounds(s: Seq<char>, c: char, from: int)
    requires
        0 <= from <= s.len(),
    ensures
        from <= find_from(s, c, from) <= s.len(),
        find_from(s, c, from) < s.len() ==> s[find_from(s, c, from)] == c,
        forall|j: int| from <= j < find_from(s, c, from) ==> s[j] != c,
    decreases s.len() - from,
{
    if from < s.len() && s[from] != c {
        lemma_find_from_bounds(s, c, from + 1);
    }
}

pub proof fn lemma_scan_space_bounds(s: Seq<char>, space: bool, from: int)
    requires
        0 <= from <= s.len(),
    ensures
        from <= scan_space(s, space, from) <= s.len(),
        scan_space(s, space, from) < s.len() ==> is_space(s[scan_space(s, space, from)])
            == space,
        forall|j: int| from <= j < scan_space(s, space, from) ==> is_space(s[j]) != space,
    decreases s.len() - from,
{
    if from < s.len() && is_space(s[from]) != space {
        lemma_scan_space_bounds(s, space, from + 1);
    }
}

/// A run of digits denotes at least what any of its prefixes denotes.
pub proof fn lemma_digits_value_prefix(s: Seq<char>, k: int)
    requires
        0 <= k <= s.len(),
    ensures
        digits_value(s.subrange(0, k)) <= digits_value(s),
    decreases s.len(),
{
    if k == s.len() {
        assert(s.subrange(0, k) =~= s);
    } else {
        lemma_digits_value_prefix(s.drop_last(), k);
        assert(s.drop_last().subrange(0, k) =~= s.subrange(0, k));
    }
}

/// The characters of `s`.
pub fn to_chars(s: &str) -> (v: Vec<char>)
    ensures
        v@ == s@,
{
    let n: usize = s.unicode_len();
    let mut v: Vec<char> = Vec::new();
    let mut i: usize = 0;
    while i < n
        invariant
            n == s@.len(),
            i <= n,
            v@ == s@.subrange(0, i as int),
        decreases n - i,
    {
        v.push(s.get_char(i));
        i += 1;
        proof {
            assert(v@ =~= s@.subrange(0, i as int));
        }
    }
    proof {
        assert(v@ =~= s@);
    }
    v
}

/// Whether `c` is white space.
pub fn char_is_space(c: char) -> (r: bool)
    ensures
        r == is_space(c),
{
    let u: u32 = c as u32;
    (9 <= u && u <= 13) || u == 0x20 || u == 0x85 || u == 0xA0 || u == 0x1680 || (0x2000 <= u
        && u <= 0x200A) || u == 0x2028 || u == 0x2029 || u == 0x202F || u == 0x205F || u
        == 0x3000
}

/// The first index at or after `from` at which `c` stands.
pub fn find_char(chars: &Vec<char>, c: char, from: usize) -> (r: usize)
    requires
        from <= chars@.len(),
    ensures
        r == find_from(chars@, c, from as int),
        from <= r <= chars@.len(),
{
    let mut i: usize = from;
    while i < chars.len() && chars[i] != c
        invariant
            from <= i <= chars@.len(),
            find_from(chars@, c, from as int) == find_from(chars@, c, i as int),
        decreases chars@.len() - i,
    {
        i += 1;
    }
    i
}

/// The first index at or after `from` whose character is white space, or is
/// not, as `space` says.
pub fn skip_to(chars: &Vec<char>, space: bool, from: usize) -> (r: usize)
    requires
        from <= chars@.len(),
    ensures
        r == scan_space(chars@, space, from as int),
        from <= r <= chars@.len(),
{
    let mut i: usize = from;
    while i < chars.len() && char_is_space(chars[i]) != space
        invariant
            from <= i <= chars@.len(),
            scan_space(chars@, space, from as int) == scan_space(chars@, space, i as int),
        decreases chars@.len() - i,
    {
        i += 1;
    }
    i
}

/// Reads the characters from `from` to `to` as an unsigned decimal numeral
/// of at most `max`.
pub fn parse_number(chars: &Vec<char>, from: usize, to: usize, max: u64) -> (r: Option<u64>)
    requires
        from <= to <= chars@.len(),
    ensures
        r.is_some() == parse_decimal(chars@.subrange(from as int, to as int), max as nat).is_some(),
        r.is_some() ==> r.unwrap() as nat == parse_decimal(
            chars@.subrange(from as int, to as int),
            max as nat,
        ).unwrap(),
{
    let ghost whole = chars@.subrange(from as int, to as int);
    let mut start: usize = from;
    if from < to && chars[from] == '+' {
        start = from + 1;
    }
    let ghost body = chars@.subrange(start as int, to as int);
    proof {
        assert(body =~= unsigned_body(whole));
    }
    if start == to {
        return None;
    }
    let mut acc: u64 = 0;
    let mut i: usize = start;
    while i < to
        invariant
            start <= i <= to <= chars@.len(),
            from <= start,
            body == chars@.subrange(start as int, to as int),
            body == unsigned_body(chars@.subrange(from as int, to as int)),
            all_digits(body.subrange(0, i - start)),
            acc as nat == digits_value(body.subrange(0, i - start)),
            acc <= max,
        decreases to - i,
    {
        let c: char = chars[i];
        let u: u32 = c as u32;
        if u < 48 || u > 57 {
            proof {
                assert(body[i - start] == c);
            }
            return None;
        }
        let d: u128 = (u - 48) as u128;
        let next: u128 = (acc as u128) * 10 + d;
        proof {
            let longer = body.subrange(0, i - start + 1);
            assert(longer.drop_last() =~= body.subrange(0, i - start));
            assert(longer.last() == c);
            assert(digits_value(longer) == next as nat);
            assert forall|j: int| 0 <= j < longer.len() implies is_digit(#[trigger] longer[j]) by {
                if j < i - start {
                    assert(body.subrange(0, i - start)[j] == longer[j]);
                }
            }
            lemma_digits_value_prefix(body, i - start + 1);
        }
        if next > max as u128 {
            return None;
        }
        acc = next as u64;
        i += 1;
    }
    proof {
        assert(body.subrange(0, to - start) =~= body);
    }
    Some(acc)
}

/// Whether `pat` stands in `chars` at index `at`.
pub fn matches_at(chars: &Vec<char>, pat: &Vec<char>, at: usize) -> (r: bool)
    requires
        at <= chars@.len(),
    ensures
        r == occurs_at(chars@, pat@, at as int),
{
    if pat.len() > chars.len() - at {
        return false;
    }
    let mut j: usize = 0;
    while j < pat.len()
        invariant
            j <= pat@.len(),
            at + pat@.len() <= chars@.len() <= usize::MAX,
            forall|k: int| 0 <= k < j ==> chars@[at + k] == pat@[k],
        decreases pat@.len() - j,
    {
        if chars[at + j] != pat[j] {
            proof {
                assert(chars@.subrange(at as int, at + pat@.len())[j as int] == chars@[at + j]);
            }
            return false;
        }
        j += 1;
    }
    proof {
        assert(chars@.subrange(at as int, at + pat@.len()) =~= pat@);
    }
    true
}

/// Whether `pat` stands somewhere in `s`.
pub fn text_contains(s: &str, pat: &str) -> (r: bool)
    ensures
        r == contains_text(s@, pat@),
{
    let chars = to_chars(s);
    let p = to_chars(pat);
    let mut i: usize = 0;
    while i < chars.len()
        invariant
            i <= chars@.len(),
            chars@ == s@,
            p@ == pat@,
            forall|k: int| 0 <= k < i ==> !occurs_at(chars@, p@, k),
        decreases chars@.len() - i,
    {
        if matches_at(&chars, &p, i) {
            return true;
        }
        i += 1;
    }
    matches_at(&chars, &p, i)
}

/// `s` without the white space at its two ends.
pub fn trim_text(s: &str) -> (r: String)
    ensures
        r@ == trimmed(s@),
{
    let chars = to_chars(s);
    let start: usize = skip_to(&chars, false, 0);
    let mut end: usize = chars.len();
    proof {
        assert(chars@.subrange(0, chars@.len() as int) =~= chars@);
    }
    while end > start && char_is_space(chars[end - 1])
        invariant
            start <= end <= chars@.len(),
            trim_end(chars@, start as int) == trim_end(chars@.subrange(0, end as int), start as int),
        decreases end,
    {
        proof {
            assert(chars@.subrange(0, end as int).drop_last() =~= chars@.subrange(0, end - 1));
        }
        end -= 1;
    }
    String::from_str(s.substring_char(start, end))
}

/// Where the field of index `n` stands, among the fields that white space
/// separates: its first index and the index after its last.
pub fn nth_field(chars: &Vec<char>, n: usize) -> (r: Option<(usize, usize)>)
    ensures
        r.is_some() == (n < space_fields(chars@, 0).len()),
        r.is_some() ==> r.unwrap().0 <= r.unwrap().1 <= chars@.len() && chars@.subrange(
            r.unwrap().0 as int,
            r.unwrap().1 as int,
        ) == space_fields(chars@, 0)[n as int],
{
    let ghost mut skipped: Seq<Seq<char>> = Seq::empty();
    let mut pos: usize = 0;
    let mut k: usize = 0;
    proof {
        assert(skipped + space_fields(chars@, 0) =~= space_fields(chars@, 0));
    }
    loop
        invariant
            pos <= chars@.len(),
            k <= n,
            skipped.len() == k,
            space_fields(chars@, 0) == skipped + space_fields(chars@, pos as int),
        decreases chars@.len() - pos,
    {
        let start: usize = skip_to(chars, false, pos);
        if start >= chars.len() {
            return None;
        }
        let end: usize = skip_to(chars, true, start);
        proof {
            lemma_scan_space_bounds(chars@, false, pos as int);
            lemma_scan_space_bounds(chars@, true, start + 1);
            assert(end > start);
        }
        if k == n {
            return Some((start, end));
        }
        proof {
            let field = chars@.subrange(start as int, end as int);
            assert(skipped + (seq![field] + space_fields(chars@, end as int)) =~= skipped.push(
                field,
            ) + space_fields(chars@, end as int));
            skipped = skipped.push(field);
        }
        pos = end;
        k += 1;
    }
}

} // verus!
