//! String helpers shared by the whole crate: equality, concatenation,
//! decimal formatting and parsing, line splitting, control-character
//! scrubbing. Everything here is specified over `Seq<char>`.

use vstd::prelude::*;
use vstd::string::StringExecFns;
use vstd::string::StrSliceExecFns;

verus! {

/// Relies on `String::push` of std: appends one character.
pub assume_specification[ String::push ](s: &mut String, c: char)
    ensures
        final(s)@ == old(s)@.push(c),
;

/// View of an optional string.
pub open spec fn opt_str_v(o: Option<String>) -> Option<Seq<char>> {
    match o {
        Some(s) => Some(s@),
        None => None,
    }
}

/// A copy of an optional string, with the same view.
pub fn clone_opt_str(o: &Option<String>) -> (r: Option<String>)
    ensures
        opt_str_v(r) == opt_str_v(*o),
{
    match o {
        Some(s) => Some(s.clone()),
        None => None,
    }
}

/// Equality of two string slices, abstractly.
pub fn str_eq(a: &str, b: &str) -> (r: bool)
    ensures
        r == (a@ == b@),
{
    let sa: String = a.to_owned();
    let sb: String = b.to_owned();
    sa == sb
}

/// The characters of a string, as a vector.
pub fn chars_of(s: &str) -> (v: Vec<char>)
    ensures
        v@ == s@,
{
    let n: usize = s.unicode_len();
    let mut v: Vec<char> = Vec::new();
    let mut i: usize = 0;
    while i < n
        invariant
            i <= n,
            n == s@.len(),
            v@ == s@.take(i as int),
        decreases n - i,
    {
        v.push(s.get_char(i));
        i = i + 1;
        proof {
            assert(v@ =~= s@.take(i as int));
        }
    }
    proof {
        assert(v@ =~= s@);
    }
    v
}

/// A string made of the given characters.
pub fn string_of_chars(cs: &[char]) -> (s: String)
    ensures
        s@ == cs@,
{
    let mut s = String::new();
    let mut i: usize = 0;
    while i < cs.len()
        invariant
            i <= cs@.len(),
            s@ == cs@.take(i as int),
        decreases cs@.len() - i,
    {
        s.push(cs[i]);
        i = i + 1;
        proof {
            assert(s@ =~= cs@.take(i as int));
        }
    }
    proof {
        assert(s@ =~= cs@);
    }
    s
}

/// Concatenation of two strings.
pub fn concat2(a: &str, b: &str) -> (r: String)
    ensures
        r@ == a@ + b@,
{
    let mut r: String = a.to_owned();
    r.append(b);
    r
}

/// Concatenation of three strings.
pub fn concat3(a: &str, b: &str, c: &str) -> (r: String)
    ensures
        r@ == a@ + b@ + c@,
{
    let mut r: String = a.to_owned();
    r.append(b);
    r.append(c);
    r
}

/// Concatenation of four strings.
pub fn concat4(a: &str, b: &str, c: &str, d: &str) -> (r: String)
    ensures
        r@ == a@ + b@ + c@ + d@,
{
    let mut r: String = a.to_owned();
    r.append(b);
    r.append(c);
    r.append(d);
    r
}

/// Concatenation of five strings.
pub fn concat5(a: &str, b: &str, c: &str, d: &str, e: &str) -> (r: String)
    ensures
        r@ == a@ + b@ + c@ + d@ + e@,
{
    let mut r: String = a.to_owned();
    r.append(b);
    r.append(c);
    r.append(d);
    r.append(e);
    r
}

/// The decimal digit characters.
pub open spec fn is_digit_char(c: char) -> bool {
    48 <= c as u32 <= 57
}

/// Value of one decimal digit character.
pub open spec fn digit_val(c: char) -> nat {
    (c as u32 - 48) as nat
}

/// The digit character for a value below ten.
pub open spec fn digit_char(d: nat) -> char {
    [
        '0',
        '1',
        '2',
        '3',
        '4',
        '5',
        '6',
        '7',
        '8',
        '9',
    ]@[d as int]
}

/// Decimal numeral of `n`, most significant digit first.
pub open spec fn dec_str(n: nat) -> Seq<char>
    decreases n,
{
    if n < 10 {
        seq![digit_char(n)]
    } else {
        dec_str(n / 10).push(digit_char(n % 10))
    }
}

/// Value of a sequence of decimal digit characters.
pub open spec fn dec_val(s: Seq<char>) -> nat
    decreases s.len(),
{
    if s.len() == 0 {
        0
    } else {
        dec_val(s.drop_last()) * 10 + digit_val(s.last())
    }
}

/// All characters of the sequence are decimal digits.
pub open spec fn all_digits(s: Seq<char>) -> bool {
    forall|i: int| 0 <= i < s.len() ==> is_digit_char(#[trigger] s[i])
}

fn digit_str(d: u64) -> (r: &'static str)
    requires
        d < 10,
    ensures
        r@ == seq![digit_char(d as nat)],
{
    proof {
        reveal_strlit("0");
        reveal_strlit("1");
        reveal_strlit("2");
        reveal_strlit("3");
        reveal_strlit("4");
        reveal_strlit("5");
        reveal_strlit("6");
        reveal_strlit("7");
        reveal_strlit("8");
        reveal_strlit("9");
    }
    match d {
        0 => "0",
        1 => "1",
        2 => "2",
        3 => "3",
        4 => "4",
        5 => "5",
        6 => "6",
        7 => "7",
        8 => "8",
        _ => "9",
    }
}

/// Decimal formatting of an unsigned integer.
pub fn u64_to_dec(n: u64) -> (r: String)
    ensures
        r@ == dec_str(n as nat),
    decreases n,
{
    if n < 10 {
        digit_str(n).to_owned()
    } else {
        let mut r = u64_to_dec(n / 10);
        let d: u64 = n % 10;
        let ds = digit_str(d);
        r.append(ds);
        proof {
            assert(r@ =~= dec_str((n / 10) as nat).push(digit_char((n % 10) as nat)));
        }
        r
    }
}

/// Decimal parsing of a whole character slice; `None` when the slice is
/// empty, holds a non-digit, or the value does not fit in a `u32`.
pub fn parse_u32_chars(cs: &[char], start: usize, end: usize) -> (r: Option<u32>)
    requires
        start <= end <= cs@.len(),
    ensures
        match r {
            Some(v) => {
                &&& start < end
                &&& all_digits(cs@.subrange(start as int, end as int))
                &&& v == dec_val(cs@.subrange(start as int, end as int))
                &&& dec_val(cs@.subrange(start as int, end as int)) <= u32::MAX
            },
            None => start == end || !all_digits(cs@.subrange(start as int, end as int)) || dec_val(
                cs@.subrange(start as int, end as int),
            ) > u32::MAX,
        },
{
    if start == end {
        return None;
    }
    let mut acc: u32 = 0;
    let mut i: usize = start;
    while i < end
        invariant
            start <= i <= end <= cs@.len(),
            all_digits(cs@.subrange(start as int, i as int)),
            acc == dec_val(cs@.subrange(start as int, i as int)),
        decreases end - i,
    {
        let c = cs[i];
        let cv: u32 = c as u32;
        if !(48 <= cv && cv <= 57) {
            proof {
                assert(cs@.subrange(start as int, end as int)[i - start] == cs@[i as int]);
            }
            return None;
        }
        let d: u32 = cv - 48;
        if acc > (u32::MAX - d) / 10 {
            proof {
                lemma_dec_val_prefix_grows(cs@.subrange(start as int, end as int), i - start + 1);
                assert(cs@.subrange(start as int, i as int + 1) =~= cs@.subrange(
                    start as int,
                    end as int,
                ).take(i - start + 1));
                assert(cs@.subrange(start as int, i as int + 1).drop_last() =~= cs@.subrange(
                    start as int,
                    i as int,
                ));
            }
            return None;
        }
        acc = acc * 10 + d;
        i = i + 1;
        proof {
            assert(cs@.subrange(start as int, i as int).drop_last() =~= cs@.subrange(
                start as int,
                i - 1,
            ));
            assert(cs@.subrange(start as int, i as int).last() == cs@[i - 1]);
        }
    }
    proof {
        assert(cs@.subrange(start as int, i as int) =~= cs@.subrange(start as int, end as int));
    }
    Some(acc)
}

/// A digit string's value only grows when digits are appended.
proof fn lemma_dec_val_prefix_grows(s: Seq<char>, k: int)
    requires
        0 <= k <= s.len(),
    ensures
        dec_val(s.take(k)) <= dec_val(s),
    decreases s.len() - k,
{
    if k < s.len() {
        lemma_dec_val_prefix_grows(s, k + 1);
        assert(s.take(k + 1).drop_last() =~= s.take(k));
        assert(dec_val(s.take(k + 1)) == dec_val(s.take(k)) * 10 + digit_val(s.take(k + 1).last()));
        assert(dec_val(s.take(k)) <= dec_val(s.take(k)) * 10) by (nonlinear_arith);
    } else {
        assert(s.take(k) =~= s);
    }
}

/// Specified parse of a whole digit string into a `u32`.
pub open spec fn spec_parse_u32(t: Seq<char>) -> Option<u32> {
    if t.len() > 0 && all_digits(t) && dec_val(t) <= u32::MAX {
        Some(dec_val(t) as u32)
    } else {
        None
    }
}

/// Parses a slice range as a `u32`.
pub fn parse_u32_range(cs: &[char], start: usize, end: usize) -> (r: Option<u32>)
    requires
        start <= end <= cs@.len(),
    ensures
        r == spec_parse_u32(cs@.subrange(start as int, end as int)),
{
    let r = parse_u32_chars(cs, start, end);
    proof {
        if r is Some {
            assert(dec_val(cs@.subrange(start as int, end as int)) <= u32::MAX);
        }
    }
    r
}

/// Parses a string as a `u32` after trimming ASCII whitespace.
pub fn parse_u32_trimmed(s: &str) -> (r: Option<u32>)
    ensures
        r == spec_parse_u32(trimmed(s@)),
{
    let cs = chars_of(s);
    let t = trim_chars(&cs);
    let n = t.len();
    let r = parse_u32_range(t.as_slice(), 0, n);
    proof {
        assert(t@.subrange(0, n as int) =~= trimmed(s@));
    }
    r
}

/// The index of the first occurrence of `c`, or the length when absent.
pub open spec fn find_char(s: Seq<char>, c: char) -> int
    decreases s.len(),
{
    if s.len() == 0 {
        0
    } else if s[0] == c {
        0
    } else {
        1 + find_char(s.drop_first(), c)
    }
}

/// What pins [`find_char`] down: everything before it differs from `c`,
/// and it points at `c` unless `c` is absent.
pub proof fn lemma_find_char_at(s: Seq<char>, c: char, k: int)
    requires
        0 <= k <= s.len(),
        forall|i: int| 0 <= i < k ==> s[i] != c,
        k < s.len() ==> s[k] == c,
    ensures
        find_char(s, c) == k,
    decreases s.len(),
{
    if s.len() > 0 {
        if k == 0 {
        } else {
            assert(s[0] != c);
            assert forall|i: int| 0 <= i < k - 1 implies s.drop_first()[i] != c by {
                assert(s.drop_first()[i] == s[i + 1]);
            }
            assert(k - 1 < s.drop_first().len() ==> s.drop_first()[k - 1] == c);
            lemma_find_char_at(s.drop_first(), c, k - 1);
        }
    }
}

/// [`find_char`] never leaves the sequence.
pub proof fn lemma_find_char_bounds(s: Seq<char>, c: char)
    ensures
        0 <= find_char(s, c) <= s.len(),
    decreases s.len(),
{
    if s.len() > 0 && s[0] != c {
        lemma_find_char_bounds(s.drop_first(), c);
    }
}

/// Finds the first occurrence of `c` in `cs[start..end]`; returns `end`
/// when absent.
pub fn find_char_range(cs: &[char], start: usize, end: usize, c: char) -> (r: usize)
    requires
        start <= end <= cs@.len(),
    ensures
        start <= r <= end,
        r - start == find_char(cs@.subrange(start as int, end as int), c),
        forall|i: int| start <= i < r ==> cs@[i] != c,
        r < end ==> cs@[r as int] == c,
{
    let mut i: usize = start;
    while i < end && cs[i] != c
        invariant
            start <= i <= end <= cs@.len(),
            forall|j: int| start <= j < i ==> cs@[j] != c,
        decreases end - i,
    {
        i = i + 1;
    }
    proof {
        let sk = cs@.subrange(start as int, end as int);
        assert forall|j: int| 0 <= j < i - start implies sk[j] != c by {
            assert(sk[j] == cs@[j + start]);
        }
        if i < end {
            assert(sk[i - start] == cs@[i as int]);
        }
        lemma_find_char_at(sk, c, i - start);
    }
    i
}

/// ASCII whitespace, the characters stripped by [`trim_chars`].
pub open spec fn is_space_char(c: char) -> bool {
    c == ' ' || c == '\t' || c == '\n' || c == '\r'
}

pub open spec fn first_non_space(s: Seq<char>) -> int
    decreases s.len(),
{
    if s.len() == 0 {
        0
    } else if is_space_char(s[0]) {
        1 + first_non_space(s.drop_first())
    } else {
        0
    }
}

pub open spec fn last_non_space(s: Seq<char>) -> int
    decreases s.len(),
{
    if s.len() == 0 {
        0
    } else if is_space_char(s.last()) {
        last_non_space(s.drop_last())
    } else {
        s.len() as int
    }
}

/// The sequence with leading and trailing ASCII whitespace removed;
/// all-whitespace input gives the empty sequence.
pub open spec fn trimmed(s: Seq<char>) -> Seq<char> {
    if last_non_space(s) <= first_non_space(s) {
        Seq::empty()
    } else {
        s.subrange(first_non_space(s), last_non_space(s))
    }
}

proof fn lemma_first_non_space_bounds(s: Seq<char>)
    ensures
        0 <= first_non_space(s) <= s.len(),
        forall|i: int| 0 <= i < first_non_space(s) ==> is_space_char(#[trigger] s[i]),
        first_non_space(s) < s.len() ==> !is_space_char(s[first_non_space(s)]),
    decreases s.len(),
{
    if s.len() > 0 && is_space_char(s[0]) {
        lemma_first_non_space_bounds(s.drop_first());
        assert forall|i: int| 0 <= i < first_non_space(s) implies is_space_char(#[trigger] s[i]) by {
            if i > 0 {
                assert(s.drop_first()[i - 1] == s[i]);
            }
        }
    }
}

proof fn lemma_last_non_space_bounds(s: Seq<char>)
    ensures
        0 <= last_non_space(s) <= s.len(),
        forall|i: int| last_non_space(s) <= i < s.len() ==> is_space_char(#[trigger] s[i]),
        last_non_space(s) > 0 ==> !is_space_char(s[last_non_space(s) - 1]),
    decreases s.len(),
{
    if s.len() > 0 && is_space_char(s.last()) {
        lemma_last_non_space_bounds(s.drop_last());
        assert forall|i: int| last_non_space(s) <= i < s.len() implies is_space_char(
            #[trigger] s[i],
        ) by {
            if i < s.len() - 1 {
                assert(s.drop_last()[i] == s[i]);
            }
        }
    }
}

/// Leading and trailing ASCII whitespace removed.
pub fn trim_chars(cs: &Vec<char>) -> (r: Vec<char>)
    ensures
        r@ == trimmed(cs@),
{
    proof {
        lemma_first_non_space_bounds(cs@);
        lemma_last_non_space_bounds(cs@);
    }
    let mut lo: usize = 0;
    while lo < cs.len() && is_space(cs[lo])
        invariant
            0 <= lo <= cs@.len(),
            forall|i: int| 0 <= i < lo ==> is_space_char(#[trigger] cs@[i]),
            lo <= first_non_space(cs@),
        decreases cs@.len() - lo,
    {
        proof {
            lemma_first_non_space_step(cs@, lo as int);
        }
        lo = lo + 1;
    }
    proof {
        assert(lo == first_non_space(cs@));
    }
    let mut hi: usize = cs.len();
    while hi > lo && is_space(cs[hi - 1])
        invariant
            lo <= hi <= cs@.len(),
            lo == first_non_space(cs@),
            forall|i: int| hi <= i < cs@.len() ==> is_space_char(#[trigger] cs@[i]),
            last_non_space(cs@) <= hi,
        decreases hi,
    {
        proof {
            lemma_last_non_space_step(cs@, hi as int);
        }
        hi = hi - 1;
    }
    proof {
        if hi > lo {
            assert(hi == last_non_space(cs@)) by {
                lemma_last_non_space_bounds(cs@);
                lemma_last_non_space_at_non_space(cs@, hi as int);
            }
        }
    }
    let mut r: Vec<char> = Vec::new();
    let mut i: usize = lo;
    while i < hi
        invariant
            lo <= i <= hi <= cs@.len(),
            r@ == cs@.subrange(lo as int, i as int),
        decreases hi - i,
    {
        r.push(cs[i]);
        i = i + 1;
        proof {
            assert(r@ =~= cs@.subrange(lo as int, i as int));
        }
    }
    proof {
        if hi <= lo {
            assert(r@ =~= trimmed(cs@));
        } else {
            assert(r@ =~= trimmed(cs@));
        }
    }
    r
}

fn is_space(c: char) -> (r: bool)
    ensures
        r == is_space_char(c),
{
    c == ' ' || c == '\t' || c == '\n' || c == '\r'
}

proof fn lemma_first_non_space_step(s: Seq<char>, k: int)
    requires
        0 <= k < s.len(),
        forall|i: int| 0 <= i < k ==> is_space_char(#[trigger] s[i]),
        is_space_char(s[k]),
    ensures
        first_non_space(s) >= k + 1,
    decreases k,
{
    lemma_first_non_space_bounds(s.drop_first());
    assert(is_space_char(s[0]));
    if k == 0 {
    } else {
        assert forall|i: int| 0 <= i < k - 1 implies is_space_char(
            #[trigger] s.drop_first()[i],
        ) by {
            assert(s.drop_first()[i] == s[i + 1]);
        }
        assert(s.drop_first()[k - 1] == s[k]);
        lemma_first_non_space_step(s.drop_first(), k - 1);
    }
}

proof fn lemma_last_non_space_step(s: Seq<char>, k: int)
    requires
        0 < k <= s.len(),
        forall|i: int| k <= i < s.len() ==> is_space_char(#[trigger] s[i]),
        is_space_char(s[k - 1]),
    ensures
        last_non_space(s) <= k - 1,
    decreases s.len() - k,
{
    lemma_last_non_space_bounds(s.drop_last());
    if k == s.len() {
        assert(is_space_char(s.last()));
    } else {
        assert(is_space_char(s.last()));
        assert forall|i: int| k <= i < s.len() - 1 implies is_space_char(
            #[trigger] s.drop_last()[i],
        ) by {
            assert(s.drop_last()[i] == s[i]);
        }
        assert(s.drop_last()[k - 1] == s[k - 1]);
        lemma_last_non_space_step(s.drop_last(), k);
    }
}

proof fn lemma_last_non_space_at_non_space(s: Seq<char>, k: int)
    requires
        0 < k <= s.len(),
        !is_space_char(s[k - 1]),
        forall|i: int| k <= i < s.len() ==> is_space_char(#[trigger] s[i]),
    ensures
        last_non_space(s) == k,
    decreases s.len() - k,
{
    if k == s.len() {
    } else {
        lemma_last_non_space_at_non_space(s.drop_last(), k);
    }
}

/// Control characters as JSON (and terminals) cannot display them:
/// C0 controls, delete, and C1 controls.
pub open spec fn is_control_char(c: char) -> bool {
    (c as u32) < 32 || (127 <= c as u32 <= 159)
}

/// The string with every control character replaced by a space.
pub open spec fn scrubbed(s: Seq<char>) -> Seq<char> {
    s.map_values(|c: char| if is_control_char(c) { ' ' } else { c })
}

/// Replaces every control character by a space, so the result can
/// travel through JSON output and templating untouched.
pub fn scrub_controls(s: &str) -> (r: String)
    ensures
        r@ == scrubbed(s@),
{
    let cs = chars_of(s);
    let mut out: Vec<char> = Vec::new();
    let mut i: usize = 0;
    while i < cs.len()
        invariant
            i <= cs@.len(),
            cs@ == s@,
            out@ == scrubbed(s@).take(i as int),
        decreases cs@.len() - i,
    {
        let c = cs[i];
        let cv: u32 = c as u32;
        if cv < 32 || (127 <= cv && cv <= 159) {
            out.push(' ');
        } else {
            out.push(c);
        }
        i = i + 1;
        proof {
            assert(out@ =~= scrubbed(s@).take(i as int));
        }
    }
    proof {
        assert(out@ =~= scrubbed(s@));
    }
    string_of_chars(out.as_slice())
}

} // verus!
