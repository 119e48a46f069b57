//! Conversions between `String`/`&str` and character vectors, and decimal
//! formatting of integers. The library scans and builds text as `Vec<char>`
//! and turns it back into `String` at the API boundary.

use vstd::prelude::*;

verus! {

/// Relies on `String::push`: appends exactly one character at the end.
#[verifier::external_body]
pub fn push_char(s: &mut String, c: char)
    ensures
        final(s)@ == old(s)@.push(c),
{
    s.push(c)
}

/// The characters of a string slice, in order.
pub fn str_to_chars(s: &str) -> (r: Vec<char>)
    ensures
        r@ == s@,
{
    let n = s.unicode_len();
    let mut r: Vec<char> = Vec::new();
    let mut i: usize = 0;
    while i < n
        invariant
            n == s@.len(),
            i <= n,
            r@ == s@.subrange(0, i as int),
        decreases n - i,
    {
        r.push(s.get_char(i));
        i += 1;
        proof {
            assert(r@ =~= s@.subrange(0, i as int));
        }
    }
    proof {
        assert(r@ =~= s@);
    }
    r
}

/// A string holding exactly the characters of the slice, in order.
pub fn chars_to_string(v: &Vec<char>) -> (r: String)
    ensures
        r@ == v@,
{
    let mut r = String::new();
    let mut i: usize = 0;
    while i < v.len()
        invariant
            i <= v@.len(),
            r@ == v@.subrange(0, i as int),
        decreases v@.len() - i,
    {
        push_char(&mut r, v[i]);
        i += 1;
        proof {
            assert(r@ =~= v@.subrange(0, i as int));
        }
    }
    proof {
        assert(r@ =~= v@);
    }
    r
}

/// A string holding the characters of the range `[from, to)` of the slice.
pub fn chars_range_to_string(v: &Vec<char>, from: usize, to: usize) -> (r: String)
    requires
        from <= to <= v@.len(),
    ensures
        r@ == v@.subrange(from as int, to as int),
{
    let mut r = String::new();
    let mut i: usize = from;
    while i < to
        invariant
            from <= i <= to <= v@.len(),
            r@ == v@.subrange(from as int, i as int),
        decreases to - i,
    {
        push_char(&mut r, v[i]);
        i += 1;
        proof {
            assert(r@ =~= v@.subrange(from as int, i as int));
        }
    }
    r
}

/// The sub-vector of the range `[from, to)` of the slice.
pub fn chars_subrange(v: &Vec<char>, from: usize, to: usize) -> (r: Vec<char>)
    requires
        from <= to <= v@.len(),
    ensures
        r@ == v@.subrange(from as int, to as int),
{
    let mut r: Vec<char> = Vec::new();
    let mut i: usize = from;
    while i < to
        invariant
            from <= i <= to <= v@.len(),
            r@ == v@.subrange(from as int, i as int),
        decreases to - i,
    {
        r.push(v[i]);
        i += 1;
        proof {
            assert(r@ =~= v@.subrange(from as int, i as int));
        }
    }
    r
}

/// The decimal digit character for a value below ten.
pub open spec fn spec_digit(d: int) -> char
    recommends
        0 <= d < 10,
{
    if d == 0 { '0' } else if d == 1 { '1' } else if d == 2 { '2' } else if d == 3 { '3' }
    else if d == 4 { '4' } else if d == 5 { '5' } else if d == 6 { '6' } else if d == 7 { '7' }
    else if d == 8 { '8' } else { '9' }
}

/// The decimal digits of a non-negative number, most significant first.
pub open spec fn spec_decimal(n: int) -> Seq<char>
    decreases n,
{
    if n <= 9 {
        seq![spec_digit(if n < 0 { 0 } else { n })]
    } else {
        spec_decimal(n / 10).push(spec_digit(n % 10))
    }
}

fn digit_char(d: u32) -> (c: char)
    requires
        d < 10,
    ensures
        c == spec_digit(d as int),
{
    match d {
        0 => '0',
        1 => '1',
        2 => '2',
        3 => '3',
        4 => '4',
        5 => '5',
        6 => '6',
        7 => '7',
        8 => '8',
        _ => '9',
    }
}

/// The decimal notation of `n`.
pub fn u32_to_string(n: u32) -> (r: String)
    ensures
        r@ == spec_decimal(n as int),
    decreases n,
{
    if n <= 9 {
        let mut r = String::new();
        push_char(&mut r, digit_char(n));
        proof {
            assert(r@ =~= spec_decimal(n as int));
        }
        r
    } else {
        let mut r = u32_to_string(n / 10);
        push_char(&mut r, digit_char(n % 10));
        r
    }
}

/// The decimal notation of `n`.
pub fn u64_to_string(n: u64) -> (r: String)
    ensures
        r@ == spec_decimal(n as int),
    decreases n,
{
    if n <= 9 {
        let mut r = String::new();
        push_char(&mut r, digit_char((n % 10) as u32));
        proof {
            assert(r@ =~= spec_decimal(n as int));
        }
        r
    } else {
        let mut r = u64_to_string(n / 10);
        push_char(&mut r, digit_char((n % 10) as u32));
        r
    }
}

/// The decimal notation of `n`, with a leading minus sign when negative.
pub open spec fn spec_decimal_i64(n: int) -> Seq<char> {
    if n < 0 {
        seq!['-'] + spec_decimal(-n)
    } else {
        spec_decimal(n)
    }
}

/// The decimal notation of a signed value.
pub fn i64_to_string(n: i64) -> (r: String)
    ensures
        r@ == spec_decimal_i64(n as int),
{
    if n < 0 {
        let mut r = String::new();
        push_char(&mut r, '-');
        let m: u64 = if n == i64::MIN {
            9223372036854775808u64
        } else {
            (-n) as u64
        };
        let d = u64_to_string(m);
        r.append(d.as_str());
        proof {
            assert(r@ =~= seq!['-'] + spec_decimal(-(n as int)));
        }
        r
    } else {
        u64_to_string(n as u64)
    }
}

/// The decimal notation of `n`, with a leading minus sign when negative.
pub open spec fn spec_decimal_i32(n: int) -> Seq<char> {
    if n < 0 {
        seq!['-'] + spec_decimal(-n)
    } else {
        spec_decimal(n)
    }
}

/// Whether `c` is one of the ten ASCII digit characters.
pub open spec fn is_decimal_ascii(c: char) -> bool {
    c == '0' || c == '1' || c == '2' || c == '3' || c == '4' || c == '5' || c == '6' || c == '7'
        || c == '8' || c == '9'
}

/// Whether `c` is one of the ten fullwidth digit characters.
pub open spec fn is_fullwidth_digit(c: char) -> bool {
    c == '\u{FF10}' || c == '\u{FF11}' || c == '\u{FF12}' || c == '\u{FF13}' || c == '\u{FF14}'
        || c == '\u{FF15}' || c == '\u{FF16}' || c == '\u{FF17}' || c == '\u{FF18}'
        || c == '\u{FF19}'
}

/// Whether `c` is an ASCII or fullwidth decimal digit.
pub open spec fn is_digit_char(c: char) -> bool {
    is_decimal_ascii(c) || is_fullwidth_digit(c)
}

/// The numeric value of an ASCII digit character.
pub open spec fn spec_char_digit(c: char) -> int {
    if c == '0' { 0 } else if c == '1' { 1 } else if c == '2' { 2 } else if c == '3' { 3 }
    else if c == '4' { 4 } else if c == '5' { 5 } else if c == '6' { 6 } else if c == '7' { 7 }
    else if c == '8' { 8 } else { 9 }
}

/// The numeric value of a fullwidth digit character.
pub open spec fn spec_fullwidth_digit(c: char) -> int {
    if c == '\u{FF10}' { 0 } else if c == '\u{FF11}' { 1 } else if c == '\u{FF12}' { 2 }
    else if c == '\u{FF13}' { 3 } else if c == '\u{FF14}' { 4 } else if c == '\u{FF15}' { 5 }
    else if c == '\u{FF16}' { 6 } else if c == '\u{FF17}' { 7 } else if c == '\u{FF18}' { 8 }
    else { 9 }
}

/// The digits of `s`, fullwidth normalized to ASCII, in order.
pub open spec fn spec_digits_of(s: Seq<char>) -> Seq<char>
    decreases s.len(),
{
    if s.len() == 0 {
        Seq::empty()
    } else if is_decimal_ascii(s.last()) {
        spec_digits_of(s.drop_last()).push(s.last())
    } else if is_fullwidth_digit(s.last()) {
        spec_digits_of(s.drop_last()).push(spec_digit(spec_fullwidth_digit(s.last())))
    } else {
        spec_digits_of(s.drop_last())
    }
}

/// The value of a run of ASCII digits read in base ten.
pub open spec fn spec_digits_value(ds: Seq<char>) -> int
    decreases ds.len(),
{
    if ds.len() == 0 {
        0
    } else {
        spec_digits_value(ds.drop_last()) * 10 + spec_char_digit(ds.last())
    }
}

/// The number formed by the digits scattered in `s` (fullwidth digits
/// count), or nothing when there is no digit or the value does not fit.
pub open spec fn spec_extract_number(s: Seq<char>) -> Option<u32> {
    let ds = spec_digits_of(s);
    if ds.len() == 0 || spec_digits_value(ds) > u32::MAX {
        None
    } else {
        Some(spec_digits_value(ds) as u32)
    }
}

proof fn lemma_digits_value_grows(ds: Seq<char>, i: int)
    requires
        0 <= i <= ds.len(),
        spec_digits_value(ds.subrange(0, i)) > u32::MAX,
    ensures
        spec_digits_value(ds) > u32::MAX,
    decreases ds.len() - i,
{
    if i < ds.len() {
        let a = ds.subrange(0, i);
        let b = ds.subrange(0, i + 1);
        assert(b.drop_last() =~= a);
        assert(spec_digits_value(b) == spec_digits_value(a) * 10 + spec_char_digit(b.last()));
        assert(spec_char_digit(b.last()) >= 0);
        assert(spec_digits_value(a) * 10 > 42949672950int) by (nonlinear_arith)
            requires
                spec_digits_value(a) > 4294967295int,
        {}
        lemma_digits_value_grows(ds, i + 1);
    } else {
        assert(ds.subrange(0, i) =~= ds);
    }
}

/// Whether `c` is an ASCII digit character.
fn ascii_digit(c: char) -> (r: bool)
    ensures
        r == is_decimal_ascii(c),
{
    c == '0' || c == '1' || c == '2' || c == '3' || c == '4' || c == '5' || c == '6' || c == '7'
        || c == '8' || c == '9'
}

fn fullwidth_digit(c: char) -> (r: bool)
    ensures
        r == is_fullwidth_digit(c),
{
    c == '\u{FF10}' || c == '\u{FF11}' || c == '\u{FF12}' || c == '\u{FF13}' || c == '\u{FF14}'
        || c == '\u{FF15}' || c == '\u{FF16}' || c == '\u{FF17}' || c == '\u{FF18}'
        || c == '\u{FF19}'
}

fn digit_value_of(c: char) -> (d: u64)
    ensures
        d as int == spec_char_digit(c),
        d <= 9,
{
    match c {
        '0' => 0,
        '1' => 1,
        '2' => 2,
        '3' => 3,
        '4' => 4,
        '5' => 5,
        '6' => 6,
        '7' => 7,
        '8' => 8,
        _ => 9,
    }
}

fn fullwidth_value_of(c: char) -> (d: u32)
    ensures
        d as int == spec_fullwidth_digit(c),
        d <= 9,
{
    match c {
        '\u{FF10}' => 0,
        '\u{FF11}' => 1,
        '\u{FF12}' => 2,
        '\u{FF13}' => 3,
        '\u{FF14}' => 4,
        '\u{FF15}' => 5,
        '\u{FF16}' => 6,
        '\u{FF17}' => 7,
        '\u{FF18}' => 8,
        _ => 9,
    }
}

proof fn lemma_digits_of_ascii(s: Seq<char>)
    ensures
        forall|k: int| 0 <= k < spec_digits_of(s).len()
            ==> is_decimal_ascii(#[trigger] spec_digits_of(s)[k]),
    decreases s.len(),
{
    if s.len() > 0 {
        lemma_digits_of_ascii(s.drop_last());
        let pre = spec_digits_of(s.drop_last());
        if is_decimal_ascii(s.last()) {
            assert forall|k: int| 0 <= k < spec_digits_of(s).len() implies is_decimal_ascii(
                #[trigger] spec_digits_of(s)[k],
            ) by {
                if k < pre.len() {
                    assert(spec_digits_of(s)[k] == pre[k]);
                } else {
                    assert(spec_digits_of(s)[k] == s.last());
                }
            }
        } else if is_fullwidth_digit(s.last()) {
            let x = spec_digit(spec_fullwidth_digit(s.last()));
            assert(is_decimal_ascii(x));
            assert forall|k: int| 0 <= k < spec_digits_of(s).len() implies is_decimal_ascii(
                #[trigger] spec_digits_of(s)[k],
            ) by {
                if k < pre.len() {
                    assert(spec_digits_of(s)[k] == pre[k]);
                } else {
                    assert(spec_digits_of(s)[k] == x);
                }
            }
        }
    }
}

/// The number formed by the digits scattered in `v`.
pub fn extract_number_chars(v: &Vec<char>) -> (r: Option<u32>)
    ensures
        r == spec_extract_number(v@),
{
    let ghost s = v@;
    let mut ds: Vec<char> = Vec::new();
    let mut i: usize = 0;
    proof {
        assert(s.subrange(0, 0) =~= Seq::<char>::empty());
    }
    while i < v.len()
        invariant
            i <= s.len(),
            s == v@,
            ds@ == spec_digits_of(s.subrange(0, i as int)),
        decreases s.len() - i,
    {
        let c = v[i];
        proof {
            assert(s.subrange(0, i as int + 1).drop_last() =~= s.subrange(0, i as int));
            assert(s.subrange(0, i as int + 1).last() == s[i as int]);
        }
        if ascii_digit(c) {
            ds.push(c);
        } else if fullwidth_digit(c) {
            let d = fullwidth_value_of(c);
            ds.push(digit_char(d));
        }
        i += 1;
    }
    proof {
        assert(s.subrange(0, s.len() as int) =~= s);
        lemma_digits_of_ascii(s);
    }
    if ds.len() == 0 {
        return None;
    }
    let ghost full = ds@;
    let mut value: u64 = 0;
    let mut j: usize = 0;
    proof {
        assert(full.subrange(0, 0) =~= Seq::<char>::empty());
    }
    while j < ds.len()
        invariant
            j <= full.len(),
            full == ds@,
            s == v@,
            full == spec_digits_of(s),
            full.len() > 0,
            value <= u32::MAX as u64,
            value == spec_digits_value(full.subrange(0, j as int)),
            forall|k: int| 0 <= k < full.len() ==> is_decimal_ascii(#[trigger] full[k]),
        decreases full.len() - j,
    {
        let c = ds[j];
        let d = digit_value_of(c);
        proof {
            assert(full.subrange(0, j as int + 1).drop_last() =~= full.subrange(0, j as int));
            assert(full.subrange(0, j as int + 1).last() == full[j as int]);
        }
        let next = value * 10 + d;
        if next > u32::MAX as u64 {
            proof {
                lemma_digits_value_grows(full, j as int + 1);
            }
            return None;
        }
        value = next;
        j += 1;
    }
    proof {
        assert(full.subrange(0, full.len() as int) =~= full);
    }
    Some(value as u32)
}

/// Whether `p` occurs in `s` starting at index `i`.
pub open spec fn sub_at(s: Seq<char>, p: Seq<char>, i: int) -> bool {
    0 <= i && i + p.len() <= s.len() && s.subrange(i, i + p.len()) == p
}

/// Whether `p` occurs somewhere in `s`.
pub open spec fn spec_contains(s: Seq<char>, p: Seq<char>) -> bool {
    exists|i: int| sub_at(s, p, i)
}

/// Whether `s` starts with `p`.
pub open spec fn spec_starts_with(s: Seq<char>, p: Seq<char>) -> bool {
    p.len() <= s.len() && s.subrange(0, p.len() as int) == p
}

/// Whether `s` ends with `p`.
pub open spec fn spec_ends_with(s: Seq<char>, p: Seq<char>) -> bool {
    p.len() <= s.len() && s.subrange(s.len() - p.len(), s.len() as int) == p
}

/// First index at or after `from` where `p` occurs in `s`, or `-1`.
pub open spec fn spec_find_from(s: Seq<char>, p: Seq<char>, from: int) -> int
    decreases s.len() - from + 1,
{
    if from + p.len() > s.len() {
        -1
    } else if sub_at(s, p, from) {
        from
    } else {
        spec_find_from(s, p, from + 1)
    }
}

/// First index where `p` occurs in `s`, or `-1`.
pub open spec fn spec_find(s: Seq<char>, p: Seq<char>) -> int {
    spec_find_from(s, p, 0)
}

/// Last index at or below `from` where `p` occurs in `s`, or `-1`.
pub open spec fn spec_rfind_down(s: Seq<char>, p: Seq<char>, from: int) -> int
    decreases from + 1,
{
    if from < 0 {
        -1
    } else if sub_at(s, p, from) {
        from
    } else {
        spec_rfind_down(s, p, from - 1)
    }
}

/// Last index where `p` occurs in `s`, or `-1`.
pub open spec fn spec_rfind(s: Seq<char>, p: Seq<char>) -> int {
    spec_rfind_down(s, p, s.len() - p.len())
}

/// Facts about `spec_find_from`: its result is an occurrence, the first one
/// at or after `from`, and `-1` exactly when there is none.
pub proof fn lemma_spec_find_from(s: Seq<char>, p: Seq<char>, from: int)
    requires
        0 <= from,
    ensures
        spec_find_from(s, p, from) == -1 ==> forall|i: int| from <= i ==> !sub_at(s, p, i),
        spec_find_from(s, p, from) >= 0 ==> sub_at(s, p, spec_find_from(s, p, from)),
        spec_find_from(s, p, from) >= 0 ==> from <= spec_find_from(s, p, from),
        forall|i: int| from <= i < spec_find_from(s, p, from) ==> !sub_at(s, p, i),
    decreases s.len() - from + 1,
{
    if from + p.len() > s.len() {
        assert forall|i: int| from <= i implies !sub_at(s, p, i) by {}
    } else if !sub_at(s, p, from) {
        lemma_spec_find_from(s, p, from + 1);
    }
}

/// Facts about `spec_rfind_down`: its result is an occurrence, the last one
/// at or below `from`, and `-1` exactly when there is none.
pub proof fn lemma_spec_rfind_down(s: Seq<char>, p: Seq<char>, from: int)
    ensures
        spec_rfind_down(s, p, from) == -1 ==> forall|i: int| i <= from ==> !sub_at(s, p, i),
        spec_rfind_down(s, p, from) >= 0 ==> sub_at(s, p, spec_rfind_down(s, p, from)),
        spec_rfind_down(s, p, from) >= 0 ==> spec_rfind_down(s, p, from) <= from,
        forall|i: int| spec_rfind_down(s, p, from) < i <= from ==> !sub_at(s, p, i),
    decreases from + 1,
{
    if from >= 0 && !sub_at(s, p, from) {
        lemma_spec_rfind_down(s, p, from - 1);
    }
}

/// Whether `p` occurs in `s` at index `i`.
pub fn match_at(s: &Vec<char>, p: &Vec<char>, i: usize) -> (r: bool)
    requires
        i + p@.len() <= s@.len(),
    ensures
        r == sub_at(s@, p@, i as int),
{
    let n = s.len();
    let mut j: usize = 0;
    while j < p.len()
        invariant
            i + p@.len() <= s@.len() <= usize::MAX,
            j <= p@.len(),
            forall|k: int| 0 <= k < j ==> s@[i + k] == p@[k],
        decreases p@.len() - j,
    {
        if s[i + j] != p[j] {
            proof {
                assert(s@.subrange(i as int, i + p@.len()) != p@) by {
                    assert(s@.subrange(i as int, i + p@.len())[j as int] != p@[j as int]);
                }
            }
            return false;
        }
        j += 1;
    }
    proof {
        assert(s@.subrange(i as int, i + p@.len()) =~= p@);
    }
    true
}

/// First index at or after `from` where `p` occurs in `s`.
pub fn find_pat_from(s: &Vec<char>, p: &Vec<char>, from: usize) -> (r: Option<usize>)
    ensures
        match r {
            Some(i) => from <= i && spec_find_from(s@, p@, from as int) == i as int,
            None => spec_find_from(s@, p@, from as int) == -1,
        },
{
    if p.len() > s.len() || from > s.len() - p.len() {
        return None;
    }
    let limit = s.len() - p.len();
    let mut i: usize = from;
    while i <= limit
        invariant
            from <= i <= limit + 1,
            limit + p@.len() == s@.len(),
            spec_find_from(s@, p@, from as int) == spec_find_from(s@, p@, i as int),
        decreases limit + 1 - i,
    {
        if match_at(s, p, i) {
            return Some(i);
        }
        if i == limit {
            proof {
                assert(spec_find_from(s@, p@, i as int) == spec_find_from(s@, p@, i + 1));
                assert(spec_find_from(s@, p@, i + 1) == -1);
            }
            return None;
        }
        i += 1;
    }
    None
}

/// First index where `p` occurs in `s`.
pub fn find_pat(s: &Vec<char>, p: &Vec<char>) -> (r: Option<usize>)
    ensures
        match r {
            Some(i) => spec_find(s@, p@) == i as int,
            None => spec_find(s@, p@) == -1,
        },
{
    find_pat_from(s, p, 0)
}

/// Last index where `p` occurs in `s`.
pub fn rfind_pat(s: &Vec<char>, p: &Vec<char>) -> (r: Option<usize>)
    ensures
        match r {
            Some(i) => spec_rfind(s@, p@) == i as int,
            None => spec_rfind(s@, p@) == -1,
        },
{
    if p.len() > s.len() {
        proof {
            lemma_spec_rfind_down(s@, p@, s@.len() - p@.len());
        }
        return None;
    }
    let mut i: usize = s.len() - p.len();
    loop
        invariant
            i + p@.len() <= s@.len(),
            spec_rfind(s@, p@) == spec_rfind_down(s@, p@, i as int),
        decreases i + 1,
    {
        if match_at(s, p, i) {
            return Some(i);
        }
        if i == 0 {
            proof {
                assert(spec_rfind_down(s@, p@, 0int) == spec_rfind_down(s@, p@, -1));
                assert(spec_rfind_down(s@, p@, -1) == -1);
            }
            return None;
        }
        i -= 1;
    }
}

/// Whether `p` occurs somewhere in `s`.
pub fn contains_pat(s: &Vec<char>, p: &Vec<char>) -> (r: bool)
    ensures
        r == spec_contains(s@, p@),
{
    let r = find_pat(s, p);
    proof {
        lemma_spec_find_from(s@, p@, 0);
        if spec_find(s@, p@) >= 0 {
            assert(spec_contains(s@, p@));
        } else {
            assert(forall|i: int| !sub_at(s@, p@, i)) by {
                assert(forall|i: int| i < 0 ==> !sub_at(s@, p@, i));
                assert(forall|i: int| 0 <= i ==> !sub_at(s@, p@, i));
            }
        }
    }
    r.is_some()
}

/// Whether `s` starts with `p`.
pub fn starts_with_pat(s: &Vec<char>, p: &Vec<char>) -> (r: bool)
    ensures
        r == spec_starts_with(s@, p@),
{
    if p.len() > s.len() {
        return false;
    }
    match_at(s, p, 0)
}

/// Whether `s` ends with `p`.
pub fn ends_with_pat(s: &Vec<char>, p: &Vec<char>) -> (r: bool)
    ensures
        r == spec_ends_with(s@, p@),
{
    if p.len() > s.len() {
        return false;
    }
    match_at(s, p, s.len() - p.len())
}

/// Whether the two vectors hold the same characters.
pub fn eq_pat(s: &Vec<char>, p: &Vec<char>) -> (r: bool)
    ensures
        r == (s@ == p@),
{
    if s.len() != p.len() {
        return false;
    }
    let r = match_at(s, p, 0);
    proof {
        assert(s@.subrange(0, p@.len() as int) =~= s@);
    }
    r
}

/// The whitespace characters stripped from directive text: ASCII blanks and
/// the ideographic space.
pub open spec fn is_trim_char(c: char) -> bool {
    c == ' ' || c == '\t' || c == '\r' || c == '\n' || c == '\u{3000}'
}

/// First index at or after `from` holding a non-blank character, or the length.
pub open spec fn spec_skip_blank(s: Seq<char>, from: int) -> int
    decreases s.len() - from,
{
    if from >= s.len() {
        s.len() as int
    } else if is_trim_char(s[from]) {
        spec_skip_blank(s, from + 1)
    } else {
        from
    }
}

/// Length of `s` with trailing blanks dropped, stopping at `low`.
pub open spec fn spec_trim_end(s: Seq<char>, low: int) -> int
    decreases s.len(),
    when 0 <= low
{
    if s.len() <= low {
        low
    } else if is_trim_char(s[s.len() - 1]) {
        spec_trim_end(s.drop_last(), low)
    } else {
        s.len() as int
    }
}

/// `s` with leading and trailing blanks removed.
pub open spec fn spec_trim(s: Seq<char>) -> Seq<char> {
    let a = spec_skip_blank(s, 0);
    s.subrange(a, spec_trim_end(s, a))
}

fn is_blank(c: char) -> (r: bool)
    ensures
        r == is_trim_char(c),
{
    c == ' ' || c == '\t' || c == '\r' || c == '\n' || c == '\u{3000}'
}

/// `v` with leading and trailing blanks removed.
pub fn trim_chars(v: &Vec<char>) -> (r: Vec<char>)
    ensures
        r@ == spec_trim(v@),
{
    let mut a: usize = 0;
    while a < v.len() && is_blank(v[a])
        invariant
            a <= v@.len(),
            spec_skip_blank(v@, 0) == spec_skip_blank(v@, a as int),
        decreases v@.len() - a,
    {
        a += 1;
    }
    let mut b: usize = v.len();
    proof {
        assert(v@.subrange(0, v@.len() as int) =~= v@);
    }
    while b > a && is_blank(v[b - 1])
        invariant
            a <= b <= v@.len(),
            spec_trim_end(v@, a as int) == spec_trim_end(v@.subrange(0, b as int), a as int),
        decreases b,
    {
        proof {
            assert(v@.subrange(0, b as int).drop_last() =~= v@.subrange(0, b as int - 1));
        }
        b -= 1;
    }
    proof {
        if b == a {
            assert(spec_trim_end(v@.subrange(0, b as int), a as int) == a as int);
        } else {
            assert(!is_trim_char(v@[b as int - 1]));
            assert(v@.subrange(0, b as int).len() == b as int);
            assert(v@.subrange(0, b as int)[b as int - 1] == v@[b as int - 1]);
            assert(spec_trim_end(v@.subrange(0, b as int), a as int) == b as int);
        }
        assert(spec_trim_end(v@, a as int) == b as int);
        assert(spec_skip_blank(v@, 0) == a as int);
    }
    chars_subrange(v, a, b)
}

/// The decimal notation of a signed value.
pub fn i32_to_string(n: i32) -> (r: String)
    ensures
        r@ == spec_decimal_i32(n as int),
{
    if n < 0 {
        let mut r = String::new();
        push_char(&mut r, '-');
        let m: u32 = if n == i32::MIN { 2147483648u32 } else { (-n) as u32 };
        let d = u32_to_string(m);
        r.append(d.as_str());
        proof {
            assert(r@ =~= seq!['-'] + spec_decimal(-(n as int)));
        }
        r
    } else {
        u32_to_string(n as u32)
    }
}

/// A line with one trailing carriage return removed.
pub open spec fn spec_strip_cr(l: Seq<char>) -> Seq<char> {
    if l.len() > 0 && l.last() == '\r' {
        l.drop_last()
    } else {
        l
    }
}

/// The lines of the text from position `i`: split at every newline, one
/// trailing carriage return per line removed, no empty piece after a final
/// newline.
pub open spec fn spec_lines_from(s: Seq<char>, i: int) -> Seq<Seq<char>>
    decreases s.len() - i,
    when 0 <= i
    via spec_lines_from_decreases
{
    if i >= s.len() {
        Seq::empty()
    } else {
        let nl = spec_find_from(s, seq!['\n'], i);
        if nl < 0 {
            seq![spec_strip_cr(s.subrange(i, s.len() as int))]
        } else {
            seq![spec_strip_cr(s.subrange(i, nl))] + spec_lines_from(s, nl + 1)
        }
    }
}

#[via_fn]
proof fn spec_lines_from_decreases(s: Seq<char>, i: int) {
    if 0 <= i < s.len() {
        lemma_spec_find_from(s, seq!['\n'], i);
    }
}

/// The lines of the text.
pub open spec fn spec_lines(s: Seq<char>) -> Seq<Seq<char>> {
    spec_lines_from(s, 0)
}

/// Split text into lines, as the line-splitting spec describes.
pub fn split_lines(text: &str) -> (r: Vec<String>)
    ensures
        r@.len() == spec_lines(text@).len(),
        forall|k: int| 0 <= k < r@.len() ==> (#[trigger] r@[k])@ == spec_lines(text@)[k],
{
    let v = str_to_chars(text);
    let ghost sv = v@;
    let n = v.len();
    let nlpat = vec!['\n'];
    let mut r: Vec<String> = Vec::new();
    let mut i: usize = 0;
    while i < n
        invariant
            0 <= i <= n,
            n == sv.len(),
            sv == v@,
            nlpat@ == seq!['\n'],
            r@.len() + spec_lines_from(sv, i as int).len() == spec_lines_from(sv, 0).len(),
            forall|k: int| 0 <= k < r@.len() ==> (#[trigger] r@[k])@ == spec_lines_from(sv, 0)[k],
            forall|k: int| 0 <= k < spec_lines_from(sv, i as int).len()
                ==> spec_lines_from(sv, i as int)[k] == spec_lines_from(sv, 0)[r@.len() + k],
        decreases n - i,
    {
        let nl = find_pat_from(&v, &nlpat, i);
        proof {
            lemma_spec_find_from(sv, seq!['\n'], i as int);
        }
        let endpos: usize = match nl {
            Some(p) => p,
            None => n,
        };
        let mut endcut = endpos;
        if endcut > i && v[endcut - 1] == '\r' {
            endcut -= 1;
        }
        let line = chars_range_to_string(&v, i, endcut);
        let ghost old_i = i as int;
        let ghost old_len = r@.len() as int;
        proof {
            assert(spec_strip_cr(sv.subrange(i as int, endpos as int)) =~= sv.subrange(
                i as int,
                endcut as int,
            ));
        }
        r.push(line);
        match nl {
            Some(p) => {
                i = p + 1;
                proof {
                    assert(spec_lines_from(sv, old_i) == seq![
                        spec_strip_cr(sv.subrange(old_i, p as int)),
                    ] + spec_lines_from(sv, p as int + 1));
                    assert(r@[old_len]@ == spec_lines_from(sv, old_i)[0]);
                    assert(spec_lines_from(sv, old_i)[0] == spec_lines_from(sv, 0)[old_len]);
                    assert forall|k: int| 0 <= k < spec_lines_from(sv, i as int).len() implies
                        spec_lines_from(sv, i as int)[k] == spec_lines_from(sv, 0)[
                        r@.len() + k] by {
                        assert(spec_lines_from(sv, old_i)[k + 1] == spec_lines_from(
                            sv,
                            i as int,
                        )[k]);
                    }
                }
            },
            None => {
                i = n;
                proof {
                    assert(spec_lines_from(sv, old_i) == seq![
                        spec_strip_cr(sv.subrange(old_i, n as int)),
                    ]);
                    assert(r@[old_len]@ == spec_lines_from(sv, old_i)[0]);
                    assert(spec_lines_from(sv, old_i)[0] == spec_lines_from(sv, 0)[old_len]);
                    assert(spec_lines_from(sv, n as int) =~= Seq::<Seq<char>>::empty());
                }
            },
        }
    }
    proof {
        assert(spec_lines_from(sv, i as int) =~= Seq::<Seq<char>>::empty());
        assert(forall|k: int| 0 <= k < r@.len() ==> (#[trigger] r@[k])@ == spec_lines(text@)[k]);
    }
    r
}

} // verus!
