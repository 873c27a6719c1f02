//! Text: comparison, order, decimal numerals and simple scanning, all stated
//! over the sequence of characters that a string holds.

use vstd::prelude::*;
use vstd::string::*;
use vstd::utf8::*;

verus! {

/// `String::push` appends the given character to the end of the string.
pub assume_specification[ String::push ](s: &mut String, c: char)
    ensures
        final(s)@ == old(s)@.push(c),
;

/// The texts held by a list of strings.
pub open spec fn texts(list: Seq<String>) -> Seq<Seq<char>> {
    list.map_values(|s: String| s@)
}

/// The text of an optional string.
pub open spec fn opt_text(value: Option<String>) -> Option<Seq<char>> {
    match value {
        Some(s) => Some(s@),
        None => None,
    }
}

/// The text of an optional string slice.
pub open spec fn opt_str(value: Option<&str>) -> Option<Seq<char>> {
    match value {
        Some(s) => Some(s@),
        None => None,
    }
}

/// Whether two strings hold the same text.
pub fn same_text(a: &str, b: &str) -> (r: bool)
    ensures
        r == (a@ == b@),
{
    let x = a.as_bytes();
    let y = b.as_bytes();
    proof {
        encode_utf8_decode_utf8(a@);
        encode_utf8_decode_utf8(b@);
    }
    if x.len() != y.len() {
        return false;
    }
    let mut i: usize = 0;
    while i < x.len()
        invariant
            i <= x.len(),
            x@ == a.spec_bytes(),
            y@ == b.spec_bytes(),
            x@.len() == y@.len(),
            forall|j: int| 0 <= j < i ==> x@[j] == y@[j],
        decreases x.len() - i,
    {
        if x[i] != y[i] {
            assert(x@[i as int] != y@[i as int]);
            return false;
        }
        i += 1;
    }
    assert(x@ =~= y@);
    true
}

/// Whether an optional string holds exactly this text.
pub fn opt_is(value: &Option<String>, expected: &str) -> (r: bool)
    ensures
        r == (opt_text(*value) == Some(expected@)),
{
    match value {
        Some(s) => same_text(s.as_str(), expected),
        None => false,
    }
}

/// Whether two optional strings hold the same text.
pub fn same_opt(a: &Option<String>, b: &Option<String>) -> (r: bool)
    ensures
        r == (opt_text(*a) == opt_text(*b)),
{
    match (a, b) {
        (Some(x), Some(y)) => same_text(x.as_str(), y.as_str()),
        (None, None) => true,
        _ => false,
    }
}

/// The characters of a string.
pub fn chars_of(s: &str) -> (v: Vec<char>)
    ensures
        v@ == s@,
{
    let mut v: Vec<char> = Vec::new();
    for c in it: s.chars()
        invariant
            v@ == it.seq().take(it.index()),
            it.seq() == s@,
    {
        v.push(c);
    }
    v
}

/// The string made of a range of characters.
pub fn string_of(chars: &[char], from: usize, to: usize) -> (s: String)
    requires
        from <= to <= chars@.len(),
    ensures
        s@ == chars@.subrange(from as int, to as int),
{
    let mut s = String::new();
    let mut i: usize = from;
    assert(s@ =~= chars@.subrange(from as int, from as int));
    while i < to
        invariant
            from <= i <= to <= chars@.len(),
            s@ == chars@.subrange(from as int, i as int),
        decreases to - i,
    {
        s.push(chars[i]);
        i += 1;
        assert(s@ =~= chars@.subrange(from as int, i as int));
    }
    s
}

/// A copy of a list of strings.
pub fn clone_strings(list: &Vec<String>) -> (r: Vec<String>)
    ensures
        r@ == list@,
{
    let mut r: Vec<String> = Vec::new();
    let mut i: usize = 0;
    while i < list.len()
        invariant
            i <= list.len(),
            r@ == list@.take(i as int),
        decreases list.len() - i,
    {
        r.push(list[i].clone());
        i += 1;
        assert(r@ =~= list@.take(i as int));
    }
    assert(list@.take(i as int) =~= list@);
    r
}

/// A copy of an optional string.
pub fn clone_opt(value: &Option<String>) -> (r: Option<String>)
    ensures
        r == *value,
{
    match value {
        Some(s) => Some(s.clone()),
        None => None,
    }
}

/// Lexicographic order of two texts by code point.
pub open spec fn text_lt(a: Seq<char>, b: Seq<char>) -> bool
    decreases a.len(),
{
    if b.len() == 0 {
        false
    } else if a.len() == 0 {
        true
    } else if a[0] == b[0] {
        text_lt(a.drop_first(), b.drop_first())
    } else {
        a[0] < b[0]
    }
}

/// The order of texts is irreflexive.
pub proof fn text_lt_irreflexive(a: Seq<char>)
    ensures
        !text_lt(a, a),
    decreases a.len(),
{
    if a.len() > 0 {
        text_lt_irreflexive(a.drop_first());
    }
}

/// The order of texts is asymmetric.
pub proof fn text_lt_asymmetric(a: Seq<char>, b: Seq<char>)
    requires
        text_lt(a, b),
    ensures
        !text_lt(b, a),
    decreases a.len(),
{
    if a.len() > 0 && b.len() > 0 && a[0] == b[0] {
        text_lt_asymmetric(a.drop_first(), b.drop_first());
    }
}

/// The order of texts is transitive.
pub proof fn text_lt_transitive(a: Seq<char>, b: Seq<char>, c: Seq<char>)
    requires
        text_lt(a, b),
        text_lt(b, c),
    ensures
        text_lt(a, c),
    decreases a.len(),
{
    if a.len() > 0 && b.len() > 0 && c.len() > 0 && a[0] == b[0] && b[0] == c[0] {
        text_lt_transitive(a.drop_first(), b.drop_first(), c.drop_first());
    }
}

/// Two different texts are ordered one way or the other.
pub proof fn text_lt_total(a: Seq<char>, b: Seq<char>)
    requires
        a != b,
    ensures
        text_lt(a, b) || text_lt(b, a),
    decreases a.len(),
{
    if a.len() == 0 && b.len() == 0 {
        assert(a =~= b);
    } else if a.len() > 0 && b.len() > 0 && a[0] == b[0] {
        if a.drop_first() == b.drop_first() {
            assert(a =~= seq![a[0]] + a.drop_first());
            assert(b =~= seq![b[0]] + b.drop_first());
        }
        text_lt_total(a.drop_first(), b.drop_first());
    }
}

/// Two texts that agree up to a place and no further are ordered there: the one
/// that ends comes first, else the one with the smaller character.
pub proof fn text_order_is_by_first_difference(a: Seq<char>, b: Seq<char>, k: int)
    requires
        0 <= k <= a.len(),
        k <= b.len(),
        forall|i: int| 0 <= i < k ==> a[i] == b[i],
        k == a.len() || k == b.len() || a[k] != b[k],
    ensures
        text_lt(a, b) <==> k < b.len() && (k == a.len() || a[k] < b[k]),
    decreases k,
{
    if k > 0 {
        let x = a.drop_first();
        let y = b.drop_first();
        assert(a[0] == b[0]);
        assert forall|i: int| 0 <= i < k - 1 implies x[i] == y[i] by {
            assert(x[i] == a[i + 1] && y[i] == b[i + 1]);
        }
        if k < a.len() {
            assert(x[k - 1] == a[k]);
        }
        if k < b.len() {
            assert(y[k - 1] == b[k]);
        }
        text_order_is_by_first_difference(x, y, k - 1);
    }
}

/// Whether the text of `a` comes before the text of `b`.
pub fn text_before(a: &str, b: &str) -> (r: bool)
    ensures
        r == text_lt(a@, b@),
{
    let x = chars_of(a);
    let y = chars_of(b);
    let mut i: usize = 0;
    assert(x@.skip(0) =~= x@);
    assert(y@.skip(0) =~= y@);
    while i < x.len() && i < y.len() && x[i] == y[i]
        invariant
            i <= x.len(),
            i <= y.len(),
            text_lt(x@, y@) == text_lt(x@.skip(i as int), y@.skip(i as int)),
        decreases x.len() - i,
    {
        assert(x@.skip(i as int).drop_first() =~= x@.skip(i + 1));
        assert(y@.skip(i as int).drop_first() =~= y@.skip(i + 1));
        i += 1;
    }
    if i >= y.len() {
        false
    } else if i >= x.len() {
        true
    } else {
        x[i] < y[i]
    }
}

/// The decimal digit of a number below ten.
pub open spec fn digit(n: nat) -> char {
    (('0' as u32) + n) as char
}

/// The decimal numeral of a natural number.
pub open spec fn decimal(n: nat) -> Seq<char>
    decreases n,
{
    if n < 10 {
        seq![digit(n)]
    } else {
        decimal(n / 10).push(digit(n % 10))
    }
}

/// The decimal numeral of an integer, with a leading minus below zero.
pub open spec fn decimal_int(n: int) -> Seq<char> {
    if n < 0 {
        seq!['-'] + decimal((-n) as nat)
    } else {
        decimal(n as nat)
    }
}

fn digit_char(n: u64) -> (c: char)
    requires
        n < 10,
    ensures
        c == digit(n as nat),
{
    (48u8 + n as u8) as char
}

/// The decimal numeral of an unsigned number.
pub fn show_u64(n: u64) -> (s: String)
    ensures
        s@ == decimal(n as nat),
    decreases n,
{
    if n < 10 {
        let mut s = String::new();
        s.push(digit_char(n));
        assert(s@ =~= decimal(n as nat));
        s
    } else {
        let mut s = show_u64(n / 10);
        s.push(digit_char(n % 10));
        s
    }
}

/// The decimal numeral of a size.
pub fn show_usize(n: usize) -> (s: String)
    ensures
        s@ == decimal(n as nat),
{
    show_u64(n as u64)
}

/// The decimal numeral of a signed number.
pub fn show_i64(n: i64) -> (s: String)
    ensures
        s@ == decimal_int(n as int),
{
    if n < 0 {
        let magnitude: u64 = if n == i64::MIN {
            9223372036854775808u64
        } else {
            (-n) as u64
        };
        let mut s = String::new();
        s.push('-');
        s.append(show_u64(magnitude).as_str());
        assert(s@ =~= seq!['-'] + decimal(magnitude as nat));
        s
    } else {
        show_u64(n as u64)
    }
}


/// Equal numerals stand for equal numbers.
pub proof fn decimal_injective(a: nat, b: nat)
    requires
        decimal(a) == decimal(b),
    ensures
        a == b,
    decreases a,
{
    if a >= 10 && b >= 10 {
        assert(decimal(a).drop_last() =~= decimal(a / 10));
        assert(decimal(b).drop_last() =~= decimal(b / 10));
        assert(decimal(a).last() == digit(a % 10));
        assert(decimal(b).last() == digit(b % 10));
        decimal_injective(a / 10, b / 10);
    } else if a < 10 && b < 10 {
        assert(decimal(a)[0] == digit(a));
        assert(decimal(b)[0] == digit(b));
    } else if a < 10 {
        decimal_length(b / 10);
        assert(decimal(b).len() == decimal(b / 10).len() + 1);
    } else {
        decimal_length(a / 10);
        assert(decimal(a).len() == decimal(a / 10).len() + 1);
    }
}

proof fn decimal_length(n: nat)
    ensures
        decimal(n).len() >= 1,
    decreases n,
{
    if n >= 10 {
        decimal_length(n / 10);
    }
}

/// Every character of a numeral is a decimal digit.
pub proof fn decimal_digits(n: nat)
    ensures
        forall|i: int| 0 <= i < decimal(n).len() ==> '0' <= #[trigger] decimal(n)[i] <= '9',
    decreases n,
{
    if n >= 10 {
        decimal_digits(n / 10);
    }
    assert forall|i: int| 0 <= i < decimal(n).len() implies '0' <= #[trigger] decimal(n)[i]
        <= '9' by {
        if n >= 10 && i < decimal(n).len() - 1 {
            assert(decimal(n)[i] == decimal(n / 10)[i]);
        }
    }
}

/// A character with the letters `A` to `Z` turned to lower case.
pub open spec fn ascii_lower_char(c: char) -> char {
    if 'A' <= c <= 'Z' {
        ((c as u32) + 32) as char
    } else {
        c
    }
}

/// A text with the letters `A` to `Z` turned to lower case.
pub open spec fn ascii_lower(s: Seq<char>) -> Seq<char> {
    s.map_values(|c: char| ascii_lower_char(c))
}

/// The characters of a string with the letters `A` to `Z` turned to lower case.
pub fn lowered(s: &str) -> (v: Vec<char>)
    ensures
        v@ == ascii_lower(s@),
{
    let chars = chars_of(s);
    let mut v: Vec<char> = Vec::new();
    let mut i: usize = 0;
    while i < chars.len()
        invariant
            i <= chars.len(),
            v@ == ascii_lower(chars@).take(i as int),
        decreases chars.len() - i,
    {
        let c = chars[i];
        let l = if 'A' <= c && c <= 'Z' {
            let code: u8 = c as u8;
            (code + 32) as char
        } else {
            c
        };
        v.push(l);
        i += 1;
        assert(v@ =~= ascii_lower(chars@).take(i as int));
    }
    assert(ascii_lower(chars@).take(i as int) =~= ascii_lower(chars@));
    v
}

/// Lower case is reached in one step.
pub proof fn ascii_lower_idempotent(s: Seq<char>)
    ensures
        ascii_lower(ascii_lower(s)) == ascii_lower(s),
{
    assert(ascii_lower(ascii_lower(s)) =~= ascii_lower(s));
}

/// Whether `part` stands in `whole` at position `at`.
pub open spec fn stands_at(whole: Seq<char>, part: Seq<char>, at: int) -> bool {
    0 <= at && at + part.len() <= whole.len() && whole.subrange(at, at + part.len()) == part
}

/// Whether `part` stands anywhere in `whole`.
pub open spec fn contains_text(whole: Seq<char>, part: Seq<char>) -> bool {
    exists|at: int| #[trigger] stands_at(whole, part, at)
}

/// Whether `whole` begins with `part`.
pub open spec fn begins_with(whole: Seq<char>, part: Seq<char>) -> bool {
    stands_at(whole, part, 0)
}

/// Whether `whole` ends with `part`.
pub open spec fn ends_with(whole: Seq<char>, part: Seq<char>) -> bool {
    stands_at(whole, part, whole.len() - part.len())
}

/// Whether `part` stands in `whole` at position `at`.
pub fn is_at(whole: &[char], part: &[char], at: usize) -> (r: bool)
    ensures
        r == stands_at(whole@, part@, at as int),
{
    if at > whole.len() || part.len() > whole.len() - at {
        return false;
    }
    let mut i: usize = 0;
    while i < part.len()
        invariant
            i <= part.len(),
            at + part.len() <= whole.len(),
            forall|j: int| 0 <= j < i ==> whole@[at + j] == part@[j],
        decreases part.len() - i,
    {
        if whole[at + i] != part[i] {
            assert(whole@.subrange(at as int, at + part@.len())[i as int] != part@[i as int]);
            return false;
        }
        i += 1;
    }
    assert(whole@.subrange(at as int, at + part@.len()) =~= part@);
    true
}

/// Whether `part` stands anywhere in `whole`.
pub fn has_part(whole: &[char], part: &str) -> (r: bool)
    ensures
        r == contains_text(whole@, part@),
{
    let p = chars_of(part);
    let mut at: usize = 0;
    while at < whole.len()
        invariant
            at <= whole.len(),
            p@ == part@,
            forall|i: int| 0 <= i < at ==> !stands_at(whole@, p@, i),
        decreases whole.len() - at,
    {
        if is_at(whole, p.as_slice(), at) {
            return true;
        }
        at += 1;
    }
    is_at(whole, p.as_slice(), at)
}

/// Whether the characters begin with `part`.
pub fn has_prefix(whole: &[char], part: &str) -> (r: bool)
    ensures
        r == begins_with(whole@, part@),
{
    let p = chars_of(part);
    is_at(whole, p.as_slice(), 0)
}

/// Whether the characters end with `part`.
pub fn has_suffix(whole: &[char], part: &str) -> (r: bool)
    ensures
        r == ends_with(whole@, part@),
{
    let p = chars_of(part);
    if p.len() > whole.len() {
        return false;
    }
    is_at(whole, p.as_slice(), whole.len() - p.len())
}

/// The rest of a string after a prefix, when it has that prefix.
pub fn after_prefix(s: &str, prefix: &str) -> (r: Option<String>)
    ensures
        match r {
            Some(rest) => begins_with(s@, prefix@) && rest@ == s@.skip(prefix@.len() as int),
            None => !begins_with(s@, prefix@),
        },
{
    let whole = chars_of(s);
    let p = chars_of(prefix);
    if is_at(whole.as_slice(), p.as_slice(), 0) {
        let rest = string_of(whole.as_slice(), p.len(), whole.len());
        assert(rest@ =~= s@.skip(prefix@.len() as int));
        Some(rest)
    } else {
        None
    }
}

/// Whether a character has the Unicode property `White_Space`.
pub open spec fn white_space(c: char) -> bool {
    ||| '\u{9}' <= c <= '\u{d}'
    ||| c == ' '
    ||| c == '\u{85}'
    ||| c == '\u{a0}'
    ||| c == '\u{1680}'
    ||| '\u{2000}' <= c <= '\u{200a}'
    ||| c == '\u{2028}'
    ||| c == '\u{2029}'
    ||| c == '\u{202f}'
    ||| c == '\u{205f}'
    ||| c == '\u{3000}'
}

/// Whether a character has the Unicode property `White_Space`.
pub fn is_white_space(c: char) -> (r: bool)
    ensures
        r == white_space(c),
{
    ('\u{9}' <= c && c <= '\u{d}') || c == ' ' || c == '\u{85}' || c == '\u{a0}' || c == '\u{1680}' || (
    '\u{2000}' <= c && c <= '\u{200a}') || c == '\u{2028}' || c == '\u{2029}' || c == '\u{202f}' || c
        == '\u{205f}' || c == '\u{3000}'
}

/// The number of leading white-space characters.
pub open spec fn leading_space(s: Seq<char>) -> nat
    decreases s.len(),
{
    if s.len() > 0 && white_space(s[0]) {
        1 + leading_space(s.drop_first())
    } else {
        0
    }
}

/// The number of trailing white-space characters.
pub open spec fn trailing_space(s: Seq<char>) -> nat
    decreases s.len(),
{
    if s.len() > 0 && white_space(s.last()) {
        1 + trailing_space(s.drop_last())
    } else {
        0
    }
}

/// A text without its leading white space.
pub open spec fn trimmed_start(s: Seq<char>) -> Seq<char> {
    s.skip(leading_space(s) as int)
}

/// A text without its trailing white space.
pub open spec fn trimmed_end(s: Seq<char>) -> Seq<char> {
    s.take(s.len() - trailing_space(s))
}

/// A text without white space at either end.
pub open spec fn trimmed(s: Seq<char>) -> Seq<char> {
    trimmed_end(trimmed_start(s))
}

/// A text that trims to nothing is white space throughout.
pub proof fn trimmed_empty(s: Seq<char>)
    ensures
        trimmed(s).len() == 0 <==> (forall|i: int| 0 <= i < s.len() ==> white_space(#[trigger] s[i])),
    decreases s.len(),
{
    leading_space_bound(s);
    let t = trimmed_start(s);
    trailing_space_bound(t);
    if t.len() > 0 {
        assert(t[0] == s[leading_space(s) as int]);
        if trailing_space(t) == t.len() {
            assert(white_space(t[0]));
        }
    } else {
        assert forall|i: int| 0 <= i < s.len() implies white_space(#[trigger] s[i]) by {}
    }
}

proof fn leading_space_bound(s: Seq<char>)
    ensures
        leading_space(s) <= s.len(),
        forall|i: int| 0 <= i < leading_space(s) ==> white_space(#[trigger] s[i]),
        leading_space(s) < s.len() ==> !white_space(s[leading_space(s) as int]),
    decreases s.len(),
{
    if s.len() > 0 && white_space(s[0]) {
        let rest = s.drop_first();
        leading_space_bound(rest);
        assert forall|i: int| 0 <= i < leading_space(s) implies white_space(#[trigger] s[i]) by {
            if i > 0 {
                assert(s[i] == rest[i - 1]);
            }
        }
        if leading_space(s) < s.len() {
            assert(s[leading_space(s) as int] == rest[leading_space(rest) as int]);
        }
    }
}

proof fn trailing_space_bound(s: Seq<char>)
    ensures
        trailing_space(s) <= s.len(),
        forall|i: int| s.len() - trailing_space(s) <= i < s.len() ==> white_space(#[trigger] s[i]),
    decreases s.len(),
{
    if s.len() > 0 && white_space(s.last()) {
        let rest = s.drop_last();
        trailing_space_bound(rest);
        assert forall|i: int| s.len() - trailing_space(s) <= i < s.len() implies white_space(
            #[trigger] s[i],
        ) by {
            if i < s.len() - 1 {
                assert(s[i] == rest[i]);
            }
        }
    }
}

/// The position after the leading white space.
pub fn space_end(chars: &[char]) -> (n: usize)
    ensures
        n == leading_space(chars@),
        n <= chars@.len(),
{
    let mut i: usize = 0;
    proof {
        leading_space_bound(chars@);
        assert(chars@.skip(0) =~= chars@);
    }
    while i < chars.len() && is_white_space(chars[i])
        invariant
            i <= chars@.len(),
            leading_space(chars@) == i + leading_space(chars@.skip(i as int)),
        decreases chars.len() - i,
    {
        assert(chars@.skip(i as int).drop_first() =~= chars@.skip(i + 1));
        i += 1;
    }
    i
}

/// The string without its leading white space.
pub fn trim_start(s: &str) -> (r: String)
    ensures
        r@ == trimmed_start(s@),
{
    let chars = chars_of(s);
    let from = space_end(chars.as_slice());
    let r = string_of(chars.as_slice(), from, chars.len());
    assert(r@ =~= trimmed_start(s@));
    r
}

/// The string without white space at either end.
pub fn trim(s: &str) -> (r: String)
    ensures
        r@ == trimmed(s@),
{
    let chars = chars_of(s);
    let from = space_end(chars.as_slice());
    let mut to: usize = chars.len();
    let ghost t = trimmed_start(s@);
    proof {
        trailing_space_bound(t);
        assert(t.take(t.len() as int) =~= t);
    }
    while to > from && is_white_space(chars[to - 1])
        invariant
            from <= to <= chars@.len(),
            chars@ == s@,
            from == leading_space(s@),
            t == trimmed_start(s@),
            trailing_space(t) == (chars@.len() - to) + trailing_space(t.take(to - from)),
        decreases to,
    {
        let ghost u = t.take(to - from);
        assert(u.drop_last() =~= t.take(to - from - 1));
        assert(u.last() == chars@[to - 1]);
        to -= 1;
    }
    let r = string_of(chars.as_slice(), from, to);
    assert(r@ =~= trimmed(s@));
    r
}

/// Whether the string is empty or white space throughout.
pub fn is_blank(s: &str) -> (r: bool)
    ensures
        r == (trimmed(s@).len() == 0),
{
    let chars = chars_of(s);
    let n = space_end(chars.as_slice());
    proof {
        trimmed_empty(s@);
        leading_space_bound(s@);
    }
    n == chars.len()
}

/// The value of a run of decimal digits.
pub open spec fn digits_value(s: Seq<char>) -> nat
    decreases s.len(),
{
    if s.len() == 0 {
        0
    } else {
        digits_value(s.drop_last()) * 10 + (s.last() as nat - '0' as nat) as nat
    }
}

/// Whether every character is a decimal digit.
pub open spec fn all_digits(s: Seq<char>) -> bool {
    forall|i: int| 0 <= i < s.len() ==> '0' <= #[trigger] s[i] <= '9'
}

/// The number that a text spells: decimal digits, at least one, with an
/// optional leading plus, within the bound.
pub open spec fn parsed_number(s: Seq<char>, max: nat) -> Option<nat> {
    let digits = if s.len() > 0 && s[0] == '+' {
        s.drop_first()
    } else {
        s
    };
    if digits.len() > 0 && all_digits(digits) && digits_value(digits) <= max {
        Some(digits_value(digits))
    } else {
        None
    }
}

proof fn digits_value_grows(s: Seq<char>, n: int)
    requires
        0 <= n <= s.len(),
        all_digits(s),
    ensures
        digits_value(s.take(n)) <= digits_value(s),
    decreases s.len() - n,
{
    if n < s.len() {
        assert(s.take(n + 1).drop_last() =~= s.take(n));
        digits_value_grows(s, n + 1);
    } else {
        assert(s.take(n) =~= s);
    }
}

/// Reads an unsigned number: decimal digits with an optional leading plus;
/// nothing when the text is no such numeral or the number is above `max`.
pub fn parse_number(s: &str, max: u64) -> (r: Option<u64>)
    ensures
        match r {
            Some(n) => parsed_number(s@, max as nat) == Some(n as nat),
            None => parsed_number(s@, max as nat) is None,
        },
{
    let chars = chars_of(s);
    let start: usize = if chars.len() > 0 && chars[0] == '+' {
        1
    } else {
        0
    };
    let ghost digits = chars@.skip(start as int);
    assert(start == 1 ==> digits =~= s@.drop_first());
    assert(start == 0 ==> digits =~= s@);
    if start >= chars.len() {
        return None;
    }
    let mut value: u64 = 0;
    let mut i: usize = start;
    assert(digits.take(0) =~= Seq::<char>::empty());
    while i < chars.len()
        invariant
            start <= i <= chars@.len(),
            chars@ == s@,
            start < chars@.len(),
            digits == chars@.skip(start as int),
            start == 1 <==> (s@.len() > 0 && s@[0] == '+'),
            start <= 1,
            start == 1 ==> digits == s@.drop_first(),
            start == 0 ==> digits == s@,
            all_digits(digits.take(i - start)),
            value == digits_value(digits.take(i - start)),
            value <= max,
        decreases chars.len() - i,
    {
        let c = chars[i];
        assert(digits[i - start] == c);
        if c < '0' || '9' < c {
            return None;
        }
        let d: u64 = (c as u8 - 48) as u64;
        assert(digits.take(i - start + 1).drop_last() =~= digits.take(i - start));
        assert(digits.take(i - start + 1).last() == c);
        assert(digits_value(digits.take(i - start + 1)) == value * 10 + d);
        if value > max / 10 || d > max - value * 10 {
            proof {
                assert(value * 10 + d > max);
                if all_digits(digits) {
                    digits_value_grows(digits, i - start + 1);
                }
            }
            return None;
        }
        value = value * 10 + d;
        proof {
            let t = digits.take(i - start + 1);
            assert forall|k: int| 0 <= k < t.len() implies '0' <= #[trigger] t[k] <= '9' by {
                if k < i - start {
                    assert(t[k] == digits.take(i - start)[k]);
                }
            }
        }
        i += 1;
    }
    assert(digits.take(i - start) =~= digits);
    Some(value)
}

/// Whether the texts ascend strictly.
pub open spec fn strictly_ascending(list: Seq<Seq<char>>) -> bool {
    forall|i: int, j: int|
        0 <= i < j < list.len() ==> text_lt(#[trigger] list[i], #[trigger] list[j])
}

/// Whether no text comes before one that stands earlier.
pub open spec fn ascending(list: Seq<Seq<char>>) -> bool {
    forall|i: int, j: int|
        0 <= i < j < list.len() ==> !text_lt(#[trigger] list[j], #[trigger] list[i])
}

proof fn not_lt_transitive(a: Seq<char>, b: Seq<char>, c: Seq<char>)
    requires
        !text_lt(b, a),
        !text_lt(c, b),
    ensures
        !text_lt(c, a),
{
    if text_lt(c, a) {
        if a != b {
            text_lt_total(a, b);
            text_lt_transitive(c, a, b);
        }
    }
}

/// Puts a string into a strictly ascending list, unless its text is there.
pub fn insert_unique(list: &mut Vec<String>, item: &str)
    requires
        strictly_ascending(texts(old(list)@)),
    ensures
        strictly_ascending(texts(final(list)@)),
        forall|t: Seq<char>| #[trigger]
            texts(final(list)@).contains(t) <==> texts(old(list)@).contains(t) || t == item@,
{
    let ghost before = texts(list@);
    let mut i: usize = list.len();
    while i > 0 && text_before(item, list[i - 1].as_str())
        invariant
            i <= list@.len(),
            before == texts(list@),
            forall|j: int| i <= j < before.len() ==> text_lt(item@, #[trigger] before[j]),
        decreases i,
    {
        assert(before[i - 1] == list@[i - 1]@);
        i -= 1;
    }
    if i > 0 && same_text(list[i - 1].as_str(), item) {
        assert(before[i - 1] == item@);
        return;
    }
    let copy = item.to_owned();
    let ghost after = texts(list@.insert(i as int, copy));
    proof {
        assert(after =~= before.insert(i as int, item@));
        if i > 0 {
            assert(before[i - 1] == list@[i - 1]@);
            text_lt_total(before[i - 1], item@);
        }
        assert forall|p: int, q: int| 0 <= p < q < after.len() implies text_lt(
            #[trigger] after[p],
            #[trigger] after[q],
        ) by {
            if q == i {
                if p < i - 1 {
                    assert(text_lt(before[p], before[i - 1]));
                    text_lt_transitive(before[p], before[i - 1], item@);
                }
            } else if p == i {
                assert(after[q] == before[q - 1]);
            } else {
                let p0 = if p < i {
                    p
                } else {
                    p - 1
                };
                let q0 = if q < i {
                    q
                } else {
                    q - 1
                };
                assert(text_lt(before[p0], before[q0]));
            }
        }
        assert forall|t: Seq<char>| #[trigger] after.contains(t) <==> before.contains(t) || t
            == item@ by {
            if before.contains(t) {
                let k = choose|k: int| 0 <= k < before.len() && before[k] == t;
                if k < i {
                    assert(after[k] == t);
                } else {
                    assert(after[k + 1] == t);
                }
            }
            if t == item@ {
                assert(after[i as int] == t);
            }
            if after.contains(t) && t != item@ {
                let k = choose|k: int| 0 <= k < after.len() && after[k] == t;
                if k < i {
                    assert(before[k] == t);
                } else {
                    assert(before[k - 1] == t);
                }
            }
        }
    }
    list.insert(i, copy);
}

/// Putting a text in at any position adds it to the texts held.
pub proof fn insert_to_multiset<A>(s: Seq<A>, at: int, a: A)
    requires
        0 <= at <= s.len(),
    ensures
        s.insert(at, a).to_multiset() == s.to_multiset().insert(a),
{
    s.to_multiset_ensures();
    let head = s.take(at);
    let tail = s.skip(at);
    assert(s =~= head + tail);
    assert(s.insert(at, a) =~= head.push(a) + tail);
    vstd::seq_lib::lemma_multiset_commutative(head, tail);
    vstd::seq_lib::lemma_multiset_commutative(head.push(a), tail);
    head.to_multiset_ensures();
    assert(s.insert(at, a).to_multiset() =~= s.to_multiset().insert(a));
}

/// Puts a string into an ascending list, behind those of the same text.
pub fn insert_sorted(list: &mut Vec<String>, item: String)
    requires
        ascending(texts(old(list)@)),
    ensures
        ascending(texts(final(list)@)),
        texts(final(list)@).to_multiset() == texts(old(list)@).to_multiset().insert(item@),
{
    let ghost before = texts(list@);
    let mut i: usize = list.len();
    while i > 0 && text_before(item.as_str(), list[i - 1].as_str())
        invariant
            i <= list@.len(),
            before == texts(list@),
            forall|j: int| i <= j < before.len() ==> text_lt(item@, #[trigger] before[j]),
        decreases i,
    {
        assert(before[i - 1] == list@[i - 1]@);
        i -= 1;
    }
    let ghost after = texts(list@.insert(i as int, item));
    proof {
        assert(after =~= before.insert(i as int, item@));
        insert_to_multiset(before, i as int, item@);
        if i > 0 {
            assert(before[i - 1] == list@[i - 1]@);
        }
        assert forall|p: int, q: int| 0 <= p < q < after.len() implies !text_lt(
            #[trigger] after[q],
            #[trigger] after[p],
        ) by {
            if q == i {
                if p < i - 1 {
                    assert(!text_lt(before[i - 1], before[p]));
                    not_lt_transitive(before[p], before[i - 1], item@);
                }
            } else if p == i {
                assert(after[q] == before[q - 1]);
                text_lt_asymmetric(item@, before[q - 1]);
            } else {
                let p0 = if p < i {
                    p
                } else {
                    p - 1
                };
                let q0 = if q < i {
                    q
                } else {
                    q - 1
                };
                assert(!text_lt(before[q0], before[p0]));
            }
        }
    }
    list.insert(i, item);
}

/// A numeral is read back as its number, with or without a plus before it,
/// exactly where the number is within the bound.
pub proof fn numerals_are_read_back(n: nat, max: nat)
    ensures
        n <= max ==> parsed_number(decimal(n), max) == Some(n),
        n > max ==> parsed_number(decimal(n), max) is None,
        n <= max ==> parsed_number(seq!['+'] + decimal(n), max) == Some(n),
        parsed_number(Seq::empty(), max) is None,
{
    numeral_value(n);
    assert('0' <= decimal(n)[0] <= '9');
    assert((seq!['+'] + decimal(n)).drop_first() =~= decimal(n));
}

proof fn numeral_value(n: nat)
    ensures
        digits_value(decimal(n)) == n,
        all_digits(decimal(n)),
        decimal(n).len() > 0,
    decreases n,
{
    if n < 10 {
        assert(decimal(n).drop_last() =~= Seq::<char>::empty());
        assert(digits_value(decimal(n).drop_last()) == 0);
        assert(decimal(n).last() == digit(n));
    } else {
        numeral_value(n / 10);
        assert(decimal(n).drop_last() =~= decimal(n / 10));
        assert(decimal(n).last() == digit(n % 10));
        assert forall|i: int| 0 <= i < decimal(n).len() implies '0' <= #[trigger] decimal(n)[i]
            <= '9' by {
            if i < decimal(n / 10).len() {
                assert(decimal(n)[i] == decimal(n / 10)[i]);
            }
        }
    }
}

/// A text that spells a number is made of digits, after a plus at most: any
/// other character anywhere makes it none.
pub proof fn only_digits_spell_a_number(s: Seq<char>, max: nat, i: int)
    requires
        0 <= i < s.len(),
        !('0' <= s[i] <= '9'),
        i > 0 || s[i] != '+',
    ensures
        parsed_number(s, max) is None,
{
    if s[0] == '+' {
        assert(s.drop_first()[i - 1] == s[i]);
    }
}

/// What is left of a trimmed text is a part of it that neither begins nor ends
/// with white space, and what was around it is white space.
pub proof fn trimming_takes_white_space_alone(s: Seq<char>)
    ensures
        trimmed(s).len() > 0 ==> !white_space(trimmed(s)[0]) && !white_space(trimmed(s).last()),
        exists|from: int, to: int|
            {
                &&& 0 <= from <= to <= s.len()
                &&& trimmed(s) == #[trigger] s.subrange(from, to)
                &&& forall|i: int| 0 <= i < from ==> white_space(#[trigger] s[i])
                &&& forall|i: int| to <= i < s.len() ==> white_space(#[trigger] s[i])
            },
{
    leading_space_bound(s);
    let t = trimmed_start(s);
    trailing_space_bound(t);
    last_kept(t);
    let from = leading_space(s) as int;
    let to = s.len() - trailing_space(t);
    assert(t.len() == s.len() - from);
    assert(trimmed(s) =~= s.subrange(from, to));
    assert forall|i: int| to <= i < s.len() implies white_space(#[trigger] s[i]) by {
        assert(t[i - from] == s[i]);
    }
    if trimmed(s).len() > 0 {
        assert(trimmed(s)[0] == t[0]);
        assert(t[0] == s[from]);
    }
}

proof fn last_kept(s: Seq<char>)
    ensures
        trailing_space(s) <= s.len(),
        trailing_space(s) < s.len() ==> !white_space(s[s.len() - trailing_space(s) - 1]),
    decreases s.len(),
{
    if s.len() > 0 && white_space(s.last()) {
        last_kept(s.drop_last());
    }
}

/// Lower case changes the letters `A` to `Z` into `a` to `z` and nothing else,
/// each at its place.
pub proof fn lower_case_changes_capitals_alone(s: Seq<char>, i: int)
    requires
        0 <= i < s.len(),
    ensures
        ascii_lower(s).len() == s.len(),
        !('A' <= s[i] <= 'Z') ==> ascii_lower(s)[i] == s[i],
        s[i] == 'A' ==> ascii_lower(s)[i] == 'a',
        s[i] == 'M' ==> ascii_lower(s)[i] == 'm',
        s[i] == 'Z' ==> ascii_lower(s)[i] == 'z',
        'A' <= s[i] <= 'Z' ==> ascii_lower(s)[i] as int == s[i] as int + 32,
{
    lower_case_char(s[i]);
}

proof fn lower_case_char(c: char)
    ensures
        !('A' <= c <= 'Z') ==> ascii_lower_char(c) == c,
        'A' <= c <= 'Z' ==> ascii_lower_char(c) as int == c as int + 32,
        c == 'A' ==> ascii_lower_char(c) == 'a',
        c == 'M' ==> ascii_lower_char(c) == 'm',
        c == 'Z' ==> ascii_lower_char(c) == 'z',
{
}

/// A text begins with its head, ends with its tail and contains its middle; and
/// what begins with a text is that text with the rest behind it.
pub proof fn parts_stand_where_they_are(head: Seq<char>, middle: Seq<char>, tail: Seq<char>)
    ensures
        begins_with(head + middle + tail, head),
        ends_with(head + middle + tail, tail),
        contains_text(head + middle + tail, middle),
        begins_with(head, middle) ==> head == middle + head.skip(middle.len() as int),
{
    let whole = head + middle + tail;
    assert(whole.subrange(0, head.len() as int) =~= head);
    assert(whole.subrange(whole.len() - tail.len(), whole.len() as int) =~= tail);
    let at = head.len() as int;
    assert(whole.subrange(at, at + middle.len()) =~= middle);
    assert(stands_at(whole, middle, at));
    if begins_with(head, middle) {
        assert(head =~= head.subrange(0, middle.len() as int) + head.skip(middle.len() as int));
    }
}

/// What a text contains, a longer one that begins with that text contains too.
pub proof fn longer_texts_contain_the_same(whole: Seq<char>, part: Seq<char>, tail: Seq<char>)
    requires
        contains_text(whole, part),
    ensures
        contains_text(whole + tail, part),
{
    let at = choose|at: int| #[trigger] stands_at(whole, part, at);
    assert((whole + tail).subrange(at, at + part.len()) =~= part);
    assert(stands_at(whole + tail, part, at));
}

} // verus!
