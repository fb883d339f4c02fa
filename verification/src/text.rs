//! Strings and characters: the small text vocabulary that the rest of the
//! library is stated in.
//!
//! Every function works on `char`s, and its contract speaks of `Seq<char>`, the
//! view of `str` and `String`.

use vstd::prelude::*;

verus! {

/// `String::push`: appends the given character to the end of the string.
///
/// Stated without proof, after the documentation of the standard library.
pub assume_specification[ String::push ](s: &mut String, ch: char)
    ensures
        final(s)@ == old(s)@.push(ch),
;

// ── Character classes ──

/// A character with the Unicode property `White_Space`.
pub open spec fn is_white_space_char(c: char) -> bool {
    ||| '\u{9}' <= c <= '\u{d}'
    ||| c == '\u{20}'
    ||| c == '\u{85}'
    ||| c == '\u{a0}'
    ||| c == '\u{1680}'
    ||| '\u{2000}' <= c <= '\u{200a}'
    ||| '\u{2028}' <= c <= '\u{2029}'
    ||| c == '\u{202f}'
    ||| c == '\u{205f}'
    ||| c == '\u{3000}'
}

/// A decimal digit of ASCII.
pub open spec fn is_digit_char(c: char) -> bool {
    '0' <= c <= '9'
}

/// A letter of ASCII.
pub open spec fn is_letter_char(c: char) -> bool {
    'a' <= c <= 'z' || 'A' <= c <= 'Z'
}

/// A hexadecimal digit, in either case.
pub open spec fn is_hex_char(c: char) -> bool {
    is_digit_char(c) || 'a' <= c <= 'f' || 'A' <= c <= 'F'
}

/// A hexadecimal digit without lower-case letters.
pub open spec fn is_upper_hex_char(c: char) -> bool {
    is_digit_char(c) || 'A' <= c <= 'F'
}

/// The upper-case form of a letter of ASCII; any other character is itself.
pub open spec fn upper_char(c: char) -> char {
    if 'a' <= c <= 'z' {
        (c as int - 32) as char
    } else {
        c
    }
}

/// Whether `c` has the Unicode property `White_Space`.
pub fn is_white_space(c: char) -> (r: bool)
    ensures
        r == is_white_space_char(c),
{
    ('\u{9}' <= c && c <= '\u{d}') || c == '\u{20}' || c == '\u{85}' || c == '\u{a0}' || c
        == '\u{1680}' || ('\u{2000}' <= c && c <= '\u{200a}') || ('\u{2028}' <= c && c
        <= '\u{2029}') || c == '\u{202f}' || c == '\u{205f}' || c == '\u{3000}'
}

/// Whether `c` is a hexadecimal digit, in either case.
pub fn is_hex_digit(c: char) -> (r: bool)
    ensures
        r == is_hex_char(c),
{
    ('0' <= c && c <= '9') || ('a' <= c && c <= 'f') || ('A' <= c && c <= 'F')
}

/// Whether `c` is a letter of ASCII.
pub fn is_ascii_letter(c: char) -> (r: bool)
    ensures
        r == is_letter_char(c),
{
    ('a' <= c && c <= 'z') || ('A' <= c && c <= 'Z')
}

/// Whether `c` is a decimal digit of ASCII.
pub fn is_ascii_digit(c: char) -> (r: bool)
    ensures
        r == is_digit_char(c),
{
    '0' <= c && c <= '9'
}

/// The upper-case form of a letter of ASCII; any other character is returned as it is.
pub fn to_upper(c: char) -> (r: char)
    ensures
        r == upper_char(c),
{
    if 'a' <= c && c <= 'z' {
        let code: u8 = (c as u32 - 32) as u8;
        code as char
    } else {
        c
    }
}

// ── Whole strings ──

/// The characters of `s`.
pub fn chars_of(s: &str) -> (r: Vec<char>)
    ensures
        r@ == s@,
{
    let mut out: Vec<char> = Vec::new();
    for c in it: s.chars()
        invariant
            it.seq() == s@,
            out@ == s@.take(it.index()),
    {
        out.push(c);
        assert(s@.take(it.index() + 1) =~= s@.take(it.index()).push(c));
    }
    assert(s@.take(s@.len() as int) =~= s@);
    out
}

/// The string made of the characters `v[from..to]`.
pub fn string_of(v: &Vec<char>, from: usize, to: usize) -> (r: String)
    requires
        from <= to <= v@.len(),
    ensures
        r@ == v@.subrange(from as int, to as int),
{
    let mut out = String::new();
    let mut i: usize = from;
    while i < to
        invariant
            from <= i <= to <= v@.len(),
            out@ == v@.subrange(from as int, i as int),
        decreases to - i,
    {
        out.push(v[i]);
        assert(v@.subrange(from as int, i + 1) =~= v@.subrange(from as int, i as int).push(
            v@[i as int],
        ));
        i = i + 1;
    }
    out
}

/// A new string with the characters of `s`.
pub fn copy_str(s: &str) -> (r: String)
    ensures
        r@ == s@,
{
    let mut out = String::new();
    out.append(s);
    assert(Seq::<char>::empty() + s@ =~= s@);
    out
}

/// Whether two strings hold the same characters.
pub fn str_eq(a: &str, b: &str) -> (r: bool)
    ensures
        r == (a@ == b@),
{
    let x = chars_of(a);
    let y = chars_of(b);
    if x.len() != y.len() {
        return false;
    }
    let mut i: usize = 0;
    while i < x.len()
        invariant
            i <= x@.len(),
            x@ == a@,
            y@ == b@,
            x@.len() == y@.len(),
            forall|k: int| 0 <= k < i ==> x@[k] == y@[k],
        decreases x@.len() - i,
    {
        if x[i] != y[i] {
            return false;
        }
        i = i + 1;
    }
    assert(a@ =~= b@);
    true
}

/// Whether `s` begins with `prefix`.
pub fn starts_with(s: &str, prefix: &str) -> (r: bool)
    ensures
        r == prefix@.is_prefix_of(s@),
{
    let x = chars_of(s);
    let p = chars_of(prefix);
    if p.len() > x.len() {
        return false;
    }
    let mut i: usize = 0;
    while i < p.len()
        invariant
            i <= p@.len() <= x@.len(),
            x@ == s@,
            p@ == prefix@,
            forall|k: int| 0 <= k < i ==> x@[k] == p@[k],
        decreases p@.len() - i,
    {
        if x[i] != p[i] {
            assert(s@.take(p@.len() as int)[i as int] != prefix@[i as int]);
            return false;
        }
        i = i + 1;
    }
    assert(prefix@ =~= s@.take(prefix@.len() as int));
    true
}

/// Whether `s` ends with `suffix`.
pub fn ends_with(s: &str, suffix: &str) -> (r: bool)
    ensures
        r == suffix@.is_suffix_of(s@),
{
    let x = chars_of(s);
    let p = chars_of(suffix);
    if p.len() > x.len() {
        return false;
    }
    let n: usize = x.len();
    let start: usize = n - p.len();
    let mut i: usize = 0;
    while i < p.len()
        invariant
            i <= p@.len() <= x@.len(),
            n == x@.len(),
            start == n - p@.len(),
            x@ == s@,
            p@ == suffix@,
            forall|k: int| 0 <= k < i ==> #[trigger] x@[start + k] == p@[k],
        decreases p@.len() - i,
    {
        if x[start + i] != p[i] {
            assert(s@.subrange(start as int, s@.len() as int)[i as int] != suffix@[i as int]);
            return false;
        }
        i = i + 1;
    }
    assert forall|k: int| 0 <= k < suffix@.len() implies suffix@[k] == s@.subrange(
        start as int,
        s@.len() as int,
    )[k] by {
        assert(x@[start + k] == p@[k]);
    }
    assert(suffix@ =~= s@.subrange(start as int, s@.len() as int));
    true
}

// ── Trimming ──

/// `s` without its leading white space.
pub open spec fn trim_start(s: Seq<char>) -> Seq<char>
    decreases s.len(),
{
    if s.len() > 0 && is_white_space_char(s[0]) {
        trim_start(s.drop_first())
    } else {
        s
    }
}

/// `s` without its trailing white space.
pub open spec fn trim_end(s: Seq<char>) -> Seq<char>
    decreases s.len(),
{
    if s.len() > 0 && is_white_space_char(s.last()) {
        trim_end(s.drop_last())
    } else {
        s
    }
}

/// `s` without the white space at its two ends.
pub open spec fn trimmed(s: Seq<char>) -> Seq<char> {
    trim_end(trim_start(s))
}

/// `s` without the white space at its two ends.
pub fn trim(s: &str) -> (r: String)
    ensures
        r@ == trimmed(s@),
{
    let v = chars_of(s);
    let mut from: usize = 0;
    assert(v@.subrange(0, v@.len() as int) =~= s@);
    while from < v.len() && is_white_space(v[from])
        invariant
            from <= v@.len(),
            v@ == s@,
            trim_start(v@.subrange(from as int, v@.len() as int)) == trim_start(s@),
        decreases v@.len() - from,
    {
        assert(v@.subrange(from as int, v@.len() as int).drop_first() =~= v@.subrange(
            from + 1,
            v@.len() as int,
        ));
        from = from + 1;
    }
    let mut to: usize = v.len();
    assert(v@.subrange(from as int, v@.len() as int) == trim_start(s@));
    while to > from && is_white_space(v[to - 1])
        invariant
            from <= to <= v@.len(),
            v@ == s@,
            trim_end(v@.subrange(from as int, to as int)) == trimmed(s@),
        decreases to - from,
    {
        assert(v@.subrange(from as int, to as int).drop_last() =~= v@.subrange(
            from as int,
            to - 1,
        ));
        to = to - 1;
    }
    string_of(&v, from, to)
}

proof fn lemma_trim_start_is_suffix(s: Seq<char>)
    ensures
        exists|i: int| 0 <= i <= s.len() && #[trigger] s.skip(i) == trim_start(s),
        trim_start(s).len() > 0 ==> !is_white_space_char(trim_start(s)[0]),
    decreases s.len(),
{
    if s.len() > 0 && is_white_space_char(s[0]) {
        lemma_trim_start_is_suffix(s.drop_first());
        let i = choose|i: int|
            0 <= i <= s.drop_first().len() && #[trigger] s.drop_first().skip(i) == trim_start(
                s.drop_first(),
            );
        assert(s.skip(i + 1) =~= s.drop_first().skip(i));
    } else {
        assert(s.skip(0) =~= s);
    }
}

proof fn lemma_trim_end_is_prefix(s: Seq<char>)
    ensures
        exists|j: int| 0 <= j <= s.len() && #[trigger] s.take(j) == trim_end(s),
        trim_end(s).len() > 0 ==> !is_white_space_char(trim_end(s).last()),
    decreases s.len(),
{
    if s.len() > 0 && is_white_space_char(s.last()) {
        lemma_trim_end_is_prefix(s.drop_last());
        let j = choose|j: int|
            0 <= j <= s.drop_last().len() && #[trigger] s.drop_last().take(j) == trim_end(
                s.drop_last(),
            );
        assert(s.take(j) =~= s.drop_last().take(j));
    } else {
        assert(s.take(s.len() as int) =~= s);
    }
}

/// Trimming what is trimmed changes nothing.
pub proof fn lemma_trimmed_idempotent(s: Seq<char>)
    ensures
        trimmed(trimmed(s)) == trimmed(s),
{
    let t = trim_start(s);
    lemma_trim_start_is_suffix(s);
    lemma_trim_end_is_prefix(t);
    let j = choose|j: int| 0 <= j <= t.len() && #[trigger] t.take(j) == trim_end(t);
    let u = trim_end(t);
    if u.len() > 0 {
        assert(u[0] == t[0]);
    }
}

// ── Numbers ──

/// The digits of base sixteen, in lower case.
pub open spec fn lower_digit(d: int) -> char {
    if 0 <= d < 10 {
        (d + 48) as char
    } else {
        (d + 87) as char
    }
}

/// The digits of base sixteen, in upper case.
pub open spec fn upper_digit(d: int) -> char {
    if 0 <= d < 10 {
        (d + 48) as char
    } else {
        (d + 55) as char
    }
}

/// `n` in base ten.
pub open spec fn decimal(n: nat) -> Seq<char>
    decreases n,
{
    if n < 10 {
        seq![lower_digit(n as int)]
    } else {
        decimal(n / 10).push(lower_digit((n % 10) as int))
    }
}

/// `n` in base sixteen, in lower case.
pub open spec fn hex(n: nat) -> Seq<char>
    decreases n,
{
    if n < 16 {
        seq![lower_digit(n as int)]
    } else {
        hex(n / 16).push(lower_digit((n % 16) as int))
    }
}

/// `n` in base sixteen, in upper case, filled up with zeros to eight digits.
pub open spec fn hex_of_u32(n: u32) -> Seq<char> {
    seq![
        upper_digit(n as int / 0x1000_0000 % 16),
        upper_digit(n as int / 0x100_0000 % 16),
        upper_digit(n as int / 0x10_0000 % 16),
        upper_digit(n as int / 0x1_0000 % 16),
        upper_digit(n as int / 0x1000 % 16),
        upper_digit(n as int / 0x100 % 16),
        upper_digit(n as int / 0x10 % 16),
        upper_digit(n as int % 16),
    ]
}

/// A 16-bit word as four lower-case digits of base sixteen.
pub open spec fn lower_hex_of_u16(n: u16) -> Seq<char> {
    seq![
        lower_digit(n as int / 0x1000),
        lower_digit(n as int / 0x100 % 16),
        lower_digit(n as int / 0x10 % 16),
        lower_digit(n as int % 16),
    ]
}

/// A byte as two lower-case digits of base sixteen.
pub open spec fn lower_hex_of_byte(b: u8) -> Seq<char> {
    seq![lower_digit(b as int / 16), lower_digit(b as int % 16)]
}

/// A byte as two upper-case digits of base sixteen.
pub open spec fn hex_of_byte(b: u8) -> Seq<char> {
    seq![upper_digit(b as int / 16), upper_digit(b as int % 16)]
}

/// A number in base ten is at least one digit, and digits only.
pub proof fn lemma_decimal_is_digits(n: nat)
    ensures
        decimal(n).len() > 0,
        forall|i: int| 0 <= i < decimal(n).len() ==> is_digit_char(#[trigger] decimal(n)[i]),
    decreases n,
{
    if n >= 10 {
        lemma_decimal_is_digits(n / 10);
    }
}

/// Different numbers are written differently.
pub proof fn lemma_decimal_injective(m: nat, n: nat)
    requires
        decimal(m) == decimal(n),
    ensures
        m == n,
    decreases m + n,
{
    lemma_decimal_is_digits(m / 10);
    lemma_decimal_is_digits(n / 10);
    assert(decimal(m).last() == lower_digit((m % 10) as int));
    assert(decimal(n).last() == lower_digit((n % 10) as int));
    if m >= 10 && n >= 10 {
        assert(decimal(m / 10) =~= decimal(m).drop_last());
        assert(decimal(n / 10) =~= decimal(n).drop_last());
        lemma_decimal_injective(m / 10, n / 10);
    } else if m >= 10 {
        assert(decimal(m).len() > 1);
    } else if n >= 10 {
        assert(decimal(n).len() > 1);
    }
}

/// Appends one lower-case digit.
fn push_lower_digit(out: &mut String, d: u32)
    requires
        d < 16,
    ensures
        final(out)@ == old(out)@.push(lower_digit(d as int)),
{
    let code: u8 = if d < 10 {
        (d + 48) as u8
    } else {
        (d + 87) as u8
    };
    out.push(code as char);
}

/// Appends one upper-case digit.
fn push_upper_digit(out: &mut String, d: u32)
    requires
        d < 16,
    ensures
        final(out)@ == old(out)@.push(upper_digit(d as int)),
{
    let code: u8 = if d < 10 {
        (d + 48) as u8
    } else {
        (d + 55) as u8
    };
    out.push(code as char);
}

/// Appends `n` in base ten.
pub fn push_decimal(out: &mut String, n: u64)
    ensures
        final(out)@ == old(out)@ + decimal(n as nat),
    decreases n,
{
    if n < 10 {
        push_lower_digit(out, n as u32);
        assert(out@ =~= old(out)@ + decimal(n as nat));
    } else {
        push_decimal(out, n / 10);
        push_lower_digit(out, (n % 10) as u32);
        assert(out@ =~= old(out)@ + decimal(n as nat));
    }
}

/// Appends `n` in base sixteen, in lower case.
pub fn push_hex(out: &mut String, n: u64)
    ensures
        final(out)@ == old(out)@ + hex(n as nat),
    decreases n,
{
    if n < 16 {
        push_lower_digit(out, n as u32);
        assert(out@ =~= old(out)@ + hex(n as nat));
    } else {
        push_hex(out, n / 16);
        push_lower_digit(out, (n % 16) as u32);
        assert(out@ =~= old(out)@ + hex(n as nat));
    }
}

/// Appends `n` in base sixteen, in upper case, as eight digits.
pub fn push_hex_of_u32(out: &mut String, n: u32)
    ensures
        final(out)@ == old(out)@ + hex_of_u32(n),
{
    push_upper_digit(out, n / 0x1000_0000 % 16);
    push_upper_digit(out, n / 0x100_0000 % 16);
    push_upper_digit(out, n / 0x10_0000 % 16);
    push_upper_digit(out, n / 0x1_0000 % 16);
    push_upper_digit(out, n / 0x1000 % 16);
    push_upper_digit(out, n / 0x100 % 16);
    push_upper_digit(out, n / 0x10 % 16);
    push_upper_digit(out, n % 16);
    assert(out@ =~= old(out)@ + hex_of_u32(n));
}

/// Appends a 16-bit word as four lower-case digits of base sixteen.
pub fn push_lower_hex_of_u16(out: &mut String, n: u16)
    ensures
        final(out)@ == old(out)@ + lower_hex_of_u16(n),
{
    push_lower_digit(out, (n / 0x1000) as u32);
    push_lower_digit(out, (n / 0x100 % 16) as u32);
    push_lower_digit(out, (n / 0x10 % 16) as u32);
    push_lower_digit(out, (n % 16) as u32);
    assert(out@ =~= old(out)@ + lower_hex_of_u16(n));
}

/// Appends a byte as two lower-case digits of base sixteen.
pub fn push_lower_hex_of_byte(out: &mut String, b: u8)
    ensures
        final(out)@ == old(out)@ + lower_hex_of_byte(b),
{
    push_lower_digit(out, (b / 16) as u32);
    push_lower_digit(out, (b % 16) as u32);
    assert(out@ =~= old(out)@ + lower_hex_of_byte(b));
}

/// Appends a byte as two upper-case digits of base sixteen.
pub fn push_hex_of_byte(out: &mut String, b: u8)
    ensures
        final(out)@ == old(out)@ + hex_of_byte(b),
{
    push_upper_digit(out, (b / 16) as u32);
    push_upper_digit(out, (b % 16) as u32);
    assert(out@ =~= old(out)@ + hex_of_byte(b));
}

// ── Comparisons ──

/// The order of strings by their characters, the first difference deciding.
pub open spec fn text_less(a: Seq<char>, b: Seq<char>) -> bool
    decreases a.len(),
{
    if b.len() == 0 {
        false
    } else if a.len() == 0 {
        true
    } else if a[0] == b[0] {
        text_less(a.drop_first(), b.drop_first())
    } else {
        a[0] < b[0]
    }
}

/// Whether `a` comes before `b`, the first difference of their characters deciding.
pub fn str_less(a: &str, b: &str) -> (r: bool)
    ensures
        r == text_less(a@, b@),
{
    let x = chars_of(a);
    let y = chars_of(b);
    let mut i: usize = 0;
    assert(x@.skip(0) =~= a@ && y@.skip(0) =~= b@);
    while i < x.len() && i < y.len()
        invariant
            i <= x@.len(),
            i <= y@.len(),
            text_less(x@.skip(i as int), y@.skip(i as int)) == text_less(a@, b@),
        decreases x@.len() - i,
    {
        if x[i] != y[i] {
            return x[i] < y[i];
        }
        assert(x@.skip(i as int).drop_first() =~= x@.skip(i + 1));
        assert(y@.skip(i as int).drop_first() =~= y@.skip(i + 1));
        i = i + 1;
    }
    i < y.len()
}

/// No string comes before itself.
pub proof fn lemma_text_less_irreflexive(a: Seq<char>)
    ensures
        !text_less(a, a),
    decreases a.len(),
{
    if a.len() > 0 {
        lemma_text_less_irreflexive(a.drop_first());
    }
}

/// The order of strings is transitive.
pub proof fn lemma_text_less_transitive(a: Seq<char>, b: Seq<char>, c: Seq<char>)
    requires
        text_less(a, b),
        text_less(b, c),
    ensures
        text_less(a, c),
    decreases a.len(),
{
    if a.len() > 0 && a[0] == b[0] && b[0] == c[0] {
        lemma_text_less_transitive(a.drop_first(), b.drop_first(), c.drop_first());
    }
}

/// Of two different strings one comes before the other.
pub proof fn lemma_text_less_total(a: Seq<char>, b: Seq<char>)
    requires
        a != b,
    ensures
        text_less(a, b) || text_less(b, a),
    decreases a.len(),
{
    if a.len() > 0 && b.len() > 0 && a[0] == b[0] {
        if a.drop_first() == b.drop_first() {
            assert(a =~= seq![a[0]] + a.drop_first());
            assert(b =~= seq![b[0]] + b.drop_first());
        }
        lemma_text_less_total(a.drop_first(), b.drop_first());
    } else if a.len() == 0 && b.len() == 0 {
        assert(a =~= b);
    }
}

/// A text with its letters of ASCII in upper case.
pub open spec fn uppercased(s: Seq<char>) -> Seq<char> {
    s.map_values(|c: char| upper_char(c))
}

/// A string with its letters of ASCII in upper case.
pub fn to_uppercase(s: &str) -> (r: String)
    ensures
        r@ == uppercased(s@),
{
    let v = chars_of(s);
    let mut out = String::new();
    let mut i: usize = 0;
    while i < v.len()
        invariant
            i <= v@.len(),
            out@ == uppercased(v@.take(i as int)),
        decreases v@.len() - i,
    {
        out.push(to_upper(v[i]));
        i = i + 1;
        assert(out@ =~= uppercased(v@.take(i as int)));
    }
    assert(v@.take(v@.len() as int) =~= v@);
    out
}

/// Equality up to the case of the letters of ASCII.
pub open spec fn same_ignoring_case(a: Seq<char>, b: Seq<char>) -> bool {
    &&& a.len() == b.len()
    &&& forall|i: int| 0 <= i < a.len() ==> #[trigger] upper_char(a[i]) == upper_char(b[i])
}

/// Whether two strings are equal up to the case of the letters of ASCII.
pub fn eq_ignore_case(a: &str, b: &str) -> (r: bool)
    ensures
        r == same_ignoring_case(a@, b@),
{
    let x = chars_of(a);
    let y = chars_of(b);
    if x.len() != y.len() {
        return false;
    }
    let mut i: usize = 0;
    while i < x.len()
        invariant
            i <= x@.len(),
            x@ == a@,
            y@ == b@,
            x@.len() == y@.len(),
            forall|k: int| 0 <= k < i ==> #[trigger] upper_char(x@[k]) == upper_char(y@[k]),
        decreases x@.len() - i,
    {
        if to_upper(x[i]) != to_upper(y[i]) {
            assert(upper_char(a@[i as int]) != upper_char(b@[i as int]));
            return false;
        }
        i = i + 1;
    }
    true
}

/// `part` occurs in `s` as a stretch of consecutive characters.
pub open spec fn occurs_in(part: Seq<char>, s: Seq<char>) -> bool {
    exists|i: int| 0 <= i <= s.len() - part.len() && part.is_prefix_of(#[trigger] s.skip(i))
}

/// Whether `part` occurs in `s`.
pub fn contains(s: &str, part: &str) -> (r: bool)
    ensures
        r == occurs_in(part@, s@),
{
    let x = chars_of(s);
    let p = chars_of(part);
    if p.len() > x.len() {
        return false;
    }
    let last: usize = x.len() - p.len();
    let mut i: usize = 0;
    loop
        invariant
            x@ == s@,
            p@ == part@,
            last == x@.len() - p@.len(),
            i <= last,
            forall|k: int| 0 <= k < i ==> !part@.is_prefix_of(#[trigger] s@.skip(k)),
        decreases last - i,
    {
        let rest = string_of(&x, i, x.len());
        assert(rest@ =~= s@.skip(i as int));
        if starts_with(rest.as_str(), part) {
            return true;
        }
        if i == last {
            return false;
        }
        i = i + 1;
    }
}

// ── Laws ──

/// The classes of characters, by their bounds: digits, letters, and hexadecimal digits in
/// either case.
pub proof fn law_classes_of_characters(c: char, hex_digit: bool, letter: bool, digit: bool)
    requires
        call_ensures(is_hex_digit, (c,), hex_digit),
        call_ensures(is_ascii_letter, (c,), letter),
        call_ensures(is_ascii_digit, (c,), digit),
    ensures
        digit <==> 0x30 <= c as int <= 0x39,
        letter <==> 0x41 <= c as int <= 0x5A || 0x61 <= c as int <= 0x7A,
        hex_digit <==> digit || 0x41 <= c as int <= 0x46 || 0x61 <= c as int <= 0x66,
{
}

/// The white space: the blanks and line ends of ASCII, and those of Unicode beyond it.
pub proof fn law_white_space(c: char, r: bool)
    requires
        call_ensures(is_white_space, (c,), r),
    ensures
        c as int <= 0x7F ==> (r <==> 0x09 <= c as int <= 0x0D || c == ' '),
        0x80 <= c as int <= 0xFF ==> (r <==> c as int == 0x85 || c as int == 0xA0),
        c as int >= 0x100 ==> (r <==> {
            ||| c as int == 0x1680
            ||| 0x2000 <= c as int <= 0x200A
            ||| c as int == 0x2028
            ||| c as int == 0x2029
            ||| c as int == 0x202F
            ||| c as int == 0x205F
            ||| c as int == 0x3000
        }),
{
}

/// The lower-case letters of ASCII go down by 32, and every other character stays.
pub proof fn law_upper_case(c: char, r: char)
    requires
        call_ensures(to_upper, (c,), r),
    ensures
        0x61 <= c as int <= 0x7A ==> r as int == c as int - 32,
        !(0x61 <= c as int <= 0x7A) ==> r == c,
{
}

/// A text in upper case is as long as before, and each character is that in upper case.
pub proof fn law_upper_case_of_texts(s: Seq<char>, i: int)
    requires
        0 <= i < s.len(),
    ensures
        uppercased(s).len() == s.len(),
        0x61 <= s[i] as int <= 0x7A ==> uppercased(s)[i] as int == s[i] as int - 32,
        !(0x61 <= s[i] as int <= 0x7A) ==> uppercased(s)[i] == s[i],
{
}

/// Two texts are equal up to case exactly if they are equal in upper case.
pub proof fn lemma_same_ignoring_case(a: Seq<char>, b: Seq<char>)
    ensures
        same_ignoring_case(a, b) <==> uppercased(a) == uppercased(b),
{
    let x = uppercased(a);
    let y = uppercased(b);
    assert(x.len() == a.len() && y.len() == b.len());
    if same_ignoring_case(a, b) {
        assert forall|i: int| 0 <= i < a.len() implies x[i] == y[i] by {
            assert(upper_char(a[i]) == upper_char(b[i]));
        }
        assert(x =~= y);
    }
    if x == y {
        assert forall|i: int| 0 <= i < a.len() implies #[trigger] upper_char(a[i]) == upper_char(
            b[i],
        ) by {
            assert(x[i] == y[i]);
        }
    }
}

/// Two texts are equal up to case exactly if they are equal in upper case.
pub proof fn law_equal_up_to_case(a: &str, b: &str, r: bool)
    requires
        call_ensures(eq_ignore_case, (a, b), r),
    ensures
        r <==> uppercased(a@) == uppercased(b@),
{
    lemma_same_ignoring_case(a@, b@);
}

/// A part occurs in a text exactly if the text is the part with something before and
/// something after it.
pub proof fn law_part_has_a_place(s: &str, part: &str, r: bool)
    requires
        call_ensures(contains, (s, part), r),
    ensures
        r <==> exists|before: Seq<char>, after: Seq<char>| s@ == #[trigger] (before + part@ + after),
{
    if r {
        let i = choose|i: int|
            0 <= i <= s@.len() - part@.len() && part@.is_prefix_of(#[trigger] s@.skip(i));
        let before = s@.take(i);
        let after = s@.skip(i + part@.len());
        assert forall|k: int| 0 <= k < part@.len() implies part@[k] == s@[i + k] by {
            assert(s@.skip(i)[k] == s@[i + k]);
            assert(s@.skip(i).take(part@.len() as int)[k] == part@[k]);
        }
        assert(s@ =~= before + part@ + after);
    }
    if exists|before: Seq<char>, after: Seq<char>| s@ == #[trigger] (before + part@ + after) {
        let (before, after) = choose|before: Seq<char>, after: Seq<char>|
            s@ == #[trigger] (before + part@ + after);
        let rest = s@.skip(before.len() as int);
        assert(rest =~= part@ + after);
        assert(rest.take(part@.len() as int) =~= part@);
        assert(part@.is_prefix_of(rest));
    }
}

/// Every character is white space.
pub open spec fn is_blank(s: Seq<char>) -> bool {
    forall|i: int| 0 <= i < s.len() ==> is_white_space_char(#[trigger] s[i])
}

proof fn lemma_trim_start_of_blank(blank: Seq<char>, rest: Seq<char>)
    requires
        is_blank(blank),
    ensures
        trim_start(blank + rest) == trim_start(rest),
    decreases blank.len(),
{
    if blank.len() == 0 {
        assert(blank + rest =~= rest);
    } else {
        assert(is_white_space_char(blank[0]));
        assert((blank + rest)[0] == blank[0]);
        assert((blank + rest).drop_first() =~= blank.drop_first() + rest);
        assert(is_blank(blank.drop_first()));
        lemma_trim_start_of_blank(blank.drop_first(), rest);
    }
}

proof fn lemma_trim_end_of_blank(rest: Seq<char>, blank: Seq<char>)
    requires
        is_blank(blank),
    ensures
        trim_end(rest + blank) == trim_end(rest),
    decreases blank.len(),
{
    if blank.len() == 0 {
        assert(rest + blank =~= rest);
    } else {
        assert(is_white_space_char(blank[blank.len() - 1]));
        assert((rest + blank).last() == blank.last());
        assert((rest + blank).drop_last() =~= rest + blank.drop_last());
        assert(is_blank(blank.drop_last()));
        lemma_trim_end_of_blank(rest, blank.drop_last());
    }
}

/// Trimming takes away the white space at the two ends, all of it and nothing else: what is
/// between them, and neither begins nor ends with white space, is left.
pub proof fn law_trim_leaves_the_core(
    before: Seq<char>,
    core: Seq<char>,
    after: Seq<char>,
    s: &str,
    r: String,
)
    requires
        call_ensures(trim, (s,), r),
        s@ == before + core + after,
        is_blank(before),
        is_blank(after),
        core.len() > 0 ==> !is_white_space_char(core[0]) && !is_white_space_char(core.last()),
    ensures
        r@ == core,
        trimmed(before + core + after) == core,
{
    let rest = core + after;
    assert(before + core + after =~= before + rest);
    lemma_trim_start_of_blank(before, rest);
    if core.len() == 0 {
        assert(rest =~= after + core);
        lemma_trim_start_of_blank(after, core);
    } else {
        assert(rest[0] == core[0]);
        lemma_trim_end_of_blank(core, after);
    }
}

/// The value of a digit of base sixteen, in either case.
pub open spec fn digit_value(c: char) -> int {
    if '0' <= c <= '9' {
        c as int - '0' as int
    } else if 'a' <= c <= 'f' {
        c as int - 'a' as int + 10
    } else {
        c as int - 'A' as int + 10
    }
}

/// The number that digits stand for in a base.
pub open spec fn number_read(s: Seq<char>, base: int) -> int
    decreases s.len(),
{
    if s.len() == 0 {
        0
    } else {
        number_read(s.drop_last(), base) * base + digit_value(s.last())
    }
}

/// A number in base ten is read as the number that was written. It is made of the digits
/// `0` to `9`, and it does not begin with `0` unless it is that digit alone.
pub proof fn law_decimal_reads_back(n: nat)
    ensures
        number_read(decimal(n), 10) == n,
        decimal(n).len() > 0,
        forall|i: int| 0 <= i < decimal(n).len() ==> '0' <= #[trigger] decimal(n)[i] <= '9',
        n > 0 ==> decimal(n)[0] != '0',
        n == 0 ==> decimal(n) == seq!['0'],
    decreases n,
{
    reveal_with_fuel(number_read, 2);
    let s = decimal(n);
    if n >= 10 {
        law_decimal_reads_back(n / 10);
        assert(s.drop_last() =~= decimal(n / 10));
        assert(s[0] == decimal(n / 10)[0]);
    } else {
        assert(s.drop_last() =~= Seq::<char>::empty());
    }
}

/// A number in base sixteen is read as the number that was written. It is made of the digits
/// `0` to `9` and `a` to `f`, and it does not begin with `0` unless it is that digit alone.
pub proof fn law_hex_reads_back(n: nat)
    ensures
        number_read(hex(n), 16) == n,
        hex(n).len() > 0,
        forall|i: int|
            0 <= i < hex(n).len() ==> '0' <= #[trigger] hex(n)[i] <= '9' || 'a' <= hex(n)[i]
                <= 'f',
        n > 0 ==> hex(n)[0] != '0',
        n == 0 ==> hex(n) == seq!['0'],
    decreases n,
{
    reveal_with_fuel(number_read, 2);
    let s = hex(n);
    if n >= 16 {
        law_hex_reads_back(n / 16);
        assert(s.drop_last() =~= hex(n / 16));
        assert(s[0] == hex(n / 16)[0]);
    } else {
        assert(s.drop_last() =~= Seq::<char>::empty());
    }
}

/// A digit of base sixteen without lower-case letters, and one without upper-case letters.
proof fn lemma_digits(d: int)
    requires
        0 <= d < 16,
    ensures
        digit_value(upper_digit(d)) == d,
        digit_value(lower_digit(d)) == d,
        '0' <= upper_digit(d) <= '9' || 'A' <= upper_digit(d) <= 'F',
        '0' <= lower_digit(d) <= '9' || 'a' <= lower_digit(d) <= 'f',
{
}

/// A byte is written with two digits of base sixteen, in upper or in lower case, and read as
/// the byte that was written.
pub proof fn law_bytes_read_back(b: u8)
    ensures
        hex_of_byte(b).len() == 2,
        lower_hex_of_byte(b).len() == 2,
        number_read(hex_of_byte(b), 16) == b,
        number_read(lower_hex_of_byte(b), 16) == b,
        forall|i: int|
            0 <= i < 2 ==> '0' <= #[trigger] hex_of_byte(b)[i] <= '9' || 'A' <= hex_of_byte(b)[i]
                <= 'F',
        forall|i: int|
            0 <= i < 2 ==> '0' <= #[trigger] lower_hex_of_byte(b)[i] <= '9' || 'a'
                <= lower_hex_of_byte(b)[i] <= 'f',
{
    lemma_digits(b as int / 16);
    lemma_digits(b as int % 16);
    lemma_read_two(hex_of_byte(b));
    lemma_read_two(lower_hex_of_byte(b));
}

/// A word is written with four digits of base sixteen in lower case, and read as the word
/// that was written.
pub proof fn law_words_read_back(w: u16)
    ensures
        lower_hex_of_u16(w).len() == 4,
        number_read(lower_hex_of_u16(w), 16) == w,
        forall|i: int|
            0 <= i < 4 ==> '0' <= #[trigger] lower_hex_of_u16(w)[i] <= '9' || 'a'
                <= lower_hex_of_u16(w)[i] <= 'f',
{
    lemma_digits(w as int / 0x1000);
    lemma_digits(w as int / 0x100 % 16);
    lemma_digits(w as int / 0x10 % 16);
    lemma_digits(w as int % 16);
    lemma_read_four(lower_hex_of_u16(w));
    lemma_four_places(w);
}

/// A word is the sum of its four places of base sixteen.
proof fn lemma_four_places(w: u16)
    ensures
        0 <= w as int / 0x1000 < 16,
        w as int == w as int / 0x1000 * 0x1000 + w as int / 0x100 % 16 * 0x100 + w as int / 0x10
            % 16 * 0x10 + w as int % 16,
{
    let a = w as int / 0x10;
    let b = w as int / 0x100;
    let c = w as int / 0x1000;
    vstd::arithmetic::div_mod::lemma_div_denominator(w as int, 0x10, 16);
    vstd::arithmetic::div_mod::lemma_div_denominator(w as int, 0x100, 16);
    assert(w as int == a * 16 + w as int % 16);
    assert(b == a / 16 && a == b * 16 + a % 16);
    assert(c == b / 16 && b == c * 16 + b % 16);
}

/// A code of 32 bits is written with eight digits of base sixteen in upper case, and read as
/// the code that was written.
pub proof fn law_codes_read_back(n: u32)
    ensures
        hex_of_u32(n).len() == 8,
        number_read(hex_of_u32(n), 16) == n,
        forall|i: int|
            0 <= i < 8 ==> '0' <= #[trigger] hex_of_u32(n)[i] <= '9' || 'A' <= hex_of_u32(n)[i]
                <= 'F',
{
    lemma_digits(n as int / 0x1000_0000 % 16);
    lemma_digits(n as int / 0x100_0000 % 16);
    lemma_digits(n as int / 0x10_0000 % 16);
    lemma_digits(n as int / 0x1_0000 % 16);
    lemma_digits(n as int / 0x1000 % 16);
    lemma_digits(n as int / 0x100 % 16);
    lemma_digits(n as int / 0x10 % 16);
    lemma_digits(n as int % 16);
    lemma_read_eight(hex_of_u32(n));
    lemma_eight_places(n);
}

/// A number of 32 bits is the sum of its eight places of base sixteen.
proof fn lemma_eight_places(n: u32)
    ensures
        n as int == n as int / 0x1000_0000 % 16 * 0x1000_0000 + n as int / 0x100_0000 % 16
            * 0x100_0000 + n as int / 0x10_0000 % 16 * 0x10_0000 + n as int / 0x1_0000 % 16
            * 0x1_0000 + n as int / 0x1000 % 16 * 0x1000 + n as int / 0x100 % 16 * 0x100 + n as int
            / 0x10 % 16 * 0x10 + n as int % 16,
{
    let a = n as int / 0x10;
    let b = n as int / 0x100;
    let c = n as int / 0x1000;
    let d = n as int / 0x1_0000;
    let e = n as int / 0x10_0000;
    let f = n as int / 0x100_0000;
    let g = n as int / 0x1000_0000;
    vstd::arithmetic::div_mod::lemma_div_denominator(n as int, 0x10, 16);
    vstd::arithmetic::div_mod::lemma_div_denominator(n as int, 0x100, 16);
    vstd::arithmetic::div_mod::lemma_div_denominator(n as int, 0x1000, 16);
    vstd::arithmetic::div_mod::lemma_div_denominator(n as int, 0x1_0000, 16);
    vstd::arithmetic::div_mod::lemma_div_denominator(n as int, 0x10_0000, 16);
    vstd::arithmetic::div_mod::lemma_div_denominator(n as int, 0x100_0000, 16);
    assert(n as int == a * 16 + n as int % 16);
    assert(b == a / 16 && a == b * 16 + a % 16);
    assert(c == b / 16 && b == c * 16 + b % 16);
    assert(d == c / 16 && c == d * 16 + c % 16);
    assert(e == d / 16 && d == e * 16 + d % 16);
    assert(f == e / 16 && e == f * 16 + e % 16);
    assert(g == f / 16 && f == g * 16 + f % 16);
    assert(0 <= g < 16);
    assert(g % 16 == g);
}

proof fn lemma_read_two(s: Seq<char>)
    requires
        s.len() == 2,
    ensures
        number_read(s, 16) == digit_value(s[0]) * 16 + digit_value(s[1]),
{
    reveal_with_fuel(number_read, 3);
}

proof fn lemma_read_four(s: Seq<char>)
    requires
        s.len() == 4,
    ensures
        number_read(s, 16) == digit_value(s[0]) * 0x1000 + digit_value(s[1]) * 0x100 + digit_value(
            s[2],
        ) * 0x10 + digit_value(s[3]),
{
    let front = s.drop_last().drop_last();
    lemma_read_two(front);
    reveal_with_fuel(number_read, 3);
}

proof fn lemma_read_eight(s: Seq<char>)
    requires
        s.len() == 8,
    ensures
        number_read(s, 16) == digit_value(s[0]) * 0x1000_0000 + digit_value(s[1]) * 0x100_0000
            + digit_value(s[2]) * 0x10_0000 + digit_value(s[3]) * 0x1_0000 + digit_value(s[4])
            * 0x1000 + digit_value(s[5]) * 0x100 + digit_value(s[6]) * 0x10 + digit_value(s[7]),
{
    let six = s.drop_last().drop_last();
    let four = six.drop_last().drop_last();
    lemma_read_four(four);
    reveal_with_fuel(number_read, 2);
    assert(number_read(six, 16) == number_read(four, 16) * 0x100 + digit_value(s[4]) * 0x10
        + digit_value(s[5]));
    assert(number_read(s, 16) == number_read(six, 16) * 0x100 + digit_value(s[6]) * 0x10
        + digit_value(s[7]));
}

/// The order of texts: after a common beginning the first difference decides, and a text
/// that ends there comes first.
pub proof fn law_first_difference_decides(common: Seq<char>, a: Seq<char>, b: Seq<char>)
    ensures
        b.len() == 0 ==> !text_less(common + a, common + b),
        a.len() == 0 && b.len() > 0 ==> text_less(common + a, common + b),
        a.len() > 0 && b.len() > 0 && a[0] != b[0] ==> (text_less(common + a, common + b) <==> (
        a[0] as int) < b[0] as int),
    decreases common.len(),
{
    if common.len() == 0 {
        assert(common + a =~= a);
        assert(common + b =~= b);
    } else {
        assert((common + a)[0] == common[0] && (common + b)[0] == common[0]);
        assert((common + a).drop_first() =~= common.drop_first() + a);
        assert((common + b).drop_first() =~= common.drop_first() + b);
        law_first_difference_decides(common.drop_first(), a, b);
    }
}

/// A number that is appended is read as that number: in base ten, in base sixteen, and with a
/// fixed number of digits. What stood there before stays.
pub proof fn law_appended_numbers_read_back(
    a: &mut String,
    n: u64,
    x: (),
    b: &mut String,
    m: u64,
    y: (),
    c: &mut String,
    code: u32,
    z: (),
)
    requires
        call_ensures(push_decimal, (a, n), x),
        call_ensures(push_hex, (b, m), y),
        call_ensures(push_hex_of_u32, (c, code), z),
    ensures
        old(a)@.is_prefix_of(final(a)@),
        old(b)@.is_prefix_of(final(b)@),
        old(c)@.is_prefix_of(final(c)@),
        number_read(final(a)@.skip(old(a)@.len() as int), 10) == n,
        number_read(final(b)@.skip(old(b)@.len() as int), 16) == m,
        number_read(final(c)@.skip(old(c)@.len() as int), 16) == code,
        final(c)@.len() == old(c)@.len() + 8,
{
    law_decimal_reads_back(n as nat);
    law_hex_reads_back(m as nat);
    law_codes_read_back(code);
    lemma_appended(old(a)@, decimal(n as nat));
    lemma_appended(old(b)@, hex(m as nat));
    lemma_appended(old(c)@, hex_of_u32(code));
}

/// A word or a byte that is appended is read as that word or byte. What stood there before
/// stays.
pub proof fn law_appended_bytes_read_back(
    a: &mut String,
    w: u16,
    x: (),
    b: &mut String,
    lower: u8,
    y: (),
    c: &mut String,
    upper: u8,
    z: (),
)
    requires
        call_ensures(push_lower_hex_of_u16, (a, w), x),
        call_ensures(push_lower_hex_of_byte, (b, lower), y),
        call_ensures(push_hex_of_byte, (c, upper), z),
    ensures
        old(a)@.is_prefix_of(final(a)@),
        old(b)@.is_prefix_of(final(b)@),
        old(c)@.is_prefix_of(final(c)@),
        number_read(final(a)@.skip(old(a)@.len() as int), 16) == w,
        number_read(final(b)@.skip(old(b)@.len() as int), 16) == lower,
        number_read(final(c)@.skip(old(c)@.len() as int), 16) == upper,
        final(a)@.len() == old(a)@.len() + 4,
        final(b)@.len() == old(b)@.len() + 2,
        final(c)@.len() == old(c)@.len() + 2,
{
    law_words_read_back(w);
    law_bytes_read_back(lower);
    law_bytes_read_back(upper);
    lemma_appended(old(a)@, lower_hex_of_u16(w));
    lemma_appended(old(b)@, lower_hex_of_byte(lower));
    lemma_appended(old(c)@, hex_of_byte(upper));
}

proof fn lemma_appended(before: Seq<char>, part: Seq<char>)
    ensures
        before.is_prefix_of(before + part),
        (before + part).skip(before.len() as int) == part,
{
    assert((before + part).take(before.len() as int) =~= before);
    assert((before + part).skip(before.len() as int) =~= part);
}

/// The text functions on whole texts: the characters, a part of them, a copy, equality, and
/// the two ends.
pub proof fn law_whole_texts(
    s: &str,
    t: &str,
    chars: Vec<char>,
    copy: String,
    equal: bool,
    starts: bool,
    ends: bool,
)
    requires
        call_ensures(chars_of, (s,), chars),
        call_ensures(copy_str, (s,), copy),
        call_ensures(str_eq, (s, t), equal),
        call_ensures(starts_with, (s, t), starts),
        call_ensures(ends_with, (s, t), ends),
    ensures
        chars@ == s@,
        copy@ == s@,
        equal <==> s@ == t@,
        starts <==> exists|rest: Seq<char>| s@ == #[trigger] (t@ + rest),
        ends <==> exists|rest: Seq<char>| s@ == #[trigger] (rest + t@),
{
    if starts {
        assert(s@ =~= t@ + s@.skip(t@.len() as int)) by {
            assert(s@.take(t@.len() as int) == t@);
        }
    }
    if exists|rest: Seq<char>| s@ == #[trigger] (t@ + rest) {
        let rest = choose|rest: Seq<char>| s@ == #[trigger] (t@ + rest);
        assert(s@.take(t@.len() as int) =~= t@);
        assert(t@.is_prefix_of(s@));
    }
    if ends {
        let n = s@.len() - t@.len();
        assert(s@.subrange(n, s@.len() as int) == t@);
        assert(s@ =~= s@.take(n) + t@);
    }
    if exists|rest: Seq<char>| s@ == #[trigger] (rest + t@) {
        let rest = choose|rest: Seq<char>| s@ == #[trigger] (rest + t@);
        assert(s@.subrange(s@.len() - t@.len(), s@.len() as int) =~= t@);
        assert(t@.is_suffix_of(s@));
    }
}

/// The comparison of two texts and the upper case of a text are those of their characters.
pub proof fn law_comparison_and_case(a: &str, b: &str, less: bool, upper: String)
    requires
        call_ensures(str_less, (a, b), less),
        call_ensures(to_uppercase, (a,), upper),
    ensures
        less <==> text_less(a@, b@),
        upper@.len() == a@.len(),
        forall|i: int|
            0 <= i < a@.len() ==> #[trigger] upper@[i] as int == if 0x61 <= a@[i] as int <= 0x7A {
                a@[i] as int - 32
            } else {
                a@[i] as int
            },
{
}

} // verus!
