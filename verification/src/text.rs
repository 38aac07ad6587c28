//! Character-level text handling: conversion between strings and character
//! vectors, substring search, metadata escaping, number formatting, line
//! splitting and white-space tests.
use vstd::prelude::*;

verus! {

broadcast use vstd::string::group_string_axioms;

// ---------------------------------------------------------------------------
// Conversions
// ---------------------------------------------------------------------------

/// The characters of `s`, in order.
pub fn chars_of(s: &str) -> (v: Vec<char>)
    ensures
        v@ == s@,
{
    let mut v: Vec<char> = Vec::new();
    for c in it: s.chars()
        invariant
            v@ == it.seq().take(it.index()),
            it.seq() == s@,
    {
        v.push(c);
    }
    v
}

/// Collects characters into a `String` (std's `FromIterator<&char>` for
/// `String`, which appends each character in order).
#[verifier::external_body]
pub(crate) fn string_of(v: &Vec<char>) -> (s: String)
    ensures
        s@ == v@,
{
    v.iter().collect::<String>()
}

/// Appends the characters of `s` to `buf`.
pub fn push_str(buf: &mut Vec<char>, s: &str)
    ensures
        final(buf)@ == old(buf)@ + s@,
{
    let mut extra = chars_of(s);
    buf.append(&mut extra);
}

/// Concatenation of two strings.
pub fn concat2(a: &str, b: &str) -> (r: String)
    ensures
        r@ == a@ + b@,
{
    let mut buf = chars_of(a);
    push_str(&mut buf, b);
    string_of(&buf)
}

/// Concatenation of three strings.
pub fn concat3(a: &str, b: &str, c: &str) -> (r: String)
    ensures
        r@ == a@ + b@ + c@,
{
    let mut buf = chars_of(a);
    push_str(&mut buf, b);
    push_str(&mut buf, c);
    string_of(&buf)
}

/// Whether two texts have the same characters.
pub fn same_text(a: &str, b: &str) -> (r: bool)
    ensures
        r == (a@ == b@),
{
    let x = chars_of(a);
    let y = chars_of(b);
    if x.len() != y.len() {
        return false;
    }
    let mut i: usize = 0;
    while i < x.len()
        invariant
            i <= x@.len(),
            x@ == a@,
            y@ == b@,
            x@.len() == y@.len(),
            forall|k: int| 0 <= k < i ==> x@[k] == y@[k],
        decreases x.len() - i,
    {
        if x[i] != y[i] {
            assert(x@[i as int] != y@[i as int]);
            return false;
        }
        i += 1;
    }
    assert(x@ =~= y@);
    true
}

/// A copy of a string with the same characters.
pub fn copy_string(s: &String) -> (r: String)
    ensures
        r@ == s@,
{
    s.clone()
}

/// Option of strings viewed as option of character sequences.
pub open spec fn opt_view(o: Option<String>) -> Option<Seq<char>> {
    match o {
        Some(s) => Some(s@),
        None => None,
    }
}

/// A list of strings seen as character sequences.
pub open spec fn strings_view(v: Seq<String>) -> Seq<Seq<char>> {
    v.map_values(|s: String| s@)
}

/// A copy of an optional string.
pub fn copy_opt_string(o: &Option<String>) -> (r: Option<String>)
    ensures
        opt_view(r) == opt_view(*o),
{
    match o {
        Some(s) => Some(s.clone()),
        None => None,
    }
}

// ---------------------------------------------------------------------------
// Substring search
// ---------------------------------------------------------------------------

/// `p` occurs in `s` starting at position `i`.
pub open spec fn occurs_at(s: Seq<char>, p: Seq<char>, i: int) -> bool {
    0 <= i && i + p.len() <= s.len() && s.subrange(i, i + p.len()) == p
}

/// The first position at or after `from` at which `p` occurs in `s`.
pub open spec fn find_from(s: Seq<char>, p: Seq<char>, from: int) -> Option<int>
    decreases s.len() + 1 - from,
{
    if from < 0 || from + p.len() > s.len() {
        None
    } else if occurs_at(s, p, from) {
        Some(from)
    } else {
        find_from(s, p, from + 1)
    }
}

/// `s` contains `p`.
pub open spec fn contains_seq(s: Seq<char>, p: Seq<char>) -> bool {
    find_from(s, p, 0) is Some
}

/// A found position is an occurrence, and nothing occurs between `from` and it.
pub proof fn lemma_find_from(s: Seq<char>, p: Seq<char>, from: int)
    requires
        0 <= from,
    ensures
        match find_from(s, p, from) {
            Some(i) => from <= i && occurs_at(s, p, i) && forall|j: int|
                from <= j < i ==> !occurs_at(s, p, j),
            None => forall|j: int| from <= j ==> !occurs_at(s, p, j),
        },
    decreases s.len() + 1 - from,
{
    if from + p.len() > s.len() {
    } else if occurs_at(s, p, from) {
    } else {
        lemma_find_from(s, p, from + 1);
    }
}

/// Whether `p` occurs in `s` at position `i`.
pub fn matches_at(s: &Vec<char>, p: &Vec<char>, i: usize) -> (r: bool)
    ensures
        r == occurs_at(s@, p@, i as int),
{
    if i > s.len() || p.len() > s.len() - i {
        return false;
    }
    let mut k: usize = 0;
    while k < p.len()
        invariant
            k <= p.len(),
            i + p.len() <= s.len(),
            forall|j: int| 0 <= j < k ==> s@[i + j] == p@[j],
        decreases p.len() - k,
    {
        if s[i + k] != p[k] {
            assert(s@.subrange(i as int, i + p.len())[k as int] != p@[k as int]);
            return false;
        }
        k += 1;
    }
    assert(s@.subrange(i as int, i + p.len()) =~= p@);
    true
}

/// The first position at or after `from` at which `p` occurs in `s`.
pub fn find_from_exec(s: &Vec<char>, p: &Vec<char>, from: usize) -> (r: Option<usize>)
    ensures
        match r {
            Some(i) => find_from(s@, p@, from as int) == Some(i as int),
            None => find_from(s@, p@, from as int) is None,
        },
{
    if p.len() > s.len() || from > s.len() {
        return None;
    }
    if p.len() == 0 {
        assert(s@.subrange(from as int, from as int) =~= p@);
        return Some(from);
    }
    let mut i = from;
    while p.len() <= s.len() - i
        invariant
            from <= i <= s.len(),
            1 <= p.len() <= s.len(),
            find_from(s@, p@, from as int) == find_from(s@, p@, i as int),
        decreases s.len() - i,
    {
        if matches_at(s, p, i) {
            return Some(i);
        }
        i += 1;
    }
    None
}

/// Whether `s` contains `p` (std's `str::contains` with a string pattern).
pub fn contains_str(s: &str, p: &str) -> (r: bool)
    ensures
        r == contains_seq(s@, p@),
{
    let sv = chars_of(s);
    let pv = chars_of(p);
    find_from_exec(&sv, &pv, 0).is_some()
}

/// The characters of `s` before the first `c`, or all of `s` when there is none
/// (the first piece of std's `split(c)`).
pub open spec fn before_char(s: Seq<char>, c: char) -> Seq<char> {
    match find_from(s, seq![c], 0) {
        Some(i) => s.subrange(0, i),
        None => s,
    }
}

/// The characters of `s` before the first `c`.
pub fn before_char_exec(s: &Vec<char>, c: char) -> (r: Vec<char>)
    ensures
        r@ == before_char(s@, c),
{
    let mut p: Vec<char> = Vec::new();
    p.push(c);
    assert(p@ == seq![c]);
    match find_from_exec(s, &p, 0) {
        Some(i) => {
            proof {
                lemma_find_from(s@, p@, 0);
            }
            let mut r: Vec<char> = Vec::new();
            let mut k: usize = 0;
            while k < i
                invariant
                    k <= i <= s.len(),
                    r@ == s@.subrange(0, k as int),
                decreases i - k,
            {
                r.push(s[k]);
                assert(s@.subrange(0, k + 1) =~= s@.subrange(0, k as int).push(s@[k as int]));
                k += 1;
            }
            r
        },
        None => {
            let mut r: Vec<char> = Vec::new();
            let mut k: usize = 0;
            while k < s.len()
                invariant
                    k <= s.len(),
                    r@ == s@.subrange(0, k as int),
                decreases s.len() - k,
            {
                r.push(s[k]);
                assert(s@.subrange(0, k + 1) =~= s@.subrange(0, k as int).push(s@[k as int]));
                k += 1;
            }
            assert(s@.subrange(0, s.len() as int) =~= s@);
            r
        },
    }
}

/// The characters of `s` from `from` up to `to`.
pub fn slice_chars(s: &Vec<char>, from: usize, to: usize) -> (r: Vec<char>)
    requires
        from <= to <= s.len(),
    ensures
        r@ == s@.subrange(from as int, to as int),
{
    let mut r: Vec<char> = Vec::new();
    let mut k = from;
    while k < to
        invariant
            from <= k <= to <= s.len(),
            r@ == s@.subrange(from as int, k as int),
        decreases to - k,
    {
        r.push(s[k]);
        assert(s@.subrange(from as int, k + 1) =~= s@.subrange(from as int, k as int).push(
            s@[k as int],
        ));
        k += 1;
    }
    r
}

// ---------------------------------------------------------------------------
// Metadata escaping
// ---------------------------------------------------------------------------

/// How one character of a metadata value is written: backslashes and double
/// quotes get a backslash in front of them.
pub open spec fn escape_char(c: char) -> Seq<char> {
    if c == '\\' {
        seq!['\\', '\\']
    } else if c == '"' {
        seq!['\\', '"']
    } else {
        seq![c]
    }
}

/// A metadata value with every backslash doubled and every double quote
/// preceded by a backslash.
pub open spec fn escape_spec(s: Seq<char>) -> Seq<char>
    decreases s.len(),
{
    if s.len() == 0 {
        seq![]
    } else {
        escape_char(s[0]) + escape_spec(s.drop_first())
    }
}

/// Reads an escaped value back: a backslash stands for the character after it.
pub open spec fn unescape_spec(s: Seq<char>) -> Seq<char>
    decreases s.len(),
{
    if s.len() == 0 {
        seq![]
    } else if s[0] == '\\' && s.len() >= 2 {
        seq![s[1]] + unescape_spec(s.subrange(2, s.len() as int))
    } else {
        seq![s[0]] + unescape_spec(s.drop_first())
    }
}

/// Escaping distributes over appending one character.
pub proof fn lemma_escape_push(s: Seq<char>, c: char)
    ensures
        escape_spec(s.push(c)) == escape_spec(s) + escape_char(c),
    decreases s.len(),
{
    if s.len() == 0 {
        assert(s.push(c).drop_first() =~= Seq::<char>::empty());
        assert(escape_spec(Seq::<char>::empty()) == Seq::<char>::empty());
        assert(escape_spec(s.push(c)) =~= escape_spec(s) + escape_char(c));
    } else {
        lemma_escape_push(s.drop_first(), c);
        assert(s.push(c).drop_first() =~= s.drop_first().push(c));
        assert(escape_spec(s.push(c)) =~= escape_spec(s) + escape_char(c));
    }
}

/// The escaped value can be read back: escaping loses nothing.
pub proof fn law_escape_round_trip(s: Seq<char>)
    ensures
        unescape_spec(escape_spec(s)) == s,
    decreases s.len(),
{
    if s.len() == 0 {
    } else {
        law_escape_round_trip(s.drop_first());
        let e = escape_spec(s);
        let rest = escape_spec(s.drop_first());
        let c = s[0];
        if c == '\\' || c == '"' {
            assert(e =~= seq!['\\', c] + rest);
            assert(e.subrange(2, e.len() as int) =~= rest);
        } else {
            assert(e =~= seq![c] + rest);
            assert(e.drop_first() =~= rest);
        }
        assert(unescape_spec(e) =~= s);
    }
}

/// Escapes backslashes and double quotes in a metadata value.
pub fn escape_chars(value: &Vec<char>) -> (r: Vec<char>)
    ensures
        r@ == escape_spec(value@),
{
    let mut out: Vec<char> = Vec::new();
    let mut i: usize = 0;
    while i < value.len()
        invariant
            i <= value.len(),
            out@ == escape_spec(value@.take(i as int)),
        decreases value.len() - i,
    {
        let c = value[i];
        proof {
            lemma_escape_push(value@.take(i as int), c);
            assert(value@.take(i + 1) =~= value@.take(i as int).push(c));
        }
        if c == '\\' {
            out.push('\\');
            out.push('\\');
        } else if c == '"' {
            out.push('\\');
            out.push('"');
        } else {
            out.push(c);
        }
        assert(out@ =~= escape_spec(value@.take(i + 1)));
        i += 1;
    }
    assert(value@.take(value.len() as int) =~= value@);
    out
}

/// Escapes special characters in metadata values for ffmpeg: every backslash
/// is doubled and every double quote gets a backslash in front of it.
pub fn escape_metadata(value: &str) -> (r: String)
    ensures
        r@ == escape_spec(value@),
{
    let v = chars_of(value);
    let e = escape_chars(&v);
    string_of(&e)
}

/// Replaces every backslash with a forward slash.
pub open spec fn slashes_forward(s: Seq<char>) -> Seq<char> {
    s.map_values(|c: char| if c == '\\' { '/' } else { c })
}

/// Replaces every backslash of `s` with a forward slash.
pub fn forward_slashes(s: &str) -> (r: Vec<char>)
    ensures
        r@ == slashes_forward(s@),
{
    let v = chars_of(s);
    let mut out: Vec<char> = Vec::new();
    let mut i: usize = 0;
    while i < v.len()
        invariant
            i <= v.len(),
            out@ == slashes_forward(v@.take(i as int)),
        decreases v.len() - i,
    {
        let c = v[i];
        if c == '\\' {
            out.push('/');
        } else {
            out.push(c);
        }
        assert(out@ =~= slashes_forward(v@.take(i + 1)));
        i += 1;
    }
    assert(v@.take(v.len() as int) =~= v@);
    out
}

// ---------------------------------------------------------------------------
// Numbers
// ---------------------------------------------------------------------------

/// The lower-case digit for a value below sixteen.
pub open spec fn digit_char(d: int) -> char {
    if d == 0 {
        '0'
    } else if d == 1 {
        '1'
    } else if d == 2 {
        '2'
    } else if d == 3 {
        '3'
    } else if d == 4 {
        '4'
    } else if d == 5 {
        '5'
    } else if d == 6 {
        '6'
    } else if d == 7 {
        '7'
    } else if d == 8 {
        '8'
    } else if d == 9 {
        '9'
    } else if d == 10 {
        'a'
    } else if d == 11 {
        'b'
    } else if d == 12 {
        'c'
    } else if d == 13 {
        'd'
    } else if d == 14 {
        'e'
    } else {
        'f'
    }
}

fn digit_char_exec(d: u64) -> (c: char)
    requires
        d < 16,
    ensures
        c == digit_char(d as int),
{
    if d == 0 {
        '0'
    } else if d == 1 {
        '1'
    } else if d == 2 {
        '2'
    } else if d == 3 {
        '3'
    } else if d == 4 {
        '4'
    } else if d == 5 {
        '5'
    } else if d == 6 {
        '6'
    } else if d == 7 {
        '7'
    } else if d == 8 {
        '8'
    } else if d == 9 {
        '9'
    } else if d == 10 {
        'a'
    } else if d == 11 {
        'b'
    } else if d == 12 {
        'c'
    } else if d == 13 {
        'd'
    } else if d == 14 {
        'e'
    } else {
        'f'
    }
}

/// The digits of `n` in base `b` (2..=16), most significant first, without
/// leading zeros (zero is written "0").
pub open spec fn digits(n: nat, b: nat) -> Seq<char>
    recommends
        2 <= b <= 16,
    decreases n,
{
    if n < b || b < 2 {
        seq![digit_char(n as int)]
    } else {
        proof {
            lemma_div_smaller(n, b);
        }
        digits(n / b, b).push(digit_char((n % b) as int))
    }
}

/// Dividing by a base of at least two makes a number at least the base smaller.
pub proof fn lemma_div_smaller(n: nat, b: nat)
    requires
        2 <= b <= n,
    ensures
        n / b < n,
{
    assert(n / b < n) by (nonlinear_arith)
        requires
            2 <= b <= n,
    ;
}

fn push_digits(n: u64, b: u64, out: &mut Vec<char>)
    requires
        2 <= b <= 16,
    ensures
        final(out)@ == old(out)@ + digits(n as nat, b as nat),
    decreases n,
{
    if n >= b {
        proof {
            lemma_div_smaller(n as nat, b as nat);
        }
        push_digits(n / b, b, out);
    }
    out.push(digit_char_exec(n % b));
    proof {
        if n >= b {
            assert(final(out)@ =~= old(out)@ + digits(n as nat, b as nat));
        } else {
            assert(n % b == n) by (nonlinear_arith)
                requires
                    n < b,
            ;
            assert(final(out)@ =~= old(out)@ + digits(n as nat, b as nat));
        }
    }
}

/// One of the ASCII digits `0` to `9`.
pub open spec fn is_decimal_digit(c: char) -> bool {
    '0' <= c <= '9'
}

/// The number that a text of decimal digits denotes, read in base ten.
pub open spec fn decimal_value(s: Seq<char>) -> int
    decreases s.len(),
{
    if s.len() == 0 {
        0
    } else {
        decimal_value(s.drop_last()) * 10 + (s.last() as int - '0' as int)
    }
}

/// The base-ten digits of `n` are the decimal notation of `n`: a non-empty
/// text of decimal digits, without a leading zero unless `n` is zero, that
/// reads back as `n`.
pub proof fn lemma_decimal_digits(n: nat)
    ensures
        digits(n, 10).len() > 0,
        forall|i: int| 0 <= i < digits(n, 10).len() ==> is_decimal_digit(#[trigger] digits(n, 10)[i]),
        digits(n, 10)[0] != '0' || n == 0,
        decimal_value(digits(n, 10)) == n,
    decreases n,
{
    if n < 10 {
        let s = digits(n, 10);
        assert(s.drop_last() =~= Seq::<char>::empty());
        assert(decimal_value(s.drop_last()) == 0);
    } else {
        lemma_div_smaller(n, 10);
        lemma_decimal_digits(n / 10);
        let p = digits(n / 10, 10);
        let s = digits(n, 10);
        assert(s == p.push(digit_char((n % 10) as int)));
        assert(s.drop_last() =~= p);
        assert(n / 10 > 0);
        assert(s[0] == p[0]);
        assert(n == (n / 10) * 10 + n % 10);
    }
}

/// Decimal notation of `n` (as std's `Display` for integers writes it).
pub fn decimal(n: u64) -> (r: String)
    ensures
        r@ == digits(n as nat, 10),
{
    let mut out: Vec<char> = Vec::new();
    push_digits(n, 10, &mut out);
    assert(out@ =~= digits(n as nat, 10));
    string_of(&out)
}

/// Lower-case hexadecimal notation of `n` (as `{:x}` writes it).
pub fn hex_lower(n: u64) -> (r: String)
    ensures
        r@ == digits(n as nat, 16),
{
    let mut out: Vec<char> = Vec::new();
    push_digits(n, 16, &mut out);
    assert(out@ =~= digits(n as nat, 16));
    string_of(&out)
}

// ---------------------------------------------------------------------------
// White space and lines
// ---------------------------------------------------------------------------

/// The Unicode `White_Space` property (the set that std's `char::is_whitespace`
/// tests).
pub open spec fn is_white_space(c: char) -> bool {
    let u = c as u32;
    ||| 0x9 <= u <= 0xD
    ||| u == 0x20
    ||| u == 0x85
    ||| u == 0xA0
    ||| u == 0x1680
    ||| 0x2000 <= u <= 0x200A
    ||| u == 0x2028
    ||| u == 0x2029
    ||| u == 0x202F
    ||| u == 0x205F
    ||| u == 0x3000
}

/// Whether `c` has the Unicode `White_Space` property.
pub fn white_space(c: char) -> (r: bool)
    ensures
        r == is_white_space(c),
{
    let u = c as u32;
    (0x9 <= u && u <= 0xD) || u == 0x20 || u == 0x85 || u == 0xA0 || u == 0x1680 || (0x2000 <= u
        && u <= 0x200A) || u == 0x2028 || u == 0x2029 || u == 0x202F || u == 0x205F || u == 0x3000
}

/// Every character is white space: trimming leaves nothing.
pub open spec fn is_blank(s: Seq<char>) -> bool {
    forall|i: int| 0 <= i < s.len() ==> is_white_space(#[trigger] s[i])
}

/// Whether trimming white space from `s` leaves nothing.
pub fn blank(s: &Vec<char>) -> (r: bool)
    ensures
        r == is_blank(s@),
{
    let mut i: usize = 0;
    while i < s.len()
        invariant
            i <= s.len(),
            forall|j: int| 0 <= j < i ==> is_white_space(#[trigger] s@[j]),
        decreases s.len() - i,
    {
        if !white_space(s[i]) {
            return false;
        }
        i += 1;
    }
    true
}

/// The pieces of `s` between newline characters (always at least one).
pub open spec fn newline_pieces(s: Seq<char>) -> Seq<Seq<char>>
    decreases s.len(),
{
    if s.len() == 0 {
        seq![seq![]]
    } else {
        let p = newline_pieces(s.drop_last());
        if s.last() == '\n' {
            p.push(seq![])
        } else {
            p.update(p.len() - 1, p.last().push(s.last()))
        }
    }
}

/// There is always at least one piece.
pub proof fn lemma_newline_pieces_len(s: Seq<char>)
    ensures
        newline_pieces(s).len() >= 1,
    decreases s.len(),
{
    if s.len() > 0 {
        lemma_newline_pieces_len(s.drop_last());
    }
}

/// A piece without the carriage return that ends it, if one does.
pub open spec fn strip_cr(s: Seq<char>) -> Seq<char> {
    if s.len() > 0 && s.last() == '\r' {
        s.drop_last()
    } else {
        s
    }
}

/// The lines of `s`, as std's `str::lines` gives them: split at `\n` or
/// `\r\n`; the final line ending is optional; a final empty piece is not a line.
pub open spec fn lines_spec(s: Seq<char>) -> Seq<Seq<char>> {
    let p = newline_pieces(s);
    let n = p.len() - 1;
    let body = Seq::new(n as nat, |k: int| strip_cr(p[k]));
    if p.last().len() > 0 {
        body.push(p.last())
    } else {
        body
    }
}

fn strip_cr_exec(v: Vec<char>) -> (r: Vec<char>)
    ensures
        r@ == strip_cr(v@),
{
    let mut v = v;
    if v.len() > 0 && v[v.len() - 1] == '\r' {
        v.pop();
    }
    v
}

/// Splits `s` into lines as std's `str::lines` does.
pub fn split_lines(s: &Vec<char>) -> (r: Vec<Vec<char>>)
    ensures
        r@.len() == lines_spec(s@).len(),
        forall|k: int| 0 <= k < r@.len() ==> (#[trigger] r@[k])@ == lines_spec(s@)[k],
{
    let mut done: Vec<Vec<char>> = Vec::new();
    let mut cur: Vec<char> = Vec::new();
    let mut i: usize = 0;
    proof {
        assert(s@.take(0) =~= Seq::<char>::empty());
    }
    while i < s.len()
        invariant
            i <= s.len(),
            newline_pieces(s@.take(i as int)).len() == done@.len() + 1,
            forall|k: int|
                0 <= k < done@.len() ==> (#[trigger] done@[k])@ == strip_cr(
                    newline_pieces(s@.take(i as int))[k],
                ),
            cur@ == newline_pieces(s@.take(i as int)).last(),
        decreases s.len() - i,
    {
        let c = s[i];
        proof {
            assert(s@.take(i + 1).drop_last() =~= s@.take(i as int));
            assert(s@.take(i + 1).last() == c);
            lemma_newline_pieces_len(s@.take(i as int));
        }
        if c == '\n' {
            let line = strip_cr_exec(cur);
            done.push(line);
            cur = Vec::new();
            assert(cur@ =~= Seq::<char>::empty());
        } else {
            cur.push(c);
        }
        i += 1;
    }
    assert(s@.take(s.len() as int) =~= s@);
    if cur.len() > 0 {
        done.push(cur);
    }
    proof {
        lemma_newline_pieces_len(s@);
    }
    done
}

} // verus!
