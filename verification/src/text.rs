//! Character-level building blocks for the SQL text this library produces:
//! doubling of quote characters, decimal and hexadecimal rendering, joins.

use vstd::prelude::*;

verus! {

/// Appends one character to `s` (std's `String::push`).
#[verifier::external_body]
pub(crate) fn push_char(s: &mut String, c: char)
    ensures
        final(s)@ == old(s)@.push(c),
{
    s.push(c);
}

/// The characters of `s`, in order.
pub fn chars_of(s: &str) -> (v: Vec<char>)
    ensures
        v@ == s@,
{
    let mut v: Vec<char> = Vec::new();
    for c in it: s.chars()
        invariant
            it.seq() == s@,
            v@ == it.seq().take(it.index() as int),
    {
        v.push(c);
    }
    v
}

/// A string holding exactly the characters of `v`.
pub fn string_of(v: &[char]) -> (s: String)
    ensures
        s@ == v@,
{
    let mut s = String::new();
    let mut i: usize = 0;
    while i < v.len()
        invariant
            i <= v.len(),
            s@ == v@.take(i as int),
        decreases v.len() - i,
    {
        push_char(&mut s, v[i]);
        i = i + 1;
        assert(s@ =~= v@.take(i as int));
    }
    assert(v@.take(v.len() as int) =~= v@);
    s
}

/// The ASCII character of a decimal digit.
pub open spec fn digit_char(d: nat) -> char {
    ((d + 48) as u8) as char
}

/// Decimal rendering of a natural number, most significant digit first.
pub open spec fn decimal(n: nat) -> Seq<char>
    decreases n,
{
    if n < 10 {
        seq![digit_char(n)]
    } else {
        decimal(n / 10).push(digit_char(n % 10))
    }
}

/// `n` zero characters.
pub open spec fn zeros(n: nat) -> Seq<char> {
    Seq::new(n, |i: int| '0')
}

/// Decimal rendering of `n` left-padded with zeros to at least `width`
/// characters (what `{:0width$}` prints).
pub open spec fn padded_decimal(n: nat, width: nat) -> Seq<char> {
    let d = decimal(n);
    if d.len() < width {
        zeros((width - d.len()) as nat) + d
    } else {
        d
    }
}

/// Appends the decimal rendering of `n`.
pub fn push_decimal(out: &mut String, n: u64)
    ensures
        final(out)@ == old(out)@ + decimal(n as nat),
    decreases n,
{
    if n >= 10 {
        push_decimal(out, n / 10);
    }
    let d: u8 = (n % 10) as u8;
    push_char(out, (d + 48) as char);
    proof {
        if n >= 10 {
            assert(decimal(n as nat) == decimal((n / 10) as nat).push(digit_char((n % 10) as nat)));
        }
    }
}

/// The decimal rendering of `n` as a new string.
pub fn decimal_string(n: u64) -> (s: String)
    ensures
        s@ == decimal(n as nat),
{
    let mut s = String::new();
    push_decimal(&mut s, n);
    assert(s@ =~= decimal(n as nat));
    s
}

/// Appends `n` in decimal, left-padded with zeros to `width` characters.
pub fn push_padded_decimal(out: &mut String, n: u64, width: usize)
    ensures
        final(out)@ == old(out)@ + padded_decimal(n as nat, width as nat),
{
    let ghost start = out@;
    let d = decimal_string(n);
    let l = d.as_str().unicode_len();
    if l < width {
        let pad = width - l;
        let mut i: usize = 0;
        while i < pad
            invariant
                i <= pad,
                pad == width - l,
                out@ == start + zeros(i as nat),
            decreases pad - i,
        {
            push_char(out, '0');
            i = i + 1;
            assert(out@ =~= start + zeros(i as nat));
        }
    }
    out.append(d.as_str());
    assert(out@ =~= start + padded_decimal(n as nat, width as nat));
}

/// The upper-case hexadecimal digit of `d` (`0..16`).
pub open spec fn hex_upper(d: nat) -> char {
    if d < 10 {
        digit_char(d)
    } else {
        ((d - 10 + 65) as u8) as char
    }
}

/// The lower-case hexadecimal digit of `d` (`0..16`).
pub open spec fn hex_lower(d: nat) -> char {
    if d < 10 {
        digit_char(d)
    } else {
        ((d - 10 + 97) as u8) as char
    }
}

pub fn hex_upper_char(d: u8) -> (c: char)
    requires
        d < 16,
    ensures
        c == hex_upper(d as nat),
{
    if d < 10 {
        (d + 48) as char
    } else {
        (d - 10 + 65) as char
    }
}

pub fn hex_lower_char(d: u8) -> (c: char)
    requires
        d < 16,
    ensures
        c == hex_lower(d as nat),
{
    if d < 10 {
        (d + 48) as char
    } else {
        (d - 10 + 97) as char
    }
}

/// `s` with every occurrence of `q` written twice (`str::replace(q, qq)`).
pub open spec fn doubled(s: Seq<char>, q: char) -> Seq<char>
    decreases s.len(),
{
    if s.len() == 0 {
        Seq::empty()
    } else {
        let rest = doubled(s.drop_last(), q);
        if s.last() == q {
            rest.push(q).push(q)
        } else {
            rest.push(s.last())
        }
    }
}

/// Appends `s` with every `q` doubled.
pub fn push_doubled(out: &mut String, s: &str, q: char)
    ensures
        final(out)@ == old(out)@ + doubled(s@, q),
{
    let ghost start = out@;
    let v = chars_of(s);
    let mut i: usize = 0;
    while i < v.len()
        invariant
            i <= v.len(),
            v@ == s@,
            out@ == start + doubled(v@.take(i as int), q),
        decreases v.len() - i,
    {
        let c = v[i];
        assert(v@.take(i + 1).drop_last() =~= v@.take(i as int));
        push_char(out, c);
        if c == q {
            push_char(out, c);
        }
        i = i + 1;
        assert(out@ =~= start + doubled(v@.take(i as int), q));
    }
    assert(v@.take(v.len() as int) =~= s@);
}

/// `s` wrapped in `open`/`close` with every `close` inside doubled: the
/// quoting rule of SQL identifiers and string literals.
pub open spec fn quoted(open: char, close: char, s: Seq<char>) -> Seq<char> {
    seq![open] + doubled(s, close) + seq![close]
}

pub fn quote_with(open: char, close: char, s: &str) -> (r: String)
    ensures
        r@ == quoted(open, close, s@),
{
    let mut r = String::new();
    push_char(&mut r, open);
    push_doubled(&mut r, s, close);
    push_char(&mut r, close);
    assert(r@ =~= quoted(open, close, s@));
    r
}


/// Reads the body of a quoted token whose opening quote has been read:
/// `q` written twice stands for one `q`, and a single `q` closes the token.
/// The body read and what follows the closing quote, or `None` when the
/// token is not closed.
pub open spec fn read_quoted(t: Seq<char>, q: char) -> Option<(Seq<char>, Seq<char>)>
    decreases t.len(),
{
    if t.len() == 0 {
        None
    } else if t[0] == q && t.len() >= 2 && t[1] == q {
        match read_quoted(t.skip(2), q) {
            Some(p) => Some((seq![q] + p.0, p.1)),
            None => None,
        }
    } else if t[0] == q {
        Some((Seq::empty(), t.skip(1)))
    } else {
        match read_quoted(t.skip(1), q) {
            Some(p) => Some((seq![t[0]] + p.0, p.1)),
            None => None,
        }
    }
}

/// Quoting cannot be broken out of: a reader of the SQL text that takes the
/// quoted token (`quoted(open, q, s)` without its opening quote) gets back
/// exactly `s`, and the token ends at its own closing quote, whatever text
/// follows it (text that does not itself start with `q`).
pub proof fn quoted_reads_back(s: Seq<char>, q: char, rest: Seq<char>)
    requires
        rest.len() == 0 || rest[0] != q,
    ensures
        read_quoted(doubled(s, q) + seq![q] + rest, q) == Some((s, rest)),
    decreases s.len(),
{
    assert(doubled(Seq::<char>::empty(), q) =~= Seq::<char>::empty());
    if s.len() == 0 {
        assert(doubled(s, q) + seq![q] + rest =~= seq![q] + rest);
        assert((seq![q] + rest).skip(1) =~= rest);
    } else {
        let c = s[0];
        let tail = s.skip(1);
        assert(s =~= seq![c] + tail);
        lemma_doubled_concat(seq![c], tail, q);
        assert(seq![c].drop_last() =~= Seq::<char>::empty());
        quoted_reads_back(tail, q, rest);
        let t = doubled(s, q) + seq![q] + rest;
        let t2 = doubled(tail, q) + seq![q] + rest;
        if c == q {
            assert(doubled(seq![c], q) =~= seq![q, q]);
            assert(t =~= seq![q, q] + t2);
            assert(t.skip(2) =~= t2);
            assert(seq![q] + tail =~= s);
        } else {
            assert(doubled(seq![c], q) =~= seq![c]);
            assert(t =~= seq![c] + t2);
            assert(t.skip(1) =~= t2);
        }
    }
}

/// The parts joined with `sep` between neighbours (`[..].join(sep)`).
pub open spec fn joined(parts: Seq<Seq<char>>, sep: Seq<char>) -> Seq<char>
    decreases parts.len(),
{
    if parts.len() == 0 {
        Seq::empty()
    } else if parts.len() == 1 {
        parts[0]
    } else {
        joined(parts.drop_last(), sep) + sep + parts.last()
    }
}

/// The views of a vector of strings.
pub open spec fn views(v: Seq<String>) -> Seq<Seq<char>> {
    v.map_values(|s: String| s@)
}

/// Joins `parts` with `sep`.
pub fn join(parts: &Vec<String>, sep: &str) -> (r: String)
    ensures
        r@ == joined(views(parts@), sep@),
{
    let mut r = String::new();
    let mut i: usize = 0;
    while i < parts.len()
        invariant
            i <= parts.len(),
            r@ == joined(views(parts@).take(i as int), sep@),
        decreases parts.len() - i,
    {
        assert(views(parts@).take(i + 1).drop_last() =~= views(parts@).take(i as int));
        if i > 0 {
            r.append(sep);
        }
        r.append(parts[i].as_str());
        i = i + 1;
        assert(r@ =~= joined(views(parts@).take(i as int), sep@));
    }
    assert(views(parts@).take(parts.len() as int) =~= views(parts@));
    r
}

/// Copy of a string (`String::clone`).
pub fn copy_string(s: &String) -> (r: String)
    ensures
        r@ == s@,
{
    s.clone()
}

/// Whether `s` contains `c`.
pub fn contains_char(s: &str, c: char) -> (b: bool)
    ensures
        b == s@.contains(c),
{
    let v = chars_of(s);
    let mut i: usize = 0;
    while i < v.len()
        invariant
            i <= v.len(),
            v@ == s@,
            forall|j: int| 0 <= j < i ==> v@[j] != c,
        decreases v.len() - i,
    {
        if v[i] == c {
            return true;
        }
        i = i + 1;
    }
    false
}

/// Doubling distributes over concatenation.
pub proof fn lemma_doubled_concat(a: Seq<char>, b: Seq<char>, q: char)
    ensures
        doubled(a + b, q) == doubled(a, q) + doubled(b, q),
    decreases b.len(),
{
    if b.len() == 0 {
        assert(a + b =~= a);
        assert(doubled(a, q) + doubled(b, q) =~= doubled(a, q));
    } else {
        lemma_doubled_concat(a, b.drop_last(), q);
        assert((a + b).drop_last() =~= a + b.drop_last());
        assert((a + b).last() == b.last());
        if b.last() == q {
            assert(doubled(a, q) + doubled(b, q) =~= (doubled(a, q) + doubled(b.drop_last(), q)).push(q).push(q));
        } else {
            assert(doubled(a, q) + doubled(b, q) =~= (doubled(a, q) + doubled(b.drop_last(), q)).push(b.last()));
        }
    }
}


/// Whether `c` has the Unicode `White_Space` property (the set listed in
/// the Unicode Character Database's PropList.txt), which is what std's
/// `char::is_whitespace` reports.
pub open spec fn unicode_white_space(c: char) -> bool {
    let u = c as u32;
    ||| 9 <= u && u <= 13
    ||| u == 0x20
    ||| u == 0x85
    ||| u == 0xA0
    ||| u == 0x1680
    ||| 0x2000 <= u && u <= 0x200A
    ||| u == 0x2028
    ||| u == 0x2029
    ||| u == 0x202F
    ||| u == 0x205F
    ||| u == 0x3000
}

/// std's `char::is_whitespace`: true exactly for the `White_Space`
/// characters.
#[verifier::external_body]
pub(crate) fn is_whitespace_char(c: char) -> (b: bool)
    ensures
        b == unicode_white_space(c),
{
    c.is_whitespace()
}

/// Whether every character of `s` is white space (`s.trim().is_empty()`).
pub open spec fn is_blank(s: Seq<char>) -> bool {
    forall|i: int| 0 <= i < s.len() ==> unicode_white_space(#[trigger] s[i])
}

pub fn is_blank_str(s: &str) -> (b: bool)
    ensures
        b == is_blank(s@),
{
    let v = chars_of(s);
    let mut i: usize = 0;
    while i < v.len()
        invariant
            i <= v.len(),
            v@ == s@,
            forall|j: int| 0 <= j < i ==> unicode_white_space(#[trigger] v@[j]),
        decreases v.len() - i,
    {
        if !is_whitespace_char(v[i]) {
            return false;
        }
        i = i + 1;
    }
    true
}


/// Whether two strings hold the same characters.
pub fn str_eq(a: &str, b: &str) -> (r: bool)
    ensures
        r == (a@ == b@),
{
    let va = chars_of(a);
    let vb = chars_of(b);
    if va.len() != vb.len() {
        return false;
    }
    let mut i: usize = 0;
    while i < va.len()
        invariant
            i <= va.len(),
            va.len() == vb.len(),
            va@ == a@,
            vb@ == b@,
            forall|j: int| 0 <= j < i ==> va@[j] == vb@[j],
        decreases va.len() - i,
    {
        if va[i] != vb[i] {
            return false;
        }
        i = i + 1;
    }
    assert(a@ =~= b@);
    true
}

/// The last `count` hexadecimal digits (lower case) of `n`, most
/// significant first.
pub open spec fn hex_digits(n: nat, count: nat) -> Seq<char>
    decreases count,
{
    if count == 0 {
        Seq::empty()
    } else {
        hex_digits(n / 16, (count - 1) as nat).push(hex_lower(n % 16))
    }
}

pub fn push_hex_digits(out: &mut String, n: u128, count: usize)
    ensures
        final(out)@ == old(out)@ + hex_digits(n as nat, count as nat),
    decreases count,
{
    if count > 0 {
        push_hex_digits(out, n / 16, count - 1);
        push_char(out, hex_lower_char((n % 16) as u8));
    }
}

/// The hyphenated lower-case form of a UUID given by its 128-bit value
/// (8-4-4-4-12 hexadecimal digits, most significant first), which is how
/// `uuid::Uuid` displays itself.
pub open spec fn uuid_text(id: u128) -> Seq<char> {
    let d = hex_digits(id as nat, 32);
    d.subrange(0, 8) + seq!['-'] + d.subrange(8, 12) + seq!['-'] + d.subrange(12, 16) + seq!['-']
        + d.subrange(16, 20) + seq!['-'] + d.subrange(20, 32)
}

proof fn lemma_hex_digits_len(n: nat, count: nat)
    ensures
        hex_digits(n, count).len() == count,
    decreases count,
{
    if count > 0 {
        lemma_hex_digits_len(n / 16, (count - 1) as nat);
    }
}

/// Appends the hyphenated form of `id`.
pub fn push_uuid(out: &mut String, id: u128)
    ensures
        final(out)@ == old(out)@ + uuid_text(id),
{
    let mut d = String::new();
    push_hex_digits(&mut d, id, 32);
    proof { lemma_hex_digits_len(id as nat, 32); }
    let v = chars_of(d.as_str());
    let ghost h = hex_digits(id as nat, 32);
    assert(v@ =~= h);
    let mut i: usize = 0;
    let ghost start = out@;
    while i < 32
        invariant
            i <= 32,
            v@ == h,
            h.len() == 32,
            out@ == start + (if i <= 8 { h.subrange(0, i as int) }
                else if i <= 12 { h.subrange(0, 8) + seq!['-'] + h.subrange(8, i as int) }
                else if i <= 16 { h.subrange(0, 8) + seq!['-'] + h.subrange(8, 12) + seq!['-'] + h.subrange(12, i as int) }
                else if i <= 20 { h.subrange(0, 8) + seq!['-'] + h.subrange(8, 12) + seq!['-'] + h.subrange(12, 16) + seq!['-'] + h.subrange(16, i as int) }
                else { h.subrange(0, 8) + seq!['-'] + h.subrange(8, 12) + seq!['-'] + h.subrange(12, 16) + seq!['-'] + h.subrange(16, 20) + seq!['-'] + h.subrange(20, i as int) }),
        decreases 32 - i,
    {
        if i == 8 || i == 12 || i == 16 || i == 20 {
            push_char(out, '-');
        }
        push_char(out, v[i]);
        i = i + 1;
        proof {
            if i <= 8 {
                assert(out@ =~= start + h.subrange(0, i as int));
            } else if i <= 12 {
                assert(out@ =~= start + (h.subrange(0, 8) + seq!['-'] + h.subrange(8, i as int)));
            } else if i <= 16 {
                assert(out@ =~= start + (h.subrange(0, 8) + seq!['-'] + h.subrange(8, 12) + seq!['-'] + h.subrange(12, i as int)));
            } else if i <= 20 {
                assert(out@ =~= start + (h.subrange(0, 8) + seq!['-'] + h.subrange(8, 12) + seq!['-'] + h.subrange(12, 16) + seq!['-'] + h.subrange(16, i as int)));
            } else {
                assert(out@ =~= start + (h.subrange(0, 8) + seq!['-'] + h.subrange(8, 12) + seq!['-'] + h.subrange(12, 16) + seq!['-'] + h.subrange(16, 20) + seq!['-'] + h.subrange(20, i as int)));
            }
        }
    }
}

/// The hyphenated form of `id` as a new string.
pub fn uuid_string(id: u128) -> (s: String)
    ensures
        s@ == uuid_text(id),
{
    let mut s = String::new();
    push_uuid(&mut s, id);
    assert(s@ =~= uuid_text(id));
    s
}

} // verus!
