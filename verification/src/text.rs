use vstd::prelude::*;

verus! {

/// Whether `s` can be handed to C as a NUL-terminated string: it holds no
/// NUL character.
pub fn is_nul_free(s: &str) -> (res: bool)
    ensures
        res == !s@.contains('\0'),
{
    for c in it: s.chars()
        invariant
            it.seq() == s@,
            forall|j: int| 0 <= j < it.index() ==> s@[j] != '\0',
    {
        if c == '\0' {
            return false;
        }
    }
    true
}

/// The UTF-16 code units of one character.
pub open spec fn utf16_of_char(c: char) -> Seq<u16> {
    let v: u32 = c as u32;
    if v < 0x10000 {
        seq![v as u16]
    } else {
        seq![(0xD800 + (v - 0x10000) / 0x400) as u16, (0xDC00 + (v - 0x10000) % 0x400) as u16]
    }
}

/// The UTF-16 encoding of a character sequence.
pub open spec fn utf16_of(s: Seq<char>) -> Seq<u16>
    decreases s.len(),
{
    if s.len() == 0 {
        seq![]
    } else {
        utf16_of(s.drop_last()) + utf16_of_char(s.last())
    }
}

/// A UTF-16 code unit that opens a surrogate pair.
pub open spec fn is_high_surrogate(u: u16) -> bool {
    0xD800 <= u <= 0xDBFF
}

/// A UTF-16 code unit that closes a surrogate pair.
pub open spec fn is_low_surrogate(u: u16) -> bool {
    0xDC00 <= u <= 0xDFFF
}

/// UTF-16 decoding: a surrogate pair gives the character it encodes, any
/// other unit the character of its value.
pub open spec fn utf16_decode(u: Seq<u16>) -> Seq<char>
    decreases u.len(),
{
    if u.len() == 0 {
        seq![]
    } else if u.len() >= 2 && is_high_surrogate(u[0]) && is_low_surrogate(u[1]) {
        seq![((((u[0] - 0xD800) * 0x400 + (u[1] - 0xDC00) + 0x10000) as u32) as char)]
            + utf16_decode(u.skip(2))
    } else {
        seq![((u[0] as u32) as char)] + utf16_decode(u.skip(1))
    }
}

/// Well-formed UTF-16: every high surrogate is directly followed by a low
/// surrogate, and every low surrogate directly follows a high one.
pub open spec fn utf16_valid(u: Seq<u16>) -> bool
    decreases u.len(),
{
    if u.len() == 0 {
        true
    } else if is_high_surrogate(u[0]) {
        u.len() >= 2 && is_low_surrogate(u[1]) && utf16_valid(u.skip(2))
    } else if is_low_surrogate(u[0]) {
        false
    } else {
        utf16_valid(u.skip(1))
    }
}

/// The number of UTF-16 code units of a character sequence: one per
/// character of the basic plane, two for any other.
pub open spec fn utf16_len(s: Seq<char>) -> nat
    decreases s.len(),
{
    if s.len() == 0 {
        0
    } else {
        utf16_len(s.drop_last()) + if (s.last() as u32) < 0x10000 {
            1nat
        } else {
            2nat
        }
    }
}

/// Encoding works character by character from the front as well.
proof fn lemma_utf16_of_front(s: Seq<char>)
    requires
        s.len() > 0,
    ensures
        utf16_of(s) == utf16_of_char(s[0]) + utf16_of(s.drop_first()),
    decreases s.len(),
{
    if s.len() == 1 {
        assert(s.drop_first() =~= seq![]);
        assert(s.drop_last() =~= seq![]);
        assert(utf16_of(s.drop_last()) =~= seq![]);
    } else {
        lemma_utf16_of_front(s.drop_last());
        assert(s.drop_last().drop_first() =~= s.drop_first().drop_last());
        assert(s.drop_first().last() == s.last());
        assert(s.drop_last()[0] == s[0]);
    }
}

/// Decoding the units of one character gives the character back, whatever
/// follows.
proof fn lemma_utf16_decode_char(c: char, rest: Seq<u16>)
    ensures
        utf16_decode(utf16_of_char(c) + rest) == seq![c] + utf16_decode(rest),
{
    let v: u32 = c as u32;
    vstd::utf8::char_is_scalar(c);
    let u = utf16_of_char(c) + rest;
    if v < 0x10000 {
        let unit: u16 = v as u16;
        assert(unit as u32 == v);
        vstd::utf8::char_u32_cast(c, v);
        assert(!is_high_surrogate(u[0]));
        assert(u.skip(1) =~= rest);
    } else {
        let q: int = (v - 0x10000) / 0x400;
        let r: int = (v - 0x10000) % 0x400;
        assert(0 <= q < 0x400 && 0 <= r < 0x400);
        assert(q * 0x400 + r == v - 0x10000);
        assert(is_high_surrogate(u[0]) && is_low_surrogate(u[1]));
        assert(((u[0] - 0xD800) * 0x400 + (u[1] - 0xDC00) + 0x10000) == v);
        vstd::utf8::char_u32_cast(c, v);
        assert(u.skip(2) =~= rest);
    }
}

/// The units of one character are well formed, before any well-formed rest.
proof fn lemma_utf16_valid_char(c: char, rest: Seq<u16>)
    ensures
        utf16_valid(utf16_of_char(c) + rest) == utf16_valid(rest),
{
    let v: u32 = c as u32;
    vstd::utf8::char_is_scalar(c);
    let u = utf16_of_char(c) + rest;
    if v < 0x10000 {
        assert(!is_high_surrogate(u[0]) && !is_low_surrogate(u[0]));
        assert(u.skip(1) =~= rest);
    } else {
        assert(is_high_surrogate(u[0]) && is_low_surrogate(u[1]));
        assert(u.skip(2) =~= rest);
    }
}

/// The UTF-16 encoding of a string is well formed (it holds no lone
/// surrogate, so `String::from_utf16` accepts it), decoding it gives the
/// string back, and it has `utf16_len` units: between one and two per
/// character.
pub proof fn lemma_utf16_round_trip(s: Seq<char>)
    ensures
        utf16_valid(utf16_of(s)),
        utf16_decode(utf16_of(s)) == s,
        utf16_of(s).len() == utf16_len(s),
        s.len() <= utf16_len(s) <= 2 * s.len(),
    decreases s.len(),
{
    if s.len() == 0 {
        assert(utf16_of(s) =~= seq![]);
    } else {
        lemma_utf16_round_trip(s.drop_first());
        lemma_utf16_round_trip(s.drop_last());
        lemma_utf16_of_front(s);
        lemma_utf16_decode_char(s[0], utf16_of(s.drop_first()));
        lemma_utf16_valid_char(s[0], utf16_of(s.drop_first()));
        assert(seq![s[0]] + s.drop_first() =~= s);
    }
}

/// Encodes `s` as UTF-16 code units, as Win32 wide-string functions take them.
pub fn to_wide(s: &str) -> (res: Vec<u16>)
    ensures
        res@ == utf16_of(s@),
{
    let mut out: Vec<u16> = Vec::new();
    for c in it: s.chars()
        invariant
            it.seq() == s@,
            out@ == utf16_of(s@.take(it.index() as int)),
    {
        let ghost i: int = it.index() as int;
        let ghost done = s@.take(i);
        let v: u32 = c as u32;
        if v < 0x10000 {
            out.push(v as u16);
        } else {
            let w: u32 = v - 0x10000;
            out.push((0xD800 + w / 0x400) as u16);
            out.push((0xDC00 + w % 0x400) as u16);
        }
        assert(s@.take(i + 1).drop_last() =~= done);
    }
    assert(s@.take(s@.len() as int) =~= s@);
    out
}

} // verus!
