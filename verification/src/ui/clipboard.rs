//! Base64 encoding of clipboard payloads (RFC 4648 standard alphabet).

use vstd::prelude::*;
use crate::text::push_char;

verus! {

/// The character that stands for the 6-bit value `i` in the standard Base64 alphabet.
pub open spec fn b64_symbol(i: int) -> char {
    if i < 26 {
        ('A' as int + i) as char
    } else if i < 52 {
        ('a' as int + (i - 26)) as char
    } else if i < 62 {
        ('0' as int + (i - 52)) as char
    } else if i == 62 {
        '+'
    } else {
        '/'
    }
}

/// The four output characters of one input group of one, two or three bytes
/// (missing bytes count as zero and their positions are padded with `=`).
pub open spec fn b64_group(b0: u8, b1: u8, b2: u8, count: int) -> Seq<char> {
    let n = b0 as int * 65536 + b1 as int * 256 + b2 as int;
    seq![
        b64_symbol((n / 262144) % 64),
        b64_symbol((n / 4096) % 64),
        if count > 1 { b64_symbol((n / 64) % 64) } else { '=' },
        if count > 2 { b64_symbol(n % 64) } else { '=' },
    ]
}

/// Base64 encoding of a byte sequence, three bytes at a time.
pub open spec fn base64_spec(data: Seq<u8>) -> Seq<char>
    decreases data.len(),
{
    if data.len() == 0 {
        seq![]
    } else if data.len() == 1 {
        b64_group(data[0], 0, 0, 1)
    } else if data.len() == 2 {
        b64_group(data[0], data[1], 0, 2)
    } else {
        b64_group(data[0], data[1], data[2], 3) + base64_spec(data.subrange(3, data.len() as int))
    }
}

/// The encoding takes four characters for every started group of three bytes.
pub proof fn lemma_base64_length(data: Seq<u8>)
    ensures
        base64_spec(data).len() == 4 * ((data.len() + 2) / 3),
    decreases data.len(),
{
    if data.len() >= 3 {
        lemma_base64_length(data.subrange(3, data.len() as int));
        assert((data.len() + 2) / 3 == (data.len() - 3 + 2) / 3 + 1);
    }
}

proof fn lemma_base64_step(d: Seq<u8>)
    requires
        d.len() > 0,
    ensures
        ({
            let cnt: int = if d.len() > 3 { 3 } else { d.len() as int };
            let b1: u8 = if d.len() > 1 { d[1] } else { 0 };
            let b2: u8 = if d.len() > 2 { d[2] } else { 0 };
            base64_spec(d) == b64_group(d[0], b1, b2, cnt) + base64_spec(d.subrange(cnt, d.len() as int))
        }),
{
    if d.len() <= 3 {
        assert(d.subrange(d.len() as int, d.len() as int) =~= Seq::<u8>::empty());
        assert(b64_group(d[0], if d.len() > 1 { d[1] } else { 0 }, if d.len() > 2 { d[2] } else { 0 }, d.len() as int) + Seq::<char>::empty() =~= b64_group(d[0], if d.len() > 1 { d[1] } else { 0 }, if d.len() > 2 { d[2] } else { 0 }, d.len() as int));
    }
}

fn b64_symbol_exec(i: u32) -> (c: char)
    requires
        i < 64,
    ensures
        c == b64_symbol(i as int),
{
    if i < 26 {
        ((65u32 + i) as u8) as char
    } else if i < 52 {
        ((97u32 + (i - 26)) as u8) as char
    } else if i < 62 {
        ((48u32 + (i - 52)) as u8) as char
    } else if i == 62 {
        '+'
    } else {
        '/'
    }
}

/// Pure-Rust Base64 encoder (RFC 4648 standard).
pub fn base64_encode(data: &[u8]) -> (out: String)
    ensures
        out@ == base64_spec(data@),
{
    let mut out = String::new();
    let len = data.len();
    let mut i: usize = 0;
    assert(data@.subrange(0, len as int) =~= data@);
    assert(out@ =~= Seq::<char>::empty());
    assert(out@ + base64_spec(data@) =~= base64_spec(data@));
    while i < len
        invariant
            len == data@.len(),
            i <= len,
            out@ + base64_spec(data@.subrange(i as int, len as int)) == base64_spec(data@),
        decreases len - i,
    {
        let rest = len - i;
        let b0 = data[i];
        let b1 = if rest > 1 { data[i + 1] } else { 0 };
        let b2 = if rest > 2 { data[i + 2] } else { 0 };
        let n: u32 = b0 as u32 * 65536 + b1 as u32 * 256 + b2 as u32;
        let ghost before = out@;
        push_char(&mut out, b64_symbol_exec((n / 262144) % 64));
        push_char(&mut out, b64_symbol_exec((n / 4096) % 64));
        if rest > 1 {
            push_char(&mut out, b64_symbol_exec((n / 64) % 64));
        } else {
            push_char(&mut out, '=');
        }
        if rest > 2 {
            push_char(&mut out, b64_symbol_exec(n % 64));
        } else {
            push_char(&mut out, '=');
        }
        let ghost tail = data@.subrange(i as int, len as int);
        let step: usize = if rest > 3 { 3 } else { rest };
        proof {
            let cnt: int = step as int;
            assert(out@ =~= before + b64_group(b0, b1, b2, cnt));
            lemma_base64_step(tail);
            assert(tail.subrange(cnt, tail.len() as int) =~= data@.subrange(i + step, len as int));
            assert(out@ + base64_spec(data@.subrange(i + step, len as int)) =~= before + base64_spec(tail));
        }
        i = i + step;
    }
    assert(data@.subrange(len as int, len as int) =~= Seq::<u8>::empty());
    out
}

/// The 6-bit value a character stands for in the standard Base64 alphabet (RFC 4648,
/// table 1): `A`-`Z` are 0-25, `a`-`z` 26-51, `0`-`9` 52-61, `+` 62 and `/` 63; any other
/// character is not a symbol.
pub open spec fn b64_value(c: char) -> Option<int> {
    let x = c as int;
    if 65 <= x <= 90 {
        Some(x - 65)
    } else if 97 <= x <= 122 {
        Some(x - 71)
    } else if 48 <= x <= 57 {
        Some(x + 4)
    } else if c == '+' {
        Some(62)
    } else if c == '/' {
        Some(63)
    } else {
        None
    }
}

/// The value of a symbol, zero for padding or a non-symbol.
pub open spec fn b64_digit(c: char) -> int {
    match b64_value(c) {
        Some(v) => v,
        None => 0,
    }
}

/// The bytes of one group of four characters: the 24 bits the symbols carry, of which the
/// first byte, the first two when the last character is `=`, or one when the last two are.
pub open spec fn b64_group_bytes(g: Seq<char>) -> Seq<u8> {
    let v = b64_digit(g[0]) * 262144 + b64_digit(g[1]) * 4096 + b64_digit(g[2]) * 64 + b64_digit(g[3]);
    if g[2] == '=' {
        seq![(v / 65536) as u8]
    } else if g[3] == '=' {
        seq![(v / 65536) as u8, ((v / 256) % 256) as u8]
    } else {
        seq![(v / 65536) as u8, ((v / 256) % 256) as u8, (v % 256) as u8]
    }
}

/// Standard Base64 decoding, four characters at a time.
pub open spec fn base64_decode(s: Seq<char>) -> Seq<u8>
    decreases s.len(),
{
    if s.len() < 4 {
        seq![]
    } else {
        b64_group_bytes(s.take(4)) + base64_decode(s.skip(4))
    }
}

/// Every 6-bit value is written with the symbol that the standard alphabet gives it, which
/// is never the padding character.
pub proof fn lemma_b64_symbol_value(i: int)
    requires
        0 <= i < 64,
    ensures
        b64_value(b64_symbol(i)) == Some(i),
        b64_symbol(i) != '=',
{
}

proof fn lemma_group_round_trip(b0: u8, b1: u8, b2: u8, count: int)
    requires
        1 <= count <= 3,
        count < 2 ==> b1 == 0,
        count < 3 ==> b2 == 0,
    ensures
        b64_group_bytes(b64_group(b0, b1, b2, count)) == (if count == 1 {
            seq![b0]
        } else if count == 2 {
            seq![b0, b1]
        } else {
            seq![b0, b1, b2]
        }),
{
    let n: int = b0 as int * 65536 + b1 as int * 256 + b2 as int;
    let g = b64_group(b0, b1, b2, count);
    let (x0, x1, x2, x3) = (b0 as u32, b1 as u32, b2 as u32, 0u32);
    assert(0 <= n < 16777216);
    lemma_b64_symbol_value((n / 262144) % 64);
    lemma_b64_symbol_value((n / 4096) % 64);
    lemma_b64_symbol_value((n / 64) % 64);
    lemma_b64_symbol_value(n % 64);
    let m: u32 = n as u32;
    assert(m == x0 * 65536 + x1 * 256 + x2);
    assert(((m / 262144) % 64) * 262144 + ((m / 4096) % 64) * 4096 + ((m / 64) % 64) * 64 + m % 64 == m
        && m / 65536 == x0 && (m / 256) % 256 == x1 && m % 256 == x2) by (bit_vector)
        requires
            m == x0 * 65536 + x1 * 256 + x2,
            x0 < 256,
            x1 < 256,
            x2 < 256,
    ;
    assert(((m / 262144) % 64) * 262144 + ((m / 4096) % 64) * 4096 == m - m % 4096
        && ((m / 262144) % 64) * 262144 + ((m / 4096) % 64) * 4096 + ((m / 64) % 64) * 64 == m - m % 64)
        by (bit_vector)
        requires
            m < 16777216,
    ;
    if count == 1 {
        assert((m - m % 4096) / 65536 == x0) by (bit_vector)
            requires
                m == x0 * 65536,
                x0 < 256,
        ;
    } else if count == 2 {
        assert((m - m % 64) / 65536 == x0 && ((m - m % 64) / 256) % 256 == x1) by (bit_vector)
            requires
                m == x0 * 65536 + x1 * 256,
                x0 < 256,
                x1 < 256,
        ;
    }
    assert(b64_group_bytes(g) =~= (if count == 1 {
        seq![b0]
    } else if count == 2 {
        seq![b0, b1]
    } else {
        seq![b0, b1, b2]
    }));
}

/// Decoding the encoding with the standard Base64 decoder gives back the bytes: the
/// encoder writes each 6-bit value with the RFC 4648 symbol for it and pads a last group
/// of one or two bytes with `=`.
pub proof fn law_base64_round_trip(data: Seq<u8>)
    ensures
        base64_decode(base64_spec(data)) == data,
    decreases data.len(),
{
    if data.len() == 0 {
    } else {
        lemma_base64_step(data);
        let cnt: int = if data.len() > 3 { 3 } else { data.len() as int };
        let b1: u8 = if data.len() > 1 { data[1] } else { 0 };
        let b2: u8 = if data.len() > 2 { data[2] } else { 0 };
        let g = b64_group(data[0], b1, b2, cnt);
        let rest = data.subrange(cnt, data.len() as int);
        law_base64_round_trip(rest);
        lemma_group_round_trip(data[0], b1, b2, cnt);
        let enc = g + base64_spec(rest);
        assert(enc.take(4) =~= g);
        assert(enc.skip(4) =~= base64_spec(rest));
        assert(data =~= data.take(cnt) + rest);
        assert(data.take(cnt) =~= (if cnt == 1 {
            seq![data[0]]
        } else if cnt == 2 {
            seq![data[0], b1]
        } else {
            seq![data[0], b1, b2]
        }));
    }
}

} // verus!
