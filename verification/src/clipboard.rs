//! Copy-to-clipboard via the OSC 52 terminal escape sequence: payload
//! capping on a UTF-8 character boundary, standard padded base64, the
//! escape envelope, and the toast text reported back to the operator.
use vstd::prelude::*;
use vstd::string::*;
use vstd::utf8::*;
use crate::text::{decimal, push_char, push_decimal, push_str};

verus! {

/// Payload size cap, in bytes of the original text (before base64).
pub const CLIPBOARD_MAX_BYTES: usize = 100_000;

/// Largest character boundary of `bytes` at or below `e`.
pub open spec fn boundary_at_or_below(bytes: Seq<u8>, e: int) -> int
    decreases e,
{
    if e <= 0 {
        0
    } else if is_char_boundary(bytes, e) {
        e
    } else {
        boundary_at_or_below(bytes, e - 1)
    }
}

/// The byte length `cap_payload` keeps of a text with UTF-8 bytes `bytes`.
pub open spec fn capped_len(bytes: Seq<u8>) -> int {
    if bytes.len() <= CLIPBOARD_MAX_BYTES {
        bytes.len() as int
    } else {
        boundary_at_or_below(bytes, CLIPBOARD_MAX_BYTES as int)
    }
}

proof fn lemma_boundary_at_or_below(bytes: Seq<u8>, e: int)
    ensures
        0 <= boundary_at_or_below(bytes, e) <= (if e > 0 { e } else { 0 }),
        e > 0 ==> forall|k: int| boundary_at_or_below(bytes, e) < k <= e ==> !is_char_boundary(bytes, k),
    decreases e,
{
    if e > 0 && !is_char_boundary(bytes, e) {
        lemma_boundary_at_or_below(bytes, e - 1);
    }
}

/// Truncates `text` to at most [`CLIPBOARD_MAX_BYTES`] bytes, backing off to
/// the nearest character boundary so no multi-byte character is split;
/// returns the kept text and whether anything was cut.
pub fn cap_payload(text: &str) -> (r: (&str, bool))
    ensures
        r.1 == (text.spec_bytes().len() > CLIPBOARD_MAX_BYTES),
        r.0.spec_bytes() == text.spec_bytes().subrange(0, capped_len(text.spec_bytes())),
        r.0.spec_bytes().len() <= CLIPBOARD_MAX_BYTES,
        !r.1 ==> r.0@ == text@,
{
    proof {
        broadcast use vstd::utf8::group_utf8_lib;
    }
    if text.as_bytes().len() <= CLIPBOARD_MAX_BYTES {
        assert(text.spec_bytes().subrange(0, text.spec_bytes().len() as int) =~= text.spec_bytes());
        return (text, false);
    }
    let ghost bytes = text.spec_bytes();
    let mut end: usize = CLIPBOARD_MAX_BYTES;
    while end > 0 && !text.is_char_boundary(end)
        invariant
            bytes == text.spec_bytes(),
            bytes.len() > CLIPBOARD_MAX_BYTES,
            0 <= end <= CLIPBOARD_MAX_BYTES,
            boundary_at_or_below(bytes, end as int) == boundary_at_or_below(
                bytes,
                CLIPBOARD_MAX_BYTES as int,
            ),
        decreases end,
    {
        end = end - 1;
    }
    proof {
        if end > 0 {
            assert(is_char_boundary(bytes, end as int));
        } else {
            is_char_boundary_start_end_of_seq(bytes);
        }
    }
    let (head, _tail) = text.split_at(end);
    (head, true)
}

/// Character of the standard base64 alphabet at position `i < 64`.
pub open spec fn base64_symbol(i: nat) -> char {
    if i < 26 {
        (65 + i) as char
    } else if i < 52 {
        (97 + (i - 26)) as char
    } else if i < 62 {
        (48 + (i - 52)) as char
    } else if i == 62 {
        '+'
    } else {
        '/'
    }
}

/// Byte `i` of `data`, or 0 past its end (the zero padding of the last
/// group).
pub open spec fn byte_or_zero(data: Seq<u8>, i: int) -> nat {
    if 0 <= i < data.len() {
        data[i] as nat
    } else {
        0
    }
}

/// The `j`-th 6-bit value of the `g`-th 3-byte group.
pub open spec fn sextet(data: Seq<u8>, g: int, j: int) -> nat {
    let b0 = byte_or_zero(data, 3 * g);
    let b1 = byte_or_zero(data, 3 * g + 1);
    let b2 = byte_or_zero(data, 3 * g + 2);
    if j == 0 {
        b0 / 4
    } else if j == 1 {
        (b0 % 4) * 16 + b1 / 16
    } else if j == 2 {
        (b1 % 16) * 4 + b2 / 64
    } else {
        b2 % 64
    }
}

/// Character `k` of the padded base64 encoding of `data`.
pub open spec fn base64_char(data: Seq<u8>, k: int) -> char {
    let g = k / 4;
    let j = k % 4;
    if j == 2 && 3 * g + 1 >= data.len() {
        '='
    } else if j == 3 && 3 * g + 2 >= data.len() {
        '='
    } else {
        base64_symbol(sextet(data, g, j))
    }
}

/// Standard-alphabet, padded base64 (RFC 4648): four characters per
/// started group of three bytes.
pub open spec fn base64(data: Seq<u8>) -> Seq<char> {
    Seq::new((4 * ((data.len() + 2) / 3)) as nat, |k: int| base64_char(data, k))
}

/// The 6-bit value a character of the standard base64 alphabet stands
/// for (0 for a character outside it).
pub open spec fn symbol_value(c: char) -> nat {
    let v = c as u32;
    if 65 <= v <= 90 {
        (v - 65) as nat
    } else if 97 <= v <= 122 {
        (v - 97 + 26) as nat
    } else if 48 <= v <= 57 {
        (v - 48 + 52) as nat
    } else if c == '+' {
        62
    } else if c == '/' {
        63
    } else {
        0
    }
}

/// How many `=` end a padded base64 text (at most two).
pub open spec fn pad_count(text: Seq<char>) -> int {
    if text.len() >= 1 && text[text.len() - 1] == '=' {
        if text.len() >= 2 && text[text.len() - 2] == '=' {
            2
        } else {
            1
        }
    } else {
        0
    }
}

/// Byte `i` of the decoding of a padded base64 text: byte `j` of group
/// `i / 3` rebuilt from that group's four 6-bit values.
pub open spec fn decoded_byte(text: Seq<char>, i: int) -> u8 {
    let g = i / 3;
    let v0 = symbol_value(text[4 * g]);
    let v1 = symbol_value(text[4 * g + 1]);
    let v2 = symbol_value(text[4 * g + 2]);
    let v3 = symbol_value(text[4 * g + 3]);
    (if i % 3 == 0 {
        v0 * 4 + v1 / 16
    } else if i % 3 == 1 {
        (v1 % 16) * 16 + v2 / 4
    } else {
        (v2 % 4) * 64 + v3
    }) as u8
}

/// Standard padded base64 decoding (RFC 4648) of a well-formed text:
/// three bytes per group of four characters, less one per `=`.
pub open spec fn base64_decoded(text: Seq<char>) -> Seq<u8> {
    Seq::new((3 * (text.len() / 4) - pad_count(text)) as nat, |i: int| decoded_byte(text, i))
}

proof fn lemma_symbol_value(v: nat)
    requires
        v < 64,
    ensures
        symbol_value(base64_symbol(v)) == v,
        base64_symbol(v) != '=',
{
    let c = base64_symbol(v);
    if v < 26 {
        assert((c as u32) == 65 + v);
    } else if v < 52 {
        assert((c as u32) == 97 + (v - 26));
    } else if v < 62 {
        assert((c as u32) == 48 + (v - 52));
    }
}

proof fn lemma_group_bytes(b0: nat, b1: nat, b2: nat)
    requires
        b0 < 256,
        b1 < 256,
        b2 < 256,
    ensures
        (b0 / 4) * 4 + ((b0 % 4) * 16 + b1 / 16) / 16 == b0,
        (((b0 % 4) * 16 + b1 / 16) % 16) * 16 + ((b1 % 16) * 4 + b2 / 64) / 4 == b1,
        (((b1 % 16) * 4 + b2 / 64) % 4) * 64 + b2 % 64 == b2,
        b0 / 4 < 64,
        (b0 % 4) * 16 + b1 / 16 < 64,
        (b1 % 16) * 4 + b2 / 64 < 64,
{
    assert((b0 / 4) * 4 + ((b0 % 4) * 16 + b1 / 16) / 16 == b0) by (nonlinear_arith)
        requires b0 < 256, b1 < 256;
    assert((((b0 % 4) * 16 + b1 / 16) % 16) * 16 + ((b1 % 16) * 4 + b2 / 64) / 4 == b1) by (nonlinear_arith)
        requires b0 < 256, b1 < 256, b2 < 256;
    assert((((b1 % 16) * 4 + b2 / 64) % 4) * 64 + b2 % 64 == b2) by (nonlinear_arith)
        requires b1 < 256, b2 < 256;
    assert(b0 / 4 < 64 && (b0 % 4) * 16 + b1 / 16 < 64 && (b1 % 16) * 4 + b2 / 64 < 64) by (nonlinear_arith)
        requires b0 < 256, b1 < 256, b2 < 256;
}

/// Decoding the padded base64 text `base64_encode` writes gives back the
/// bytes it was given, whatever they are.
#[verifier::rlimit(40)]
pub proof fn lemma_base64_round_trip(data: Seq<u8>)
    ensures
        base64_decoded(base64(data)) == data,
{
    let t = base64(data);
    let n = data.len() as int;
    let groups = (n + 2) / 3;
    assert(t.len() == 4 * groups);
    assert(t.len() / 4 == groups) by (nonlinear_arith)
        requires t.len() == 4 * groups, groups >= 0;
    // The padding at the end.
    if n > 0 {
        let last = groups - 1;
        assert(4 * last + 3 == t.len() - 1);
        assert(t[t.len() - 1] == base64_char(data, 4 * last + 3));
        assert(t[t.len() - 2] == base64_char(data, 4 * last + 2));
        assert((4 * last + 3) / 4 == last && (4 * last + 3) % 4 == 3) by (nonlinear_arith)
            requires last >= 0;
        assert((4 * last + 2) / 4 == last && (4 * last + 2) % 4 == 2) by (nonlinear_arith)
            requires last >= 0;
        if 3 * last + 2 < n {
            lemma_group_bytes(byte_or_zero(data, 3 * last), byte_or_zero(data, 3 * last + 1), byte_or_zero(data, 3 * last + 2));
            lemma_symbol_value(sextet(data, last, 3));
            assert(pad_count(t) == 0);
            assert(3 * groups == n);
        } else if 3 * last + 1 < n {
            lemma_group_bytes(byte_or_zero(data, 3 * last), byte_or_zero(data, 3 * last + 1), byte_or_zero(data, 3 * last + 2));
            lemma_symbol_value(sextet(data, last, 2));
            assert(pad_count(t) == 1);
            assert(3 * groups - 1 == n);
        } else {
            assert(pad_count(t) == 2);
            assert(3 * groups - 2 == n);
        }
    } else {
        assert(pad_count(t) == 0);
    }
    assert(base64_decoded(t).len() == n);
    assert forall|i: int| 0 <= i < n implies #[trigger] base64_decoded(t)[i] == data[i] by {
        let g = i / 3;
        let j = i % 3;
        assert(0 <= g < groups);
        assert(i == 3 * g + j);
        let b0 = byte_or_zero(data, 3 * g);
        let b1 = byte_or_zero(data, 3 * g + 1);
        let b2 = byte_or_zero(data, 3 * g + 2);
        lemma_group_bytes(b0, b1, b2);
        assert((4 * g) / 4 == g && (4 * g) % 4 == 0) by (nonlinear_arith)
            requires g >= 0;
        assert((4 * g + 1) / 4 == g && (4 * g + 1) % 4 == 1) by (nonlinear_arith)
            requires g >= 0;
        assert((4 * g + 2) / 4 == g && (4 * g + 2) % 4 == 2) by (nonlinear_arith)
            requires g >= 0;
        assert((4 * g + 3) / 4 == g && (4 * g + 3) % 4 == 3) by (nonlinear_arith)
            requires g >= 0;
        assert(4 * g + 3 < t.len());
        lemma_symbol_value(sextet(data, g, 0));
        lemma_symbol_value(sextet(data, g, 1));
        assert(t[4 * g] == base64_symbol(sextet(data, g, 0)));
        assert(t[4 * g + 1] == base64_symbol(sextet(data, g, 1)));
        if j == 0 {
            assert(b0 == data[i] as nat);
        } else if j == 1 {
            lemma_symbol_value(sextet(data, g, 2));
            assert(t[4 * g + 2] == base64_symbol(sextet(data, g, 2)));
            assert(b1 == data[i] as nat);
        } else {
            lemma_symbol_value(sextet(data, g, 2));
            lemma_symbol_value(sextet(data, g, 3));
            assert(t[4 * g + 2] == base64_symbol(sextet(data, g, 2)));
            assert(t[4 * g + 3] == base64_symbol(sextet(data, g, 3)));
            assert(b2 == data[i] as nat);
        }
    }
    assert(base64_decoded(t) =~= data);
}

fn symbol(i: u8) -> (c: char)
    requires
        i < 64,
    ensures
        c == base64_symbol(i as nat),
{
    if i < 26 {
        (65 + i) as char
    } else if i < 52 {
        (97 + (i - 26)) as char
    } else if i < 62 {
        (48 + (i - 52)) as char
    } else if i == 62 {
        '+'
    } else {
        '/'
    }
}

/// Padded standard-alphabet base64 encoding of `data`.
pub fn base64_encode(data: &[u8]) -> (r: String)
    ensures
        r@ == base64(data@),
{
    let n = data.len();
    let mut out = String::new();
    let mut i: usize = 0;
    while i < n
        invariant
            n == data@.len(),
            i % 3 == 0,
            i <= n + 2,
            i < n ==> i + 3 <= n + 2,
            out@.len() == 4 * (i / 3),
            forall|k: int| 0 <= k < out@.len() ==> #[trigger] out@[k] == base64_char(data@, k),
        decreases n + 3 - i,
    {
        let g: Ghost<int> = Ghost((i / 3) as int);
        let b0 = data[i];
        let b1: u8 = if i + 1 < n { data[i + 1] } else { 0 };
        let b2: u8 = if i + 2 < n { data[i + 2] } else { 0 };
        assert(b0 as nat == byte_or_zero(data@, 3 * g@));
        assert(b1 as nat == byte_or_zero(data@, 3 * g@ + 1));
        assert(b2 as nat == byte_or_zero(data@, 3 * g@ + 2));
        let ghost before = out@;
        push_char(&mut out, symbol(b0 / 4));
        push_char(&mut out, symbol((b0 % 4) * 16 + b1 / 16));
        if i + 1 < n {
            push_char(&mut out, symbol((b1 % 16) * 4 + b2 / 64));
        } else {
            push_char(&mut out, '=');
        }
        if i + 2 < n {
            push_char(&mut out, symbol(b2 % 64));
        } else {
            push_char(&mut out, '=');
        }
        proof {
            let base = 4 * g@;
            assert(before.len() == base);
            assert forall|k: int| 0 <= k < out@.len() implies #[trigger] out@[k] == base64_char(data@, k) by {
                if k >= base {
                    assert(k / 4 == g@);
                    assert(k % 4 == k - base);
                } else {
                    assert(out@[k] == before[k]);
                }
            }
        }
        i = i + 3;
    }
    proof {
        assert(i / 3 == (n + 2) / 3);
        assert(out@ =~= base64(data@));
    }
    out
}

/// The full `ESC ]52;c;<base64>BEL` sequence for a payload of `bytes`.
pub open spec fn osc52_chars(bytes: Seq<u8>) -> Seq<char> {
    "\u{1b}]52;c;"@ + base64(bytes) + seq!['\u{7}']
}

/// Builds the OSC 52 "set clipboard" sequence for `text`, capping the
/// payload first; also says whether it was capped.
pub fn osc52_sequence(text: &str) -> (r: (String, bool))
    ensures
        r.0@ == osc52_chars(text.spec_bytes().subrange(0, capped_len(text.spec_bytes()))),
        r.1 == (text.spec_bytes().len() > CLIPBOARD_MAX_BYTES),
{
    let (capped_text, was_capped) = cap_payload(text);
    let b64 = base64_encode(capped_text.as_bytes());
    let mut out = String::new();
    push_str(&mut out, "\u{1b}]52;c;");
    push_str(&mut out, b64.as_str());
    push_char(&mut out, '\u{7}');
    assert(out@ =~= osc52_chars(text.spec_bytes().subrange(0, capped_len(text.spec_bytes()))));
    (out, was_capped)
}

/// `std::io::Error`, carried through opaquely.
#[verifier::external_type_specification]
#[verifier::external_body]
pub struct ExIoError(std::io::Error);

/// The toast shown after a copy: honest about the cap and about this being
/// a sent (not a confirmed) copy; `chars` is the original character count.
pub open spec fn copy_toast(chars: nat, capped: bool) -> Seq<char> {
    if capped {
        "sent to clipboard (OSC 52) \u{2014} capped at "@ + decimal(CLIPBOARD_MAX_BYTES as nat)
            + " bytes ("@ + decimal(chars) + " chars total)"@
    } else {
        "sent to clipboard (OSC 52) \u{2014} copied "@ + decimal(chars) + " chars"@
    }
}

/// Appends the OSC 52 sequence for `text` (as UTF-8 bytes) to `out` and
/// returns the toast message; appending to memory cannot fail, so the
/// result is always `Ok`.
pub fn copy_to_clipboard(out: &mut Vec<u8>, text: &str) -> (r: std::io::Result<String>)
    ensures
        final(out)@ == old(out)@ + encode_utf8(
            osc52_chars(text.spec_bytes().subrange(0, capped_len(text.spec_bytes()))),
        ),
        r matches Ok(toast) && toast@ == copy_toast(
            text@.len(),
            text.spec_bytes().len() > CLIPBOARD_MAX_BYTES,
        ),
{
    let (sequence, was_capped) = osc52_sequence(text);
    let bytes = sequence.as_str().as_bytes();
    let blen = bytes.len();
    let ghost start = out@;
    let mut i: usize = 0;
    while i < blen
        invariant
            blen == bytes@.len(),
            0 <= i <= blen,
            out@ =~= start + bytes@.subrange(0, i as int),
        decreases blen - i,
    {
        out.push(bytes[i]);
        i = i + 1;
    }
    assert(bytes@.subrange(0, blen as int) =~= bytes@);
    let chars = text.unicode_len();
    let mut toast = String::new();
    if was_capped {
        push_str(&mut toast, "sent to clipboard (OSC 52) \u{2014} capped at ");
        push_decimal(&mut toast, CLIPBOARD_MAX_BYTES as u128);
        push_str(&mut toast, " bytes (");
        push_decimal(&mut toast, chars as u128);
        push_str(&mut toast, " chars total)");
    } else {
        push_str(&mut toast, "sent to clipboard (OSC 52) \u{2014} copied ");
        push_decimal(&mut toast, chars as u128);
        push_str(&mut toast, " chars");
    }
    assert(toast@ =~= copy_toast(text@.len(), was_capped));
    Ok(toast)
}

} // verus!
