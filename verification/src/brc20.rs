//! The inscription that announces a token transfer: a text record inside a
//! tapscript leaf that never runs.

use vstd::prelude::*;
use crate::encode::Stream;
use crate::script::{append_push_bytes, push_bytes, OP_0, OP_CHECKSIG, OP_ENDIF, OP_IF};
use crate::transaction_hashing::lemma_flatten_step;

verus! {

/// The length of a ticker in bytes.
pub const TICKER_LEN: usize = 4;

/// The ASCII digit of a number below ten.
pub open spec fn digit(d: nat) -> u8
    recommends
        d < 10,
{
    (48 + d) as u8
}

/// The decimal digits of a number, most significant first.
pub open spec fn decimal(n: nat) -> Seq<u8>
    decreases n,
{
    if n < 10 {
        seq![digit(n)]
    } else {
        decimal(n / 10).push(digit(n % 10))
    }
}

/// The lower-case hexadecimal digit of a number below sixteen.
pub open spec fn hex_digit(d: nat) -> u8
    recommends
        d < 16,
{
    if d < 10 {
        (48 + d) as u8
    } else {
        (87 + d) as u8
    }
}

/// How one byte of a text stands inside a quoted string of the record: the
/// quote and the backslash behind a backslash, a control character as its
/// short escape or as `\u00` and two hexadecimal digits, every other byte as
/// it is.
pub open spec fn escaped_byte(b: u8) -> Seq<u8> {
    if b == 0x22 {
        seq![0x5cu8, 0x22u8]
    } else if b == 0x5c {
        seq![0x5cu8, 0x5cu8]
    } else if b == 0x08 {
        seq![0x5cu8, 0x62u8]
    } else if b == 0x09 {
        seq![0x5cu8, 0x74u8]
    } else if b == 0x0a {
        seq![0x5cu8, 0x6eu8]
    } else if b == 0x0c {
        seq![0x5cu8, 0x66u8]
    } else if b == 0x0d {
        seq![0x5cu8, 0x72u8]
    } else if b < 0x20 {
        seq![0x5cu8, 0x75u8, 0x30u8, 0x30u8, hex_digit((b / 16) as nat), hex_digit((b % 16) as nat)]
    } else {
        seq![b]
    }
}

/// A text as it stands inside a quoted string of the record.
pub open spec fn escaped(text: Seq<u8>) -> Seq<u8> {
    text.map_values(|b: u8| escaped_byte(b)).flatten()
}

/// The bytes of `{"p":"brc-20","op":"transfer","tick":"`.
pub open spec fn payload_opening() -> Seq<u8> {
    seq![
        0x7bu8, 0x22u8, 0x70u8, 0x22u8, 0x3au8, 0x22u8, 0x62u8, 0x72u8, 0x63u8, 0x2du8,
        0x32u8, 0x30u8, 0x22u8, 0x2cu8, 0x22u8, 0x6fu8, 0x70u8, 0x22u8, 0x3au8, 0x22u8,
        0x74u8, 0x72u8, 0x61u8, 0x6eu8, 0x73u8, 0x66u8, 0x65u8, 0x72u8, 0x22u8, 0x2cu8,
        0x22u8, 0x74u8, 0x69u8, 0x63u8, 0x6bu8, 0x22u8, 0x3au8, 0x22u8,
    ]
}

/// The bytes of `","amt":"`.
pub open spec fn payload_middle() -> Seq<u8> {
    seq![0x22u8, 0x2cu8, 0x22u8, 0x61u8, 0x6du8, 0x74u8, 0x22u8, 0x3au8, 0x22u8]
}

/// The bytes of `"}`.
pub open spec fn payload_closing() -> Seq<u8> {
    seq![0x22u8, 0x7du8]
}

/// The transfer record: protocol, operation, ticker and amount, the amount
/// as a decimal number in quotes.
pub open spec fn transfer_payload(ticker: Seq<u8>, amount: u64) -> Seq<u8> {
    payload_opening() + escaped(ticker) + payload_middle() + decimal(amount as nat)
        + payload_closing()
}

/// The bytes of `ord`, the protocol of the envelope.
pub open spec fn envelope_protocol() -> Seq<u8> {
    seq![0x6fu8, 0x72u8, 0x64u8]
}

/// The bytes of `text/plain;charset=utf-8`, the content type of the record.
pub open spec fn content_type() -> Seq<u8> {
    seq![
        0x74u8, 0x65u8, 0x78u8, 0x74u8, 0x2fu8, 0x70u8, 0x6cu8, 0x61u8, 0x69u8, 0x6eu8,
        0x3bu8, 0x63u8, 0x68u8, 0x61u8, 0x72u8, 0x73u8, 0x65u8, 0x74u8, 0x3du8, 0x75u8,
        0x74u8, 0x66u8, 0x2du8, 0x38u8,
    ]
}

/// The leaf script of an inscription: a signature check against the x-only
/// key, then a branch that is never taken and holds the protocol, the tag of
/// the content type with the content type, an empty push and the record.
pub open spec fn envelope_script(x_only_key: Seq<u8>, payload: Seq<u8>) -> Seq<u8> {
    push_bytes(x_only_key) + seq![OP_CHECKSIG, OP_0, OP_IF] + push_bytes(envelope_protocol())
        + seq![0x01u8, 0x01u8] + push_bytes(content_type()) + seq![OP_0] + push_bytes(payload)
        + seq![OP_ENDIF]
}

/// The leaf script of a transfer inscription.
pub open spec fn transfer_script(x_only_key: Seq<u8>, ticker: Seq<u8>, amount: u64) -> Seq<u8> {
    envelope_script(x_only_key, transfer_payload(ticker, amount))
}

/// A number has between one and twenty decimal digits.
pub proof fn lemma_decimal_len(n: nat)
    requires
        n <= u64::MAX,
    ensures
        1 <= decimal(n).len() <= 20,
{
    reveal_with_fuel(decimal, 21);
}

/// Appends the decimal digits of a number to a stream.
pub fn append_decimal(stream: &mut Stream, n: u64)
    ensures
        final(stream)@ == old(stream)@ + decimal(n as nat),
        final(stream)@.len() <= old(stream)@.len() + 20,
    decreases n,
{
    let ghost before = stream@;
    proof {
        lemma_decimal_len(n as nat);
    }
    if n >= 10 {
        append_decimal(stream, n / 10);
    }
    stream.append_u8(48 + (n % 10) as u8);
    assert(stream@ =~= before + decimal(n as nat));
}

/// Appends one byte of a text as it stands inside a quoted string.
pub fn append_escaped_byte(stream: &mut Stream, b: u8)
    ensures
        final(stream)@ == old(stream)@ + escaped_byte(b),
        final(stream)@.len() <= old(stream)@.len() + 6,
{
    let ghost before = stream@;
    if b == 0x22 || b == 0x5c {
        stream.append_u8(0x5c);
        stream.append_u8(b);
    } else if b == 0x08 {
        stream.append_u8(0x5c);
        stream.append_u8(0x62);
    } else if b == 0x09 {
        stream.append_u8(0x5c);
        stream.append_u8(0x74);
    } else if b == 0x0a {
        stream.append_u8(0x5c);
        stream.append_u8(0x6e);
    } else if b == 0x0c {
        stream.append_u8(0x5c);
        stream.append_u8(0x66);
    } else if b == 0x0d {
        stream.append_u8(0x5c);
        stream.append_u8(0x72);
    } else if b < 0x20 {
        let high: u8 = b / 16;
        let low: u8 = b % 16;
        stream.append_u8(0x5c);
        stream.append_u8(0x75);
        stream.append_u8(0x30);
        stream.append_u8(0x30);
        stream.append_u8(48 + high);
        if low < 10 {
            stream.append_u8(48 + low);
        } else {
            stream.append_u8(87 + low);
        }
    } else {
        stream.append_u8(b);
    }
    assert(stream@ =~= before + escaped_byte(b));
}

/// Appends a text as it stands inside a quoted string.
pub fn append_escaped(stream: &mut Stream, text: &[u8])
    ensures
        final(stream)@ == old(stream)@ + escaped(text@),
        final(stream)@.len() <= old(stream)@.len() + 6 * text@.len(),
{
    let ghost before = stream@;
    let ghost parts = text@.map_values(|b: u8| escaped_byte(b));
    let mut i: usize = 0;
    while i < text.len()
        invariant
            i <= text.len(),
            parts == text@.map_values(|b: u8| escaped_byte(b)),
            stream@ == before + parts.take(i as int).flatten(),
            stream@.len() <= before.len() + 6 * i,
        decreases text.len() - i,
    {
        proof {
            lemma_flatten_step(parts, i as int);
        }
        append_escaped_byte(stream, text[i]);
        assert(stream@ =~= before + parts.take(i + 1).flatten());
        i += 1;
    }
    assert(parts.take(i as int) =~= parts);
}

/// Builds the transfer record.
pub fn new_transfer_payload(ticker: &[u8], amount: u64) -> (payload: Vec<u8>)
    ensures
        payload@ == transfer_payload(ticker@, amount),
        payload@.len() <= 69 + 6 * ticker@.len(),
{
    let opening: [u8; 38] = [
        0x7b, 0x22, 0x70, 0x22, 0x3a, 0x22, 0x62, 0x72, 0x63, 0x2d, 0x32, 0x30, 0x22, 0x2c, 0x22,
        0x6f, 0x70, 0x22, 0x3a, 0x22, 0x74, 0x72, 0x61, 0x6e, 0x73, 0x66, 0x65, 0x72, 0x22, 0x2c,
        0x22, 0x74, 0x69, 0x63, 0x6b, 0x22, 0x3a, 0x22,
    ];
    let middle: [u8; 9] = [0x22, 0x2c, 0x22, 0x61, 0x6d, 0x74, 0x22, 0x3a, 0x22];
    let closing: [u8; 2] = [0x22, 0x7d];
    assert(opening@ =~= payload_opening());
    assert(middle@ =~= payload_middle());
    assert(closing@ =~= payload_closing());
    let mut stream = Stream::new();
    stream.append_raw_slice(opening.as_slice());
    append_escaped(&mut stream, ticker);
    stream.append_raw_slice(middle.as_slice());
    append_decimal(&mut stream, amount);
    stream.append_raw_slice(closing.as_slice());
    assert(stream@ =~= transfer_payload(ticker@, amount));
    stream.out()
}

/// Builds the leaf script of an inscription.
pub fn new_envelope_script(x_only_key: &[u8], payload: &[u8]) -> (script: Vec<u8>)
    requires
        x_only_key@.len() <= u32::MAX,
        payload@.len() <= u32::MAX,
    ensures
        script@ == envelope_script(x_only_key@, payload@),
{
    let protocol: [u8; 3] = [0x6f, 0x72, 0x64];
    let mime: [u8; 24] = [
        0x74, 0x65, 0x78, 0x74, 0x2f, 0x70, 0x6c, 0x61, 0x69, 0x6e, 0x3b, 0x63, 0x68, 0x61, 0x72,
        0x73, 0x65, 0x74, 0x3d, 0x75, 0x74, 0x66, 0x2d, 0x38,
    ];
    assert(protocol@ =~= envelope_protocol());
    assert(mime@ =~= content_type());
    let mut stream = Stream::new();
    append_push_bytes(&mut stream, x_only_key);
    stream.append_u8(OP_CHECKSIG);
    stream.append_u8(OP_0);
    stream.append_u8(OP_IF);
    append_push_bytes(&mut stream, protocol.as_slice());
    stream.append_u8(0x01);
    stream.append_u8(0x01);
    append_push_bytes(&mut stream, mime.as_slice());
    stream.append_u8(OP_0);
    append_push_bytes(&mut stream, payload);
    stream.append_u8(OP_ENDIF);
    assert(stream@ =~= envelope_script(x_only_key@, payload@));
    stream.out()
}

} // verus!
