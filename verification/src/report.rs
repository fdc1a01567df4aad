//! Formatting of the diagnostic lines the sniffer emits: one report per
//! captured packet, `[<counter>] l: <length>; [<hex bytes>]`, and one line
//! at startup showing the CRC polynomial bitmask in binary.
//!
//! Lines are built as ASCII bytes; the caller hands them to the logging
//! transport.

use vstd::prelude::*;

verus! {

/// The ASCII digit of a decimal value below ten.
pub open spec fn digit_ascii(d: nat) -> u8 {
    (0x30 + d) as u8
}

/// The decimal digits of a number, most significant first, with no leading
/// zeros (a single `0` for zero).
pub open spec fn dec_digits(n: nat) -> Seq<u8>
    decreases n,
{
    if n < 10 {
        seq![digit_ascii(n)]
    } else {
        dec_digits(n / 10).push(digit_ascii(n % 10))
    }
}

/// Writes a number as decimal ASCII digits.
pub fn dec_bytes(n: u64) -> (r: Vec<u8>)
    ensures
        r@ == dec_digits(n as nat),
    decreases n,
{
    if n < 10 {
        let mut r: Vec<u8> = Vec::new();
        r.push(0x30 + n as u8);
        proof {
            assert(r@ =~= dec_digits(n as nat));
        }
        r
    } else {
        let mut r = dec_bytes(n / 10);
        r.push(0x30 + (n % 10) as u8);
        r
    }
}

/// The lower-case hexadecimal ASCII digit of a value below sixteen.
pub open spec fn hex_digit_ascii(d: nat) -> u8 {
    if d < 10 {
        (0x30 + d) as u8
    } else {
        (0x57 + d) as u8
    }
}

/// The two hexadecimal digits of a byte, high nibble first.
pub open spec fn hex_pair(b: u8) -> Seq<u8> {
    seq![hex_digit_ascii((b / 16) as nat), hex_digit_ascii((b % 16) as nat)]
}

/// Writes one byte as two hexadecimal digits.
pub fn hex_pair_bytes(b: u8) -> (r: Vec<u8>)
    ensures
        r@ == hex_pair(b),
{
    let hi: u8 = b / 16;
    let lo: u8 = b % 16;
    let mut r: Vec<u8> = Vec::new();
    r.push(if hi < 10 { 0x30 + hi } else { 0x57 + hi });
    r.push(if lo < 10 { 0x30 + lo } else { 0x57 + lo });
    proof {
        assert(r@ =~= hex_pair(b));
    }
    r
}

/// The hexadecimal pairs of a byte sequence, separated by `, `.
pub open spec fn hex_items(bytes: Seq<u8>) -> Seq<u8>
    decreases bytes.len(),
{
    if bytes.len() == 0 {
        Seq::empty()
    } else if bytes.len() == 1 {
        hex_pair(bytes[0])
    } else {
        hex_items(bytes.drop_last()) + seq![0x2Cu8, 0x20u8] + hex_pair(bytes.last())
    }
}

/// The bracketed hexadecimal listing of a byte sequence, as the report
/// shows a payload: `[01, 02, 03]`, `[]` when it is empty.
pub open spec fn hex_listing(bytes: Seq<u8>) -> Seq<u8> {
    seq![0x5Bu8] + hex_items(bytes) + seq![0x5Du8]
}

/// Writes the first `len` bytes of a buffer as a bracketed hexadecimal
/// listing.
pub fn hex_listing_bytes(bytes: &Vec<u8>, len: usize) -> (r: Vec<u8>)
    requires
        len <= bytes.len(),
    ensures
        r@ == hex_listing(bytes@.take(len as int)),
{
    let mut r: Vec<u8> = Vec::new();
    r.push(0x5B);
    let mut i: usize = 0;
    while i < len
        invariant
            i <= len,
            len <= bytes.len(),
            r@ == seq![0x5Bu8] + hex_items(bytes@.take(i as int)),
        decreases len - i,
    {
        proof {
            assert(bytes@.take(i + 1).drop_last() =~= bytes@.take(i as int));
            assert(bytes@.take(i + 1).last() == bytes@[i as int]);
        }
        if i > 0 {
            r.push(0x2C);
            r.push(0x20);
        }
        let mut pair = hex_pair_bytes(bytes[i]);
        r.append(&mut pair);
        proof {
            assert(r@ =~= seq![0x5Bu8] + hex_items(bytes@.take(i + 1)));
        }
        i = i + 1;
    }
    r.push(0x5D);
    proof {
        assert(r@ =~= hex_listing(bytes@.take(len as int)));
    }
    r
}

/// The per-packet report line: `[<counter>] l: <length>; <hex listing>`,
/// where the listing holds exactly the reported bytes.
pub open spec fn report_line_spec(counter: nat, bytes: Seq<u8>) -> Seq<u8> {
    seq![0x5Bu8] + dec_digits(counter) + seq![0x5Du8, 0x20u8, 0x6Cu8, 0x3Au8, 0x20u8]
        + dec_digits(bytes.len()) + seq![0x3Bu8, 0x20u8] + hex_listing(bytes)
}

/// Writes the report line for one capture: the counter label, the packet's
/// length, and its first `len` bytes in hexadecimal. Bytes at and beyond
/// `len` never reach the line.
pub fn report_line(counter: u32, bytes: &Vec<u8>, len: usize) -> (r: Vec<u8>)
    requires
        len <= bytes.len(),
    ensures
        r@ == report_line_spec(counter as nat, bytes@.take(len as int)),
{
    let mut r: Vec<u8> = Vec::new();
    r.push(0x5B);
    let mut counter_digits = dec_bytes(counter as u64);
    r.append(&mut counter_digits);
    r.push(0x5D);
    r.push(0x20);
    r.push(0x6C);
    r.push(0x3A);
    r.push(0x20);
    let mut len_digits = dec_bytes(len as u64);
    r.append(&mut len_digits);
    r.push(0x3B);
    r.push(0x20);
    let mut listing = hex_listing_bytes(bytes, len);
    r.append(&mut listing);
    proof {
        assert(r@ =~= report_line_spec(counter as nat, bytes@.take(len as int)));
    }
    r
}

/// The binary digits of a number written into a fixed width, most
/// significant first, zero-padded on the left.
pub open spec fn bin_digits_fixed(n: nat, width: nat) -> Seq<u8>
    decreases width,
{
    if width == 0 {
        Seq::empty()
    } else {
        bin_digits_fixed(n / 2, (width - 1) as nat).push(digit_ascii(n % 2))
    }
}

/// Writes a number as fixed-width binary ASCII digits.
pub fn bin_bytes_fixed(n: u32, width: usize) -> (r: Vec<u8>)
    ensures
        r@ == bin_digits_fixed(n as nat, width as nat),
    decreases width,
{
    if width == 0 {
        let r: Vec<u8> = Vec::new();
        proof {
            assert(r@ =~= bin_digits_fixed(n as nat, 0));
        }
        r
    } else {
        let mut r = bin_bytes_fixed(n / 2, width - 1);
        r.push(0x30 + (n % 2) as u8);
        r
    }
}

/// The startup line naming the CRC polynomial bitmask: the mask in 32
/// zero-padded binary digits after a `0b` prefix.
pub open spec fn mask_line_spec(mask: u32) -> Seq<u8> {
    seq![
        0x43u8, 0x52u8, 0x43u8, 0x20u8, 0x70u8, 0x6Fu8, 0x6Cu8, 0x79u8, 0x6Eu8, 0x6Fu8,
        0x6Du8, 0x69u8, 0x61u8, 0x6Cu8, 0x20u8, 0x66u8, 0x61u8, 0x63u8, 0x74u8, 0x6Fu8,
        0x72u8, 0x20u8, 0x6Du8, 0x61u8, 0x73u8, 0x6Bu8, 0x3Au8, 0x20u8, 0x30u8, 0x62u8,
    ] + bin_digits_fixed(mask as nat, 32)
}

/// Writes the startup line that reports the CRC polynomial bitmask.
pub fn mask_line(mask: u32) -> (r: Vec<u8>)
    ensures
        r@ == mask_line_spec(mask),
{
    let mut r: Vec<u8> = vec![
        0x43, 0x52, 0x43, 0x20, 0x70, 0x6F, 0x6C, 0x79, 0x6E, 0x6F,
        0x6D, 0x69, 0x61, 0x6C, 0x20, 0x66, 0x61, 0x63, 0x74, 0x6F,
        0x72, 0x20, 0x6D, 0x61, 0x73, 0x6B, 0x3A, 0x20, 0x30, 0x62,
    ];
    let mut digits = bin_bytes_fixed(mask, 32);
    r.append(&mut digits);
    proof {
        assert(r@ =~= mask_line_spec(mask));
    }
    r
}

} // verus!
