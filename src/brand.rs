use vstd::prelude::*;
use vstd::utf8::{valid_utf8, decode_utf8, leading_bits_width_1};

verus! {

/// Text that `String::from_utf8_lossy` makes of a byte sequence.
pub uninterp spec fn utf8_lossy(b: Seq<u8>) -> Seq<char>;

/// Relies on `String::from_utf8_lossy`: a function of the bytes alone, and
/// for valid UTF-8 the text the bytes encode.
#[verifier::external_body]
fn lossy_utf8(b: &[u8]) -> (r: String)
    ensures
        r@ == utf8_lossy(b@),
        valid_utf8(b@) ==> r@ == decode_utf8(b@),
{
    String::from_utf8_lossy(b).into_owned()
}

/// Byte `k` (0 to 3) of register value `w`, lowest first: the order in which
/// the register is laid out in memory on the little-endian x86.
pub open spec fn word_byte(w: u32, k: u32) -> u8 {
    ((w >> ((8 * k) as u32)) & 0xFF) as u8
}

/// Registers laid out as bytes, four per register.
pub open spec fn register_bytes(words: Seq<u32>) -> Seq<u8> {
    Seq::new(4 * words.len(), |i: int| word_byte(words[i / 4], (i % 4) as u32))
}

/// Number of bytes before the first NUL byte, or all of them.
pub open spec fn text_len(b: Seq<u8>) -> nat
    decreases b.len(),
{
    if b.len() == 0 || b[0] == 0 {
        0
    } else {
        1 + text_len(b.drop_first())
    }
}

/// The bytes before the first NUL byte.
pub open spec fn nul_terminated(b: Seq<u8>) -> Seq<u8> {
    b.subrange(0, text_len(b) as int)
}

/// The text of a 12-register buffer: its bytes up to the first NUL, decoded
/// as UTF-8 with invalid sequences replaced.
pub open spec fn brand_text(words: Seq<u32>) -> Seq<char> {
    utf8_lossy(nul_terminated(register_bytes(words)))
}

/// Each byte read as the ASCII character of that code.
pub open spec fn ascii_chars(b: Seq<u8>) -> Seq<char> {
    b.map_values(|x: u8| (x as u32) as char)
}

/// True when every byte is a printable ASCII character.
pub open spec fn printable_ascii(b: Seq<u8>) -> bool {
    forall|i: int| 0 <= i < b.len() ==> 0x20 <= #[trigger] b[i] <= 0x7E
}

proof fn lemma_text_len(b: Seq<u8>, n: int)
    requires
        0 <= n <= b.len(),
        forall|i: int| 0 <= i < n ==> b[i] != 0,
        n < b.len() ==> b[n] == 0,
    ensures
        text_len(b) == n,
    decreases n,
{
    if n > 0 {
        lemma_text_len(b.drop_first(), n - 1);
    }
}

proof fn lemma_ascii_utf8(b: Seq<u8>)
    requires
        forall|i: int| 0 <= i < b.len() ==> #[trigger] b[i] <= 0x7F,
    ensures
        valid_utf8(b),
        decode_utf8(b) == ascii_chars(b),
    decreases b.len(),
{
    if b.len() > 0 {
        let x = b[0];
        assert(x <= 0x7F);
        assert(x & 0x7F == x) by (bit_vector)
            requires
                x <= 0x7F,
        ;
        assert(leading_bits_width_1(x) == x as u32);
        let rest = b.drop_first();
        assert(b.subrange(1, b.len() as int) =~= rest);
        assert(forall|i: int| 0 <= i < rest.len() ==> #[trigger] rest[i] == b[i + 1]);
        lemma_ascii_utf8(rest);
        assert(decode_utf8(b) =~= ascii_chars(b));
    }
}

/// Decodes a 12-register buffer (48 bytes, four per register, lowest byte
/// first) as text: the bytes before the first NUL byte, or all 48, decoded as
/// UTF-8 with invalid sequences replaced by U+FFFD.
pub fn brand_string(words: &[u32; 12]) -> (r: String)
    ensures
        r@ == brand_text(words@),
        valid_utf8(nul_terminated(register_bytes(words@))) ==> r@ == decode_utf8(
            nul_terminated(register_bytes(words@)),
        ),
{
    let ghost all = register_bytes(words@);
    let mut bytes: Vec<u8> = Vec::new();
    let mut i: usize = 0;
    while i < 48
        invariant
            i <= 48,
            all == register_bytes(words@),
            all.len() == 48,
            bytes@ == all.subrange(0, i as int),
            forall|j: int| 0 <= j < i ==> all[j] != 0,
        ensures
            i <= 48,
            bytes@ == all.subrange(0, i as int),
            forall|j: int| 0 <= j < i ==> all[j] != 0,
            i < 48 ==> all[i as int] == 0,
        decreases 48 - i,
    {
        let w = words[i / 4];
        let k: u32 = (i % 4) as u32;
        let byte: u8 = ((w >> (8 * k)) & 0xFF) as u8;
        assert(all[i as int] == word_byte(words@[i as int / 4], k));
        if byte == 0 {
            break;
        }
        bytes.push(byte);
        assert(bytes@ =~= all.subrange(0, i as int + 1));
        i = i + 1;
    }
    proof {
        lemma_text_len(all, i as int);
    }
    lossy_utf8(bytes.as_slice())
}

/// A buffer whose text is printable ASCII decodes to exactly the characters
/// before its first NUL byte: at most 48 of them, none of them NUL, and the
/// same text on a second decode.
pub proof fn lemma_brand_ascii(words: [u32; 12], r1: String, r2: String)
    requires
        printable_ascii(nul_terminated(register_bytes(words@))),
        call_ensures(brand_string, (&words,), r1),
        call_ensures(brand_string, (&words,), r2),
    ensures
        r1@ == ascii_chars(nul_terminated(register_bytes(words@))),
        r1@.len() <= 48,
        forall|i: int| 0 <= i < r1@.len() ==> r1@[i] != '\0',
        r1@ == r2@,
{
    lemma_ascii_text(words@);
}

/// Re-assembling a printable ASCII brand: a buffer whose bytes are the
/// decoded text's own character codes, padded with zeros to 48 bytes,
/// decodes to that same text again.
pub proof fn lemma_brand_reassembly(words: [u32; 12], r1: String, again: [u32; 12], r2: String)
    requires
        printable_ascii(nul_terminated(register_bytes(words@))),
        call_ensures(brand_string, (&words,), r1),
        register_bytes(again@) == char_codes(r1@) + Seq::new(
            (48 - r1@.len()) as nat,
            |i: int| 0u8,
        ),
        call_ensures(brand_string, (&again,), r2),
    ensures
        r2@ == r1@,
{
    let t = nul_terminated(register_bytes(words@));
    lemma_ascii_text(words@);
    assert(char_codes(ascii_chars(t)) =~= t);
    let b2 = register_bytes(again@);
    assert(b2.len() == 48);
    assert forall|i: int| 0 <= i < t.len() implies b2[i] != 0 by {
        assert(b2[i] == t[i]);
    }
    if t.len() < 48 {
        assert(b2[t.len() as int] == 0);
    }
    lemma_text_len(b2, t.len() as int);
    assert(nul_terminated(b2) =~= t);
    lemma_ascii_utf8(t);
}

/// Each character's code as a byte.
pub open spec fn char_codes(c: Seq<char>) -> Seq<u8> {
    c.map_values(|ch: char| ch as u8)
}

pub(crate) proof fn lemma_ascii_text(words: Seq<u32>)
    requires
        words.len() == 12,
        printable_ascii(nul_terminated(register_bytes(words))),
    ensures
        valid_utf8(nul_terminated(register_bytes(words))),
        decode_utf8(nul_terminated(register_bytes(words))) == ascii_chars(
            nul_terminated(register_bytes(words)),
        ),
        nul_terminated(register_bytes(words)).len() <= 48,
        forall|i: int|
            0 <= i < nul_terminated(register_bytes(words)).len() ==> ascii_chars(
                nul_terminated(register_bytes(words)),
            )[i] != '\0',
{
    let b = register_bytes(words);
    lemma_text_len_bound(b);
    let t = nul_terminated(b);
    assert(forall|i: int| 0 <= i < t.len() ==> #[trigger] t[i] <= 0x7F);
    lemma_ascii_utf8(t);
}

proof fn lemma_text_len_bound(b: Seq<u8>)
    ensures
        text_len(b) <= b.len(),
    decreases b.len(),
{
    if b.len() > 0 {
        lemma_text_len_bound(b.drop_first());
    }
}

} // verus!
