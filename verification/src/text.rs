use vstd::prelude::*;
use vstd::utf8::{decode_utf8, decode_utf8_encode_utf8, encode_utf8, valid_utf8};

verus! {

/// The bytes of a C string held in a fixed buffer: everything before the
/// first NUL byte, or the whole buffer where it holds none.
pub open spec fn c_str_bytes(buf: Seq<u8>) -> Seq<u8>
    decreases buf.len(),
{
    if buf.len() == 0 {
        buf
    } else if buf[0] == 0 {
        Seq::empty()
    } else {
        seq![buf[0]] + c_str_bytes(buf.drop_first())
    }
}

/// The text of a C string held in a fixed buffer, where its bytes are UTF-8.
pub open spec fn c_text(buf: Seq<u8>) -> Option<Seq<char>> {
    if valid_utf8(c_str_bytes(buf)) {
        Some(decode_utf8(c_str_bytes(buf)))
    } else {
        None
    }
}

/// Length of the C string in `buf`: the index of its first NUL byte, or the
/// buffer's length.
pub fn c_str_len(buf: &[u8]) -> (n: usize)
    ensures
        n <= buf@.len(),
        c_str_bytes(buf@) == buf@.subrange(0, n as int),
{
    let mut i: usize = 0;
    while i < buf.len() && buf[i] != 0
        invariant
            i <= buf@.len(),
            forall|j: int| 0 <= j < i ==> buf@[j] != 0,
        decreases buf@.len() - i,
    {
        i = i + 1;
    }
    proof {
        lemma_c_str_bytes_prefix(buf@, i as int);
    }
    i
}

/// Where no byte before `n` is NUL and `n` is the end or a NUL, the C string is
/// the first `n` bytes.
proof fn lemma_c_str_bytes_prefix(buf: Seq<u8>, n: int)
    requires
        0 <= n <= buf.len(),
        forall|j: int| 0 <= j < n ==> buf[j] != 0,
        n < buf.len() ==> buf[n] == 0,
    ensures
        c_str_bytes(buf) == buf.subrange(0, n),
    decreases buf.len(),
{
    if buf.len() == 0 {
    } else if n == 0 {
        assert(buf.subrange(0, 0) =~= Seq::<u8>::empty());
    } else {
        let rest = buf.drop_first();
        assert forall|j: int| 0 <= j < n - 1 implies rest[j] != 0 by {
            assert(rest[j] == buf[j + 1]);
        }
        lemma_c_str_bytes_prefix(rest, n - 1);
        assert(seq![buf[0]] + rest.subrange(0, n - 1) =~= buf.subrange(0, n));
    }
}

/// A buffer that holds the bytes `s`, none of them NUL, then a NUL and
/// anything after it, holds the C string `s`.
pub proof fn lemma_c_str_of_terminated(s: Seq<u8>, rest: Seq<u8>)
    requires
        forall|i: int| 0 <= i < s.len() ==> s[i] != 0,
    ensures
        c_str_bytes(s + seq![0u8] + rest) == s,
{
    let buf = s + seq![0u8] + rest;
    assert forall|j: int| 0 <= j < s.len() implies buf[j] != 0 by {
        assert(buf[j] == s[j]);
    }
    assert(buf[s.len() as int] == 0);
    lemma_c_str_bytes_prefix(buf, s.len() as int);
    assert(buf.subrange(0, s.len() as int) =~= s);
}

/// The text of a C string, where it is UTF-8, encodes back to exactly the
/// bytes before the buffer's NUL: nothing is cut or added.
pub proof fn lemma_c_text_encodes_c_str(buf: Seq<u8>)
    requires
        c_text(buf) is Some,
    ensures
        encode_utf8(c_text(buf).unwrap()) == c_str_bytes(buf),
{
    decode_utf8_encode_utf8(c_str_bytes(buf));
}

/// Two buffers that agree up to and including a NUL byte hold the same C
/// string: what follows a terminator does not count.
pub proof fn lemma_c_str_ignores_tail(a: Seq<u8>, b: Seq<u8>, n: int)
    requires
        0 <= n < a.len(),
        n < b.len(),
        a[n] == 0,
        forall|j: int| 0 <= j <= n ==> a[j] == b[j],
    ensures
        c_str_bytes(a) == c_str_bytes(b),
    decreases n,
{
    if a[0] == 0 {
    } else {
        lemma_c_str_ignores_tail(a.drop_first(), b.drop_first(), n - 1);
    }
}

/// Where decoding bytes as UTF-8 stopped, as std's `Utf8Error` reports it.
#[derive(Debug, Clone, Copy, PartialEq, Eq, Structural)]
pub struct Utf8Error {
    /// The length of the longest prefix that is valid UTF-8.
    pub valid_up_to: usize,
    /// The length of the invalid sequence that starts there, or `None` where
    /// the input ended in the middle of a character.
    pub error_len: Option<usize>,
}

/// `n` is the length of the longest prefix of `bytes` that is valid UTF-8.
pub open spec fn is_valid_up_to(bytes: Seq<u8>, n: int) -> bool {
    &&& 0 <= n <= bytes.len()
    &&& valid_utf8(bytes.subrange(0, n))
    &&& forall|m: int| n < m <= bytes.len() ==> !valid_utf8(#[trigger] bytes.subrange(0, m))
}

/// What `Utf8Error::error_len` reports for bytes that are not valid UTF-8.
pub uninterp spec fn utf8_error_len(bytes: Seq<u8>) -> Option<usize>;

/// `e` is the error that decoding `bytes` as UTF-8 reports.
pub open spec fn utf8_error_of(bytes: Seq<u8>, e: Utf8Error) -> bool {
    &&& is_valid_up_to(bytes, e.valid_up_to as int)
    &&& e.error_len == utf8_error_len(bytes)
}

/// Decodes UTF-8 bytes into a `String`.
///
/// Calls `std::str::from_utf8`. Its documentation says that it succeeds
/// exactly when the bytes are valid UTF-8 and then yields the text that they
/// encode (stated over vstd's `valid_utf8` and `decode_utf8`), and that on
/// failure `valid_up_to` is the largest index up to which the input
/// decodes. What `error_len` reports is named, not stated.
#[verifier::external_body]
fn utf8_to_string(bytes: &[u8]) -> (r: Result<String, Utf8Error>)
    ensures
        r is Ok <==> valid_utf8(bytes@),
        r matches Ok(s) ==> s@ == decode_utf8(bytes@),
        r matches Err(e) ==> is_valid_up_to(bytes@, e.valid_up_to as int),
        r matches Err(e) ==> e.error_len == utf8_error_len(bytes@),
{
    match std::str::from_utf8(bytes) {
        Ok(s) => Ok(s.to_string()),
        Err(e) => Err(Utf8Error { valid_up_to: e.valid_up_to(), error_len: e.error_len() }),
    }
}

/// Builds a `String` from its characters.
///
/// Calls `String::from_iter` over the characters, which std documents as the
/// string made of them in order.
#[verifier::external_body]
pub(crate) fn string_from_chars(chars: &Vec<char>) -> (r: String)
    ensures
        r@ == chars@,
{
    String::from_iter(chars.iter())
}

/// Reads the C string held in a fixed buffer as UTF-8 text: the bytes before
/// the first NUL (or all of them) must be valid UTF-8, else the error that
/// decoding them reports.
pub fn c_buffer_text(buf: &[u8]) -> (r: Result<String, Utf8Error>)
    ensures
        r is Ok <==> c_text(buf@) is Some,
        r matches Ok(s) ==> s@ == c_text(buf@).unwrap(),
        r matches Err(e) ==> utf8_error_of(c_str_bytes(buf@), e),
{
    let n = c_str_len(buf);
    let mut bytes: Vec<u8> = Vec::new();
    let mut i: usize = 0;
    while i < n
        invariant
            n <= buf@.len(),
            i <= n,
            bytes@ == buf@.subrange(0, i as int),
        decreases n - i,
    {
        bytes.push(buf[i]);
        i = i + 1;
        assert(bytes@ =~= buf@.subrange(0, i as int));
    }
    utf8_to_string(bytes.as_slice())
}

/// The UTF-16 code units that stand for `chars`, one per character, each
/// character's number truncated to 16 bits.
pub open spec fn string128_units(chars: Seq<char>) -> Seq<u16> {
    Seq::new(chars.len(), |i: int| (chars[i] as u32) as u16)
}

/// Converts `text` to the units of a VST 3 `String128`: one code unit per
/// character, truncated to 16 bits, collected and then taken as a
/// 128-unit array. The conversion fills the array only where the text has
/// exactly 128 characters; for any other length it gives `None`.
pub fn encode_string128(text: &str) -> (r: Option<Vec<u16>>)
    ensures
        r is Some <==> text@.len() == 128,
        r matches Some(units) ==> units@ == string128_units(text@),
{
    let mut units: Vec<u16> = Vec::new();
    for c in it: text.chars()
        invariant
            it.seq() == text@,
            units@.len() == it.index(),
            forall|j: int| 0 <= j < units@.len() ==> units@[j] == (text@[j] as u32) as u16,
    {
        units.push(#[verifier::truncate] ((c as u32) as u16));
    }
    assert(units@ =~= string128_units(text@));
    if units.len() == 128 {
        Some(units)
    } else {
        None
    }
}

/// The character of a decimal digit.
pub open spec fn digit_char(d: nat) -> char {
    ((48 + d) as u8) as char
}

/// The decimal digits of a natural number, most significant first, without
/// leading zeros (zero is "0").
pub open spec fn decimal_digits(n: nat) -> Seq<char>
    decreases n,
{
    if n < 10 {
        seq![digit_char(n)]
    } else {
        decimal_digits(n / 10) + seq![digit_char(n % 10)]
    }
}

/// The decimal text of an integer, with a leading '-' for a negative one.
pub open spec fn decimal_text(n: int) -> Seq<char> {
    if n < 0 {
        seq!['-'] + decimal_digits((-n) as nat)
    } else {
        decimal_digits(n as nat)
    }
}

/// Appends the decimal digits of `n` to `out`.
fn push_decimal_digits(out: &mut Vec<char>, n: u32)
    ensures
        final(out)@ == old(out)@ + decimal_digits(n as nat),
    decreases n,
{
    if n >= 10 {
        push_decimal_digits(out, n / 10);
    }
    let d: u8 = (n % 10) as u8;
    out.push((48u8 + d) as char);
    proof {
        assert(n % 10 == (n as nat) % 10);
    }
}

/// The decimal text of a 32-bit integer, as `Display` prints it.
pub fn i32_to_decimal(n: i32) -> (r: String)
    ensures
        r@ == decimal_text(n as int),
{
    let mut chars: Vec<char> = Vec::new();
    if n < 0 {
        chars.push('-');
        let magnitude: u32 = (-(n as i64)) as u32;
        push_decimal_digits(&mut chars, magnitude);
    } else {
        push_decimal_digits(&mut chars, n as u32);
    }
    string_from_chars(&chars)
}

} // verus!
