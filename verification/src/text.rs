//! The text forms that keys and signatures take in files: lowercase hex,
//! read back with surrounding whitespace ignored.
use vstd::prelude::*;

verus! {

/// The lowercase hex digit of a value below 16.
pub open spec fn hex_digit(v: int) -> char {
    if v < 10 {
        (v + 48) as char
    } else {
        (v + 87) as char
    }
}

/// Lowercase hex, two digits per byte, high nibble first.
pub open spec fn hex_encoding(bytes: Seq<u8>) -> Seq<char> {
    Seq::new(
        2 * bytes.len(),
        |i: int|
            if i % 2 == 0 {
                hex_digit(bytes[i / 2] as int / 16)
            } else {
                hex_digit(bytes[i / 2] as int % 16)
            },
    )
}

/// A hex digit of either case.
pub open spec fn is_hex_char(c: char) -> bool {
    ||| ('0' <= c && c <= '9')
    ||| ('a' <= c && c <= 'f')
    ||| ('A' <= c && c <= 'F')
}

/// The value of a hex digit.
pub open spec fn hex_char_value(c: char) -> int {
    if '0' <= c && c <= '9' {
        c as int - 48
    } else if 'a' <= c && c <= 'f' {
        c as int - 87
    } else {
        c as int - 55
    }
}

/// Hex decoding: an even number of hex digits of either case, two per byte.
pub open spec fn hex_decoding(text: Seq<char>) -> Option<Seq<u8>> {
    if text.len() % 2 == 0 && forall|i: int| 0 <= i < text.len() ==> is_hex_char(#[trigger] text[i]) {
        Some(
            Seq::new(
                text.len() / 2,
                |i: int| (hex_char_value(text[2 * i]) * 16 + hex_char_value(text[2 * i + 1])) as u8,
            ),
        )
    } else {
        None
    }
}

/// The Unicode `White_Space` characters.
pub open spec fn is_unicode_whitespace(c: char) -> bool {
    let v = c as u32;
    ||| (0x09 <= v && v <= 0x0D)
    ||| v == 0x20 || v == 0x85 || v == 0xA0 || v == 0x1680
    ||| (0x2000 <= v && v <= 0x200A)
    ||| v == 0x2028 || v == 0x2029 || v == 0x202F || v == 0x205F || v == 0x3000
}

/// A text without its leading whitespace.
pub open spec fn trim_start(s: Seq<char>) -> Seq<char>
    decreases s.len(),
{
    if s.len() > 0 && is_unicode_whitespace(s[0]) {
        trim_start(s.drop_first())
    } else {
        s
    }
}

/// A text without its trailing whitespace.
pub open spec fn trim_end(s: Seq<char>) -> Seq<char>
    decreases s.len(),
{
    if s.len() > 0 && is_unicode_whitespace(s.last()) {
        trim_end(s.drop_last())
    } else {
        s
    }
}

/// A text without its leading and trailing whitespace.
pub open spec fn trimmed(s: Seq<char>) -> Seq<char> {
    trim_end(trim_start(s))
}

/// Hex digits are never whitespace, so trimming leaves hex text as it is.
pub proof fn lemma_trim_hex(bytes: Seq<u8>)
    ensures
        trimmed(hex_encoding(bytes)) == hex_encoding(bytes),
{
    let h = hex_encoding(bytes);
    if h.len() > 0 {
        let d0 = bytes[0] as int / 16;
        let dl = bytes[bytes.len() - 1] as int % 16;
        assert(h[0] == hex_digit(d0));
        assert((2 * bytes.len() - 1) % 2 == 1);
        assert(h.last() == hex_digit(dl));
    }
}

/// Reading back the hex of some bytes gives those bytes.
pub proof fn lemma_hex_roundtrip(bytes: Seq<u8>)
    ensures
        hex_decoding(hex_encoding(bytes)) == Some(bytes),
{
    let h = hex_encoding(bytes);
    assert forall|i: int| 0 <= i < h.len() implies is_hex_char(#[trigger] h[i]) by {
        if i % 2 == 0 {
            assert(0 <= bytes[i / 2] as int / 16 < 16);
        } else {
            assert(0 <= bytes[i / 2] as int % 16 < 16);
        }
    }
    let d = hex_decoding(h).unwrap();
    assert forall|j: int| 0 <= j < bytes.len() implies d[j] == bytes[j] by {
        let b = bytes[j] as int;
        assert((2 * j) / 2 == j);
        assert((2 * j + 1) / 2 == j);
        assert((2 * j) % 2 == 0);
        assert((2 * j + 1) % 2 == 1);
        assert(hex_char_value(hex_digit(b / 16)) == b / 16);
        assert(hex_char_value(hex_digit(b % 16)) == b % 16);
        assert(b / 16 * 16 + b % 16 == b);
    }
    assert(d =~= bytes);
}

/// A text made of whitespace only.
pub open spec fn all_whitespace(w: Seq<char>) -> bool {
    forall|i: int| 0 <= i < w.len() ==> is_unicode_whitespace(#[trigger] w[i])
}

/// Leading whitespace goes entirely.
pub proof fn lemma_trim_start_whitespace_prefix(w: Seq<char>, s: Seq<char>)
    requires
        all_whitespace(w),
    ensures
        trim_start(w + s) == trim_start(s),
    decreases w.len(),
{
    if w.len() > 0 {
        assert((w + s)[0] == w[0]);
        assert((w + s).drop_first() =~= w.drop_first() + s);
        lemma_trim_start_whitespace_prefix(w.drop_first(), s);
    } else {
        assert(w + s =~= s);
    }
}

/// Trailing whitespace goes entirely.
pub proof fn lemma_trim_end_whitespace_suffix(s: Seq<char>, w: Seq<char>)
    requires
        all_whitespace(w),
    ensures
        trim_end(s + w) == trim_end(s),
    decreases w.len(),
{
    if w.len() > 0 {
        assert((s + w).last() == w.last());
        assert((s + w).drop_last() =~= s + w.drop_last());
        lemma_trim_end_whitespace_suffix(s, w.drop_last());
    } else {
        assert(s + w =~= s);
    }
}

/// Removing leading whitespace from a text followed by whitespace: the
/// whitespace stays after what is left, unless nothing is left.
pub proof fn lemma_trim_start_before_whitespace(s: Seq<char>, w: Seq<char>)
    requires
        all_whitespace(w),
    ensures
        trim_start(s + w) == (if trim_start(s).len() == 0 { Seq::<char>::empty() } else { trim_start(s) + w }),
    decreases s.len(),
{
    if s.len() == 0 {
        assert(s + w =~= Seq::<char>::empty() + w);
        lemma_trim_start_whitespace_prefix(w, Seq::<char>::empty());
        assert(w + Seq::<char>::empty() =~= w);
        assert(Seq::<char>::empty() + w =~= w);
    } else if is_unicode_whitespace(s[0]) {
        assert((s + w)[0] == s[0]);
        assert((s + w).drop_first() =~= s.drop_first() + w);
        lemma_trim_start_before_whitespace(s.drop_first(), w);
    } else {
        assert((s + w)[0] == s[0]);
    }
}

/// Trimming ignores whitespace around a text.
pub proof fn lemma_trimmed_ignores_padding(w1: Seq<char>, t: Seq<char>, w2: Seq<char>)
    requires
        all_whitespace(w1),
        all_whitespace(w2),
    ensures
        trimmed(w1 + t + w2) == trimmed(t),
{
    assert(w1 + t + w2 =~= w1 + (t + w2));
    lemma_trim_start_whitespace_prefix(w1, t + w2);
    lemma_trim_start_before_whitespace(t, w2);
    if trim_start(t).len() != 0 {
        lemma_trim_end_whitespace_suffix(trim_start(t), w2);
    }
}

} // verus!
