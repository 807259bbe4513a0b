//! Form encoding (`application/x-www-form-urlencoded`) of request bodies.
//!
//! Every byte of the UTF-8 encoding is written as itself when it is an ASCII
//! letter, digit, `-`, `_`, `.`, `~`, `[` or `]`, as `+` when it is a space, and
//! as `%XY` (upper-case hex) otherwise. Brackets stay literal so that array
//! parameters such as `server[]` and `ip[]` reach the API as documented.

use vstd::prelude::*;

use crate::text::push_char;

verus! {

/// Bytes that are written as themselves.
pub open spec fn is_literal_byte(b: u8) -> bool {
    ||| 0x41 <= b <= 0x5a
    ||| 0x61 <= b <= 0x7a
    ||| 0x30 <= b <= 0x39
    ||| b == 0x2d
    ||| b == 0x5f
    ||| b == 0x2e
    ||| b == 0x7e
    ||| b == 0x5b
    ||| b == 0x5d
}

/// Upper-case hexadecimal digit for `n < 16`.
pub open spec fn hex_digit(n: u8) -> char {
    if n < 10 {
        (n + 48) as char
    } else {
        (n + 55) as char
    }
}

/// The encoding of one byte.
pub open spec fn encode_byte(b: u8) -> Seq<char> {
    if is_literal_byte(b) {
        seq![b as char]
    } else if b == 0x20 {
        seq!['+']
    } else {
        seq!['%', hex_digit(b / 16), hex_digit(b % 16)]
    }
}

/// The encoding of a byte sequence: the encodings of its bytes, in order.
pub open spec fn encode_bytes(bytes: Seq<u8>) -> Seq<char>
    decreases bytes.len(),
{
    if bytes.len() == 0 {
        Seq::empty()
    } else {
        encode_bytes(bytes.drop_last()) + encode_byte(bytes.last())
    }
}

/// The encoding of a text: the encoding of its UTF-8 bytes.
pub open spec fn percent_encoded(text: Seq<char>) -> Seq<char> {
    encode_bytes(vstd::utf8::encode_utf8(text))
}

/// One `key=value` field of a form.
pub open spec fn encode_field(key: Seq<char>, value: Seq<char>) -> Seq<char> {
    percent_encoded(key) + seq!['='] + percent_encoded(value)
}

/// A whole form: its fields, in order, separated by `&`.
pub open spec fn encode_fields(fields: Seq<(Seq<char>, Seq<char>)>) -> Seq<char>
    decreases fields.len(),
{
    if fields.len() == 0 {
        Seq::empty()
    } else if fields.len() == 1 {
        encode_field(fields[0].0, fields[0].1)
    } else {
        encode_fields(fields.drop_last()) + seq!['&'] + encode_field(
            fields.last().0,
            fields.last().1,
        )
    }
}

/// The text view of a form given as pairs of string slices.
pub open spec fn form_view(form: Seq<(&str, &str)>) -> Seq<(Seq<char>, Seq<char>)> {
    form.map_values(|p: (&str, &str)| (p.0@, p.1@))
}

fn hex_char(n: u8) -> (c: char)
    requires
        n < 16,
    ensures
        c == hex_digit(n),
{
    if n < 10 {
        (n + 48) as char
    } else {
        (n + 55) as char
    }
}

/// Appends the encoding of `b` to `out`.
fn push_encoded_byte(out: &mut String, b: u8)
    ensures
        final(out)@ == old(out)@ + encode_byte(b),
{
    if (0x41 <= b && b <= 0x5a) || (0x61 <= b && b <= 0x7a) || (0x30 <= b && b <= 0x39) || b
        == 0x2d || b == 0x5f || b == 0x2e || b == 0x7e || b == 0x5b || b == 0x5d {
        push_char(out, b as char);
        assert(out@ =~= old(out)@ + encode_byte(b));
    } else if b == 0x20 {
        push_char(out, '+');
        assert(out@ =~= old(out)@ + encode_byte(b));
    } else {
        assert((b >> 4u8) == b / 16 && (b & 15u8) == b % 16) by (bit_vector);
        push_char(out, '%');
        push_char(out, hex_char(b >> 4u8));
        push_char(out, hex_char(b & 15u8));
        assert(out@ =~= old(out)@ + encode_byte(b));
    }
}

/// Percent-encodes `input` for use in a form body.
pub fn percent_encode(input: &str) -> (encoded: String)
    ensures
        encoded@ == percent_encoded(input@),
{
    let bytes = input.as_bytes();
    let mut encoded = String::new();
    let mut i: usize = 0;
    while i < bytes.len()
        invariant
            i <= bytes@.len(),
            bytes@ == vstd::utf8::encode_utf8(input@),
            encoded@ == encode_bytes(bytes@.take(i as int)),
        decreases bytes@.len() - i,
    {
        let b = bytes[i];
        push_encoded_byte(&mut encoded, b);
        proof {
            let next = bytes@.take(i + 1);
            assert(next.drop_last() =~= bytes@.take(i as int));
            assert(next.last() == b);
        }
        i = i + 1;
    }
    proof {
        assert(bytes@.take(i as int) =~= bytes@);
    }
    encoded
}

/// Encodes `form` as `key=value` fields joined by `&`.
pub fn encode_form(form: &[(&str, &str)]) -> (encoded: String)
    ensures
        encoded@ == encode_fields(form_view(form@)),
{
    let mut encoded = String::new();
    let mut i: usize = 0;
    while i < form.len()
        invariant
            i <= form@.len(),
            encoded@ == encode_fields(form_view(form@.take(i as int))),
        decreases form@.len() - i,
    {
        let (key, value) = form[i];
        if i > 0 {
            push_char(&mut encoded, '&');
        }
        let k = percent_encode(key);
        let v = percent_encode(value);
        encoded.append(k.as_str());
        push_char(&mut encoded, '=');
        encoded.append(v.as_str());
        proof {
            let prev = form_view(form@.take(i as int));
            let next = form_view(form@.take(i + 1));
            assert(next.drop_last() =~= prev);
            assert(next.last() == (key@, value@));
            if i == 0 {
                assert(encoded@ =~= encode_fields(next));
            } else {
                assert(encoded@ =~= encode_fields(next));
            }
        }
        i = i + 1;
    }
    proof {
        assert(form@.take(i as int) =~= form@);
    }
    encoded
}


/// The value of a hexadecimal digit character (either case).
pub open spec fn hex_value(c: char) -> int {
    if '0' <= c <= '9' {
        c as int - 48
    } else if 'A' <= c <= 'F' {
        c as int - 55
    } else if 'a' <= c <= 'f' {
        c as int - 87
    } else {
        0
    }
}

/// Decoding of an encoded byte sequence: `%XY` is the byte `0xXY`, `+` is a
/// space, and any other character is its own code as a byte.
pub open spec fn decode_bytes(s: Seq<char>) -> Seq<u8>
    decreases s.len(),
{
    if s.len() == 0 {
        Seq::empty()
    } else if s.len() >= 3 && s[s.len() - 3] == '%' {
        decode_bytes(s.take(s.len() - 3)).push(
            (hex_value(s[s.len() - 2]) * 16 + hex_value(s[s.len() - 1])) as u8,
        )
    } else if s.last() == '+' {
        decode_bytes(s.drop_last()).push(0x20)
    } else {
        decode_bytes(s.drop_last()).push(s.last() as u8)
    }
}

/// Index of the first `c` in `s`, or `-1`.
pub open spec fn first_index_of(s: Seq<char>, c: char) -> int
    decreases s.len(),
{
    if s.len() == 0 {
        -1
    } else if s[0] == c {
        0
    } else {
        let rest = first_index_of(s.drop_first(), c);
        if rest < 0 {
            -1
        } else {
            rest + 1
        }
    }
}

/// Index of the last `c` in `s`, or `-1`.
pub open spec fn last_index_of(s: Seq<char>, c: char) -> int
    decreases s.len(),
{
    if s.len() == 0 {
        -1
    } else if s.last() == c {
        s.len() - 1
    } else {
        last_index_of(s.drop_last(), c)
    }
}

/// Decoding of one `key=value` field into the key and value bytes.
pub open spec fn decode_field(s: Seq<char>) -> (Seq<u8>, Seq<u8>) {
    let i = first_index_of(s, '=');
    if i < 0 {
        (decode_bytes(s), Seq::empty())
    } else {
        (decode_bytes(s.take(i)), decode_bytes(s.skip(i + 1)))
    }
}

/// Decoding of a form body into its fields, split at every `&`.
pub open spec fn decode_form(s: Seq<char>) -> Seq<(Seq<u8>, Seq<u8>)>
    decreases s.len(),
{
    let i = last_index_of(s, '&');
    if i < 0 {
        seq![decode_field(s)]
    } else {
        proof {
            lemma_last_index_bounds(s, '&');
        }
        decode_form(s.take(i)).push(decode_field(s.skip(i + 1)))
    }
}

/// Where the last `c` of `s` can stand.
pub proof fn lemma_last_index_bounds(s: Seq<char>, c: char)
    ensures
        -1 <= last_index_of(s, c) < s.len(),
        last_index_of(s, c) >= 0 ==> s[last_index_of(s, c)] == c,
    decreases s.len(),
{
    if s.len() > 0 && s.last() != c {
        lemma_last_index_bounds(s.drop_last(), c);
    }
}

/// The UTF-8 bytes of each key and value of a form.
pub open spec fn fields_bytes(fields: Seq<(Seq<char>, Seq<char>)>) -> Seq<(Seq<u8>, Seq<u8>)> {
    fields.map_values(|f: (Seq<char>, Seq<char>)| (vstd::utf8::encode_utf8(f.0), vstd::utf8::encode_utf8(f.1)))
}

/// Characters that the encoding can produce for a byte.
pub open spec fn is_encoding_char(c: char) -> bool {
    ||| 'A' <= c <= 'Z'
    ||| 'a' <= c <= 'z'
    ||| '0' <= c <= '9'
    ||| c == '-' || c == '_' || c == '.' || c == '~' || c == '[' || c == ']'
    ||| c == '+' || c == '%'
}

proof fn lemma_encode_byte_chars(b: u8)
    ensures
        forall|j: int| 0 <= j < encode_byte(b).len() ==> is_encoding_char(#[trigger] encode_byte(b)[j]),
        encode_byte(b).last() != '%',
        encode_byte(b).len() >= 2 ==> encode_byte(b)[encode_byte(b).len() - 2] != '%',
        encode_byte(b).len() == 1 || encode_byte(b).len() == 3,
        encode_byte(b).len() == 3 <==> encode_byte(b)[0] == '%',
{
    assert(b / 16 < 16 && b % 16 < 16);
}

proof fn lemma_encode_bytes_shape(bytes: Seq<u8>)
    ensures
        forall|j: int| 0 <= j < encode_bytes(bytes).len() ==> is_encoding_char(#[trigger] encode_bytes(bytes)[j]),
        encode_bytes(bytes).len() >= 1 ==> encode_bytes(bytes).last() != '%',
        encode_bytes(bytes).len() >= 2 ==> encode_bytes(bytes)[encode_bytes(bytes).len() - 2] != '%',
    decreases bytes.len(),
{
    if bytes.len() > 0 {
        let prev = encode_bytes(bytes.drop_last());
        let unit = encode_byte(bytes.last());
        lemma_encode_bytes_shape(bytes.drop_last());
        lemma_encode_byte_chars(bytes.last());
        let all = encode_bytes(bytes);
        assert(all =~= prev + unit);
        assert forall|j: int| 0 <= j < all.len() implies is_encoding_char(#[trigger] all[j]) by {
            if j < prev.len() {
                assert(all[j] == prev[j]);
            } else {
                assert(all[j] == unit[j - prev.len()]);
            }
        }
    }
}

proof fn lemma_decode_encoded(bytes: Seq<u8>)
    ensures
        decode_bytes(encode_bytes(bytes)) == bytes,
    decreases bytes.len(),
{
    if bytes.len() > 0 {
        let prev = encode_bytes(bytes.drop_last());
        let b = bytes.last();
        let unit = encode_byte(b);
        let all = encode_bytes(bytes);
        lemma_decode_encoded(bytes.drop_last());
        lemma_encode_bytes_shape(bytes.drop_last());
        lemma_encode_byte_chars(b);
        assert(all =~= prev + unit);
        if unit.len() == 3 {
            assert(all[all.len() - 3] == '%');
            assert(all.take(all.len() - 3) =~= prev);
            assert(b / 16 < 16 && b % 16 < 16);
            assert(hex_value(hex_digit(b / 16)) == b / 16);
            assert(hex_value(hex_digit(b % 16)) == b % 16);
            assert(decode_bytes(all) =~= bytes);
        } else {
            if all.len() >= 3 {
                assert(all[all.len() - 3] == prev[prev.len() - 2]);
            }
            assert(all.drop_last() =~= prev);
            assert(decode_bytes(all) =~= bytes);
        }
    }
}

/// Decoding an encoded text gives back exactly its UTF-8 bytes: the encoding
/// loses nothing and is unambiguous.
pub proof fn law_percent_roundtrip(text: Seq<char>)
    ensures
        decode_bytes(percent_encoded(text)) == vstd::utf8::encode_utf8(text),
{
    lemma_decode_encoded(vstd::utf8::encode_utf8(text));
}

/// An encoded text never holds the separators `&` and `=`, so it cannot break
/// the field structure of a form.
pub proof fn law_encoded_has_no_separators(text: Seq<char>)
    ensures
        forall|j: int|
            0 <= j < percent_encoded(text).len() ==> #[trigger] percent_encoded(text)[j] != '&'
                && percent_encoded(text)[j] != '=',
{
    lemma_encode_bytes_shape(vstd::utf8::encode_utf8(text));
}

proof fn lemma_first_index_after_free(a: Seq<char>, c: char, b: Seq<char>)
    requires
        forall|j: int| 0 <= j < a.len() ==> a[j] != c,
    ensures
        first_index_of(a + seq![c] + b, c) == a.len(),
    decreases a.len(),
{
    let s = a + seq![c] + b;
    if a.len() == 0 {
        assert(s[0] == c);
    } else {
        assert(s[0] == a[0]);
        assert(s.drop_first() =~= a.drop_first() + seq![c] + b);
        lemma_first_index_after_free(a.drop_first(), c, b);
    }
}

proof fn lemma_first_index_absent(a: Seq<char>, c: char)
    requires
        forall|j: int| 0 <= j < a.len() ==> a[j] != c,
    ensures
        first_index_of(a, c) == -1,
    decreases a.len(),
{
    if a.len() > 0 {
        lemma_first_index_absent(a.drop_first(), c);
    }
}

proof fn lemma_last_index_before_free(a: Seq<char>, c: char, b: Seq<char>)
    requires
        forall|j: int| 0 <= j < b.len() ==> b[j] != c,
    ensures
        last_index_of(a + seq![c] + b, c) == a.len(),
    decreases b.len(),
{
    let s = a + seq![c] + b;
    if b.len() == 0 {
        assert(s.last() == c);
    } else {
        assert(s.last() == b.last());
        assert(s.drop_last() =~= a + seq![c] + b.drop_last());
        lemma_last_index_before_free(a, c, b.drop_last());
    }
}

proof fn lemma_last_index_absent(a: Seq<char>, c: char)
    requires
        forall|j: int| 0 <= j < a.len() ==> a[j] != c,
    ensures
        last_index_of(a, c) == -1,
    decreases a.len(),
{
    if a.len() > 0 {
        lemma_last_index_absent(a.drop_last(), c);
    }
}

proof fn lemma_field_shape(key: Seq<char>, value: Seq<char>)
    ensures
        forall|j: int|
            0 <= j < encode_field(key, value).len() ==> #[trigger] encode_field(key, value)[j]
                != '&',
        decode_field(encode_field(key, value)) == (vstd::utf8::encode_utf8(key), vstd::utf8::encode_utf8(value)),
{
    let ek = percent_encoded(key);
    let ev = percent_encoded(value);
    let f = encode_field(key, value);
    law_encoded_has_no_separators(key);
    law_encoded_has_no_separators(value);
    assert forall|j: int| 0 <= j < f.len() implies #[trigger] f[j] != '&' by {
        if j < ek.len() {
            assert(f[j] == ek[j]);
        } else if j == ek.len() {
            assert(f[j] == '=');
        } else {
            assert(f[j] == ev[j - ek.len() - 1]);
        }
    }
    assert forall|j: int| 0 <= j < ek.len() implies ek[j] != '=' by {
        assert(ek[j] == percent_encoded(key)[j]);
    }
    lemma_first_index_after_free(ek, '=', ev);
    assert(f.take(ek.len() as int) =~= ek);
    assert(f.skip(ek.len() as int + 1) =~= ev);
    law_percent_roundtrip(key);
    law_percent_roundtrip(value);
}

/// Decoding an encoded, non-empty form gives back each field's key and value
/// bytes, in order: the body says exactly what the caller asked for.
pub proof fn law_form_roundtrip(fields: Seq<(Seq<char>, Seq<char>)>)
    requires
        fields.len() > 0,
    ensures
        decode_form(encode_fields(fields)) == fields_bytes(fields),
    decreases fields.len(),
{
    let s = encode_fields(fields);
    let last = fields.last();
    lemma_field_shape(last.0, last.1);
    let f = encode_field(last.0, last.1);
    if fields.len() == 1 {
        assert(fields[0] == last);
        lemma_last_index_absent(f, '&');
        assert(decode_form(s) =~= fields_bytes(fields));
    } else {
        let prev = encode_fields(fields.drop_last());
        law_form_roundtrip(fields.drop_last());
        lemma_last_index_before_free(prev, '&', f);
        assert(s =~= prev + seq!['&'] + f);
        assert(s.take(prev.len() as int) =~= prev);
        assert(s.skip(prev.len() as int + 1) =~= f);
        assert(fields_bytes(fields) =~= fields_bytes(fields.drop_last()).push(
            (vstd::utf8::encode_utf8(last.0), vstd::utf8::encode_utf8(last.1)),
        ));
    }
}

} // verus!
