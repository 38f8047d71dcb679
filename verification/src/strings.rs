//! Strings: owned text, literals with and without escapes, and plain bytes.

use vstd::prelude::*;
use vstd::utf8::{encode_utf8, valid_utf8};

verus! {

/// Texts that own their characters.
pub struct OwnedTexts {
    /// A text without characters.
    pub empty: String,
    /// A copy of a literal.
    pub copied: String,
    /// A text put together from three pieces.
    pub joined: String,
}

/// Makes an empty text, copies a literal into a text of its own, and builds
/// a third text piece by piece.
pub fn basic() -> (texts: OwnedTexts)
    ensures
        texts.empty@ == Seq::<char>::empty(),
        texts.copied@ == "I like dogs"@,
        texts.joined@ == "I like"@ + " cats"@ + " too"@,
        texts.joined@ == "I like cats too"@,
{
    let empty: String = String::new();
    let copied: String = String::from_str("I like dogs");

    let mut joined: String = String::from_str("I like");
    joined.append(" cats");
    joined.append(" too");

    proof {
        reveal_strlit("I like");
        reveal_strlit(" cats");
        reveal_strlit(" too");
        reveal_strlit("I like cats too");
    }
    OwnedTexts { empty, copied, joined }
}

/// Literals written with escapes.
pub struct EscapedTexts {
    /// Four letters given by their codes.
    pub by_code: &'static str,
    /// One character given by its number in Unicode.
    pub by_number: &'static str,
    /// A text that holds quotation marks and a backslash.
    pub quoted: &'static str,
    /// A literal that goes on in the next line of the source.
    pub continued: &'static str,
}

/// Writes four literals with escapes. What each one holds is what the
/// escapes stand for, not how they are written.
pub fn string_literals_and_escapes() -> (texts: EscapedTexts)
    ensures
        texts.by_code@ == "I'm writing Rust!"@,
        texts.by_number@ == seq!['\u{211D}'],
        texts.quoted@ == seq!['"'] + "a\\b"@ + seq!['"'],
        texts.quoted@.len() == 5,
        texts.continued@ == "one line, whatever the source says"@,
{
    let by_code: &'static str = "I'm writing \x52\x75\x73\x74!";
    let by_number: &'static str = "\u{211D}";
    let quoted: &'static str = "\"a\\b\"";
    let continued: &'static str = "one line, \
                                   whatever the source says";
    proof {
        reveal_strlit("\u{211D}");
        reveal_strlit("\"a\\b\"");
        reveal_strlit("a\\b");
    }
    EscapedTexts { by_code, by_number, quoted, continued }
}

/// Literals written raw.
pub struct RawTexts {
    /// What would be escapes in an ordinary literal.
    pub unescaped: &'static str,
    /// A text with quotation marks in it.
    pub quoted: &'static str,
}

/// Writes two raw literals. What each one holds is what stands between its
/// delimiters, character by character: a backslash is a backslash.
pub fn raw_string_literals() -> (texts: RawTexts)
    ensures
        texts.unescaped@ == "Escapes don't work here: \\x3F \\u{211D}"@,
        texts.unescaped@.len() == 38,
        texts.quoted@ == "And then I said: \"There is no escape!\""@,
{
    proof {
        reveal_strlit("Escapes don't work here: \\x3F \\u{211D}");
    }
    RawTexts {
        unescaped: r"Escapes don't work here: \x3F \u{211D}",
        quoted: r#"And then I said: "There is no escape!""#,
    }
}

/// Sequences of bytes.
pub struct ByteTexts {
    /// The bytes of a text of plain letters.
    pub plain: Vec<u8>,
    /// Four bytes given by their values.
    pub by_value: Vec<u8>,
    /// Bytes that are no text at all.
    pub not_text: Vec<u8>,
}

/// Makes three sequences of bytes: the bytes of a text, bytes given one by
/// one that spell a text, and bytes that no text is made of.
pub fn byte_strings() -> (texts: ByteTexts)
    ensures
        texts.plain@ == encode_utf8("this is a byte string"@),
        texts.plain@.len() == 21,
        forall|i: int| 0 <= i < 21 ==> texts.plain@[i] == "this is a byte string"@[i] as u8,
        texts.by_value@ == seq![0x52u8, 0x75, 0x73, 0x74],
        texts.by_value@ == encode_utf8("Rust"@),
        texts.not_text@ == seq![0x82u8, 0xe6, 0x82, 0xa8, 0x82, 0xb1, 0x82, 0xbb],
        !valid_utf8(texts.not_text@),
{
    let plain: Vec<u8> = "this is a byte string".as_bytes_vec();
    let by_value: Vec<u8> = vec![0x52u8, 0x75, 0x73, 0x74];
    let not_text: Vec<u8> = vec![0x82u8, 0xe6, 0x82, 0xa8, 0x82, 0xb1, 0x82, 0xbb];

    proof {
        reveal_strlit("this is a byte string");
        reveal_strlit("Rust");
        vstd::utf8::is_ascii_chars_encode_utf8("this is a byte string"@);
        vstd::utf8::is_ascii_chars_encode_utf8("Rust"@);
    }
    ByteTexts { plain, by_value, not_text }
}

/// What the four studies of strings produced.
pub struct StringTour {
    /// Texts that own their characters.
    pub owned: OwnedTexts,
    /// Literals written with escapes.
    pub escaped: EscapedTexts,
    /// Literals written raw.
    pub raw: RawTexts,
    /// Sequences of bytes.
    pub bytes: ByteTexts,
}

/// Runs the four studies of strings, one after the other.
pub fn run_strings() -> (tour: StringTour)
    ensures
        tour.owned.empty@ == Seq::<char>::empty(),
        tour.owned.copied@ == "I like dogs"@,
        tour.owned.joined@ == "I like cats too"@,
        tour.escaped.by_code@ == "I'm writing Rust!"@,
        tour.escaped.by_number@ == seq!['\u{211D}'],
        tour.escaped.quoted@ == seq!['"'] + "a\\b"@ + seq!['"'],
        tour.escaped.continued@ == "one line, whatever the source says"@,
        tour.raw.unescaped@ == "Escapes don't work here: \\x3F \\u{211D}"@,
        tour.raw.quoted@ == "And then I said: \"There is no escape!\""@,
        tour.bytes.plain@ == encode_utf8("this is a byte string"@),
        tour.bytes.by_value@ == encode_utf8("Rust"@),
        tour.bytes.not_text@ == seq![0x82u8, 0xe6, 0x82, 0xa8, 0x82, 0xb1, 0x82, 0xbb],
        !valid_utf8(tour.bytes.not_text@),
{
    StringTour {
        owned: basic(),
        escaped: string_literals_and_escapes(),
        raw: raw_string_literals(),
        bytes: byte_strings(),
    }
}

} // verus!
