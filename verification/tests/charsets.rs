use mail_parser::decoders::base64::decode_base64;
use mail_parser::decoders::charsets::map::decoder_default;
use mail_parser::decoders::charsets::map::get_charset_decoder;
use mail_parser::decoders::charsets::Charset;
use mail_parser::decoders::encoded_word::decode_rfc2047;
use mail_parser::decoders::hex::decode_hex;
use mail_parser::decoders::DecodeResult;
use mail_parser::parsers::message::MessageStream;

#[test]
fn get_decoder_charset() {
    let inputs = [
        "l8",
        "utf-8",
        "utf-7",
        "US-Ascii",
        "csgb18030",
        "iso-8859-1",
        "extended_unix_code_packed_format_for_japanese",
    ];

    for input in inputs {
        assert!(
            get_charset_decoder(input.as_bytes()).is_some(),
            "Failed for '{}'",
            input
        );
    }
}

#[test]
fn unknown_names_have_no_decoder() {
    for input in ["nosuch", "", "x", "utf-9", "iso-8859-12", "latin", "utf-8 "] {
        assert_eq!(
            get_charset_decoder(input.as_bytes()),
            None,
            "Failed for '{}'",
            input
        );
    }
    let long = "extended_unix_code_packed_format_for_japanese_";
    assert_eq!(long.len(), 46);
    assert_eq!(get_charset_decoder(long.as_bytes()), None);
}

#[test]
fn names_resolve_to_their_character_set() {
    let inputs = [
        ("utf-8", Charset::Utf8),
        ("us-ascii", Charset::Utf8),
        ("utf-7", Charset::Utf7),
        ("utf-16", Charset::Utf16),
        ("utf-16le", Charset::Utf16Le),
        ("utf-16be", Charset::Utf16Be),
        ("iso-8859-1", Charset::Iso8859_1),
        ("latin1", Charset::Iso8859_1),
        ("l8", Charset::Iso8859_14),
        ("iso-8859-15", Charset::Iso8859_15),
        ("windows-1252", Charset::Windows1252),
        ("koi8-r", Charset::Koi8R),
        ("shift_jis", Charset::ShiftJis),
        ("csgb18030", Charset::Gb18030),
        (
            "extended_unix_code_packed_format_for_japanese",
            Charset::EucJp,
        ),
    ];
    for (name, charset) in inputs {
        assert_eq!(
            get_charset_decoder(name.as_bytes()),
            Some(charset),
            "Failed for '{}'",
            name
        );
    }
}

#[test]
fn the_case_of_a_name_does_not_matter() {
    for name in [
        "US-Ascii",
        "UTF-8",
        "Iso-8859-15",
        "WINDOWS-1252",
        "Extended_UNIX_Code_Packed_Format_for_Japanese",
        "NoSuch",
    ] {
        let folded = name.to_ascii_lowercase();
        let upper = name.to_ascii_uppercase();
        assert_eq!(
            get_charset_decoder(name.as_bytes()),
            get_charset_decoder(folded.as_bytes())
        );
        assert_eq!(
            get_charset_decoder(name.as_bytes()),
            get_charset_decoder(upper.as_bytes())
        );
    }
}

#[test]
fn single_byte_character_sets() {
    assert_eq!(Charset::Iso8859_1.decode(b"caf\xe9 \xa0\xff"), "café \u{a0}ÿ");
    assert_eq!(Charset::Iso8859_15.decode(b"\xa4 100"), "€ 100");
    assert_eq!(Charset::Iso8859_2.decode(b"\xa1\xb1"), "Ąą");
    assert_eq!(Charset::Iso8859_5.decode(b"\xbf\xe0\xd8\xd2\xd5\xe2"), "Привет");
    assert_eq!(
        Charset::Iso8859_6.decode(b"\xe5\xd1\xcd\xc8\xc7"),
        "مرحبا"
    );
    assert_eq!(Charset::Iso8859_7.decode(b"\xe1\xe2\xe3"), "αβγ");
    assert_eq!(Charset::Iso8859_8.decode(b"\xf9\xec\xe5\xed"), "שלום");
    assert_eq!(Charset::Windows1252.decode(b"\x80 \x93hi\x94"), "€ “hi”");
    assert_eq!(Charset::Windows1251.decode(b"\xcf\xf0\xe8\xe2\xe5\xf2"), "Привет");
    assert_eq!(Charset::Koi8R.decode(b"\xf0\xd2\xc9\xd7\xc5\xd4"), "Привет");
    assert_eq!(Charset::Ibm866.decode(b"\x8f\xe0\xa8\xa2\xa5\xe2"), "Привет");
    assert_eq!(Charset::Ibm850.decode(b"\x82\x8a"), "éè");
    assert_eq!(Charset::Macintosh.decode(b"\x8e\xdb"), "é€");
    assert_eq!(Charset::Tis620.decode(b"\xa1\xa2"), "กข");
    // A byte that a character set leaves undefined.
    assert_eq!(Charset::Windows1252.decode(b"a\x81b"), "a\u{fffd}b");
    assert_eq!(Charset::Iso8859_7.decode(b"\xff"), "\u{fffd}");
}

#[test]
fn multi_byte_character_sets() {
    assert_eq!(
        Charset::ShiftJis.decode(b"\x83n\x83\x8d\x81[\x81E\x83\x8f\x81[\x83\x8b\x83h"),
        "ハロー・ワールド"
    );
    assert_eq!(
        Charset::EucJp.decode(b"\xa5\xcf\xa5\xed\xa1\xbc"),
        "ハロー"
    );
    assert_eq!(Charset::Big5.decode(b"\xa7A\xa6n"), "你好");
    assert_eq!(Charset::Gbk.decode(b"\xc4\xe3\xba\xc3"), "你好");
    assert_eq!(Charset::Gb18030.decode(b"\xc4\xe3\xba\xc3"), "你好");
    assert_eq!(Charset::EucKr.decode(b"\xbe\xc8\xb3\xe7"), "안녕");
    assert_eq!(
        Charset::Iso2022Jp.decode(b"\x1b$B%O%m!<\x1b(B!"),
        "ハロー!"
    );
    assert_eq!(Charset::ShiftJis.decode(b"plain"), "plain");
}

#[test]
fn utf_character_sets() {
    assert_eq!(Charset::Utf8.decode("héllo".as_bytes()), "héllo");
    assert_eq!(Charset::Utf8.decode(b"a\xffb"), "a\u{fffd}b");
    assert_eq!(decoder_default(b"a\xffb"), "a\u{fffd}b");
    assert_eq!(decoder_default("—\u{2009}x".as_bytes()), "—\u{2009}x");
    assert_eq!(Charset::Utf16Le.decode(b"h\x00i\x00"), "hi");
    assert_eq!(Charset::Utf16Be.decode(b"\x00h\x00i"), "hi");
    assert_eq!(Charset::Utf16.decode(b"\xff\xfeh\x00i\x00"), "hi");
    assert_eq!(Charset::Utf16.decode(b"\xfe\xff\x00h\x00i"), "hi");
    assert_eq!(Charset::Utf16.decode(b"h\x00i\x00"), "hi");
    // A surrogate pair, an unpaired surrogate and a byte left over.
    assert_eq!(Charset::Utf16Be.decode(b"\xd8\x3d\xde\x00"), "😀");
    assert_eq!(Charset::Utf16Be.decode(b"\xd8\x3d\x00a"), "\u{fffd}a");
    assert_eq!(Charset::Utf16Le.decode(b"a\x00b"), "a");
    assert_eq!(Charset::Utf16Le.decode(b""), "");
}

#[test]
fn utf7() {
    assert_eq!(Charset::Utf7.decode(b"Hello, World!"), "Hello, World!");
    assert_eq!(Charset::Utf7.decode(b"Hi Mom -+Jjo--!"), "Hi Mom -☺-!");
    assert_eq!(Charset::Utf7.decode(b"+ZeVnLIqe-"), "日本語");
    assert_eq!(Charset::Utf7.decode(b"1 +- 1 = 2"), "1 + 1 = 2");
    assert_eq!(Charset::Utf7.decode(b"+AGEAYgBj-"), "abc");
    assert_eq!(Charset::Utf7.decode(b"+AGE.x"), "a.x");
    assert_eq!(Charset::Utf7.decode(b"a\xffb"), "a\u{fffd}b");
    // A surrogate pair.
    assert_eq!(Charset::Utf7.decode(b"+2D3eAA-"), "😀");
}

fn base64(input: &str, boundary: &str, is_word: bool) -> (usize, DecodeResult) {
    let stream = MessageStream::new(input.as_bytes());
    decode_base64(&stream, 0, boundary.as_bytes(), is_word)
}

#[test]
fn decode_base64_text() {
    assert_eq!(
        base64("SGVsbG8gV29ybGQ=", "", false),
        (16, DecodeResult::Owned(b"Hello World".to_vec()))
    );
    assert_eq!(
        base64("SGVsbG8gV29ybGQh", "", false),
        (16, DecodeResult::Owned(b"Hello World!".to_vec()))
    );
    assert_eq!(
        base64("SGVsbG8=", "", false),
        (8, DecodeResult::Owned(b"Hello".to_vec()))
    );
    assert_eq!(
        base64("SGVsbA==", "", false),
        (8, DecodeResult::Owned(b"Hell".to_vec()))
    );
    // White space is passed over, and so is what follows the padding.
    assert_eq!(
        base64("SGVs\r\nbG8g\r\n V29y bGQ=\r\n", "", false),
        (24, DecodeResult::Owned(b"Hello World".to_vec()))
    );
    assert_eq!(
        base64("/+8=", "", false),
        (4, DecodeResult::Owned(vec![0xff, 0xef]))
    );
}

#[test]
fn decode_base64_up_to_the_boundary() {
    let input = "SGVsbG8gV29ybGQ=\r\n--boundary\r\nmore";
    assert_eq!(
        base64(input, "--boundary", false),
        (28, DecodeResult::Owned(b"Hello World".to_vec()))
    );
    assert_eq!(
        base64("SGVsbG8=?=", "?=", true),
        (10, DecodeResult::Owned(b"Hello".to_vec()))
    );
    // The boundary is missing.
    assert_eq!(base64("SGVsbG8=", "--boundary", false), (0, DecodeResult::Empty));
    // A byte that is no part of base64.
    assert_eq!(base64("SGVs*bG8=", "", false), (0, DecodeResult::Empty));
    // A line feed in an encoded word.
    assert_eq!(base64("SGVs\nbG8=?=", "?=", true), (0, DecodeResult::Empty));
    assert_eq!(
        base64("SGVs\nbG8=\n--b", "--b", false),
        (13, DecodeResult::Owned(b"Hello".to_vec()))
    );
    // Nothing to decode.
    assert_eq!(base64("--boundary", "--boundary", false), (10, DecodeResult::Empty));
    assert_eq!(base64("", "", false), (0, DecodeResult::Empty));
}

#[test]
fn decode_hex_text() {
    assert_eq!(decode_hex(b"This%20is%20%2A%2a%2A"), (true, b"This is ***".to_vec()));
    assert_eq!(decode_hex(b"plain"), (true, b"plain".to_vec()));
    assert_eq!(decode_hex(b"%D1and%FA"), (true, vec![0xd1, b'a', b'n', b'd', 0xfa]));
    assert_eq!(decode_hex(b""), (true, vec![]));
    // An escape that the end cuts short is dropped.
    assert_eq!(decode_hex(b"ba%"), (true, b"ba".to_vec()));
    assert_eq!(decode_hex(b"ba%2"), (true, b"ba".to_vec()));
    // After a malformed escape nothing more is decoded.
    assert_eq!(decode_hex(b"ab%zzcd"), (false, b"ab".to_vec()));
    assert!(!decode_hex(b"%zz").0);
    assert!(!decode_hex(b"a%%20").0);
    assert!(!decode_hex(b"%2%20").0);
}

fn word(input: &str) -> (usize, Option<String>) {
    let stream = MessageStream::new(input.as_bytes());
    decode_rfc2047(&stream, 1)
}

#[test]
fn decode_encoded_words() {
    assert_eq!(
        word("=?iso-8859-1?q?this=20is=20some=20text?="),
        (39, Some("this is some text".to_string()))
    );
    assert_eq!(
        word("=?ISO-8859-1?Q?Keith_Moore?= <moore@cs.utk.edu>"),
        (27, Some("Keith Moore".to_string()))
    );
    assert_eq!(
        word("=?utf-8?B?w6k=?="),
        (15, Some("é".to_string()))
    );
    assert_eq!(
        word("=?iso-8859-6?b?5dHNyMcgyMfk2cfk5Q==?=.gif"),
        (36, Some("مرحبا بالعالم".to_string()))
    );
    assert_eq!(
        word("=?unknown-charset?q?caf=C3=A9?="),
        (30, Some("café".to_string()))
    );
    assert_eq!(word("=?utf-8?q??="), (11, Some(String::new())));
}

#[test]
fn what_is_no_encoded_word() {
    for input in [
        "=",
        "=x",
        "=?",
        "=??q?text?=",
        "=?utf-8?x?text?=",
        "=?utf-8?q?text",
        "=?utf-8?qtext?=",
        "=?utf-8\n?q?text?=",
        "=?utf-8?q?te=xt?=",
        "=?utf-8?b?****?=",
        "=?utf-8?b?w6\nk=?=",
        "=?utf-8?b?w6k=\n?=",
        "=?utf-8?q?caf\n=C3=A9?=",
    ] {
        assert_eq!(word(input), (0, None), "Failed for {:?}", input);
    }
}
