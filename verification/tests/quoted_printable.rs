use mail_parser::decoders::quoted_printable::decode_quoted_printable;
use mail_parser::decoders::DecodeResult;
use mail_parser::parsers::message::MessageStream;

#[test]
fn decode_quoted_printable_string() {
    let inputs = [
        (
            "J'interdis aux marchands de vanter trop leurs marchandises. Car ils se font=\nvite p=C3=A9dagogues et t'enseignent comme but ce qui n'est par essence qu=\n'un moyen, et te trompant ainsi sur la route =C3=A0 suivre les voil=C3=\n=A0 bient=C3=B4t qui te d=C3=A9gradent, car si leur musique est vulgaire il=\ns te fabriquent pour te la vendre une =C3=A2me vulgaire.\n=E2=80=94=E2=80=89Antoine de Saint-Exup=C3=A9ry, Citadelle (1948)",
            "J'interdis aux marchands de vanter trop leurs marchandises. Car ils se fontvite pédagogues et t'enseignent comme but ce qui n'est par essence qu'un moyen, et te trompant ainsi sur la route à suivre les voilà bientôt qui te dégradent, car si leur musique est vulgaire ils te fabriquent pour te la vendre une âme vulgaire.\n— Antoine de Saint-Exupéry, Citadelle (1948)",
            "",
            false,
        ),
        (
            "=E2=80=94=E2=80=89Antoine de Saint-Exup=C3=A9ry\n--boundary",
            "— Antoine de Saint-Exupéry",
            "--boundary",
            false,
        ),
        (
            "=E2=80=94=E2=80=89Antoine de Saint-Exup=C3=A9ry\n--\n--boundary",
            "— Antoine de Saint-Exupéry\n--",
            "--boundary",
            false,
        ),
        (
            "=E2=80=94=E2=80=89Antoine de Saint-Exup=C3=A9ry=\n--\n--boundary",
            "— Antoine de Saint-Exupéry--",
            "--boundary",
            false,
        ),
        (
            "Die Hasen klagten einst uber ihre Lage; \"wir leben\", sprach ein=\r\n Redner, \"in steter Furcht vor Menschen und Tieren, eine Beute der Hunde,=\r\n der\n",
            "Die Hasen klagten einst uber ihre Lage; \"wir leben\", sprach ein Redner, \"in steter Furcht vor Menschen und Tieren, eine Beute der Hunde, der\n",
            "",
            false,
        ),
        ("this=20is=20some=20text?=", "this is some text", "?=", true),
        ("this is some text?=", "this is some text", "?=", true),
        ("Keith_Moore?=", "Keith Moore", "?=", true),
        ("=2=123?=", "", "?=", true),
        ("= 20?=", "", "?=", true),
        ("=====?=", "", "?=", true),
        ("=20=20=XX?=", "", "?=", true),
        ("=AX?=", "", "?=", true),
        ("=\n=\n==?=", "", "?=", true),
        ("=\r=1z?=", "", "?=", true),
        ("=|?=", "", "?=", true),
        ("????????=", "???????", "?=", true),
    ];

    for input in inputs {
        let str = input.0.to_string();
        let stream = MessageStream::new(str.as_bytes());

        let (bytes_read, result) =
            decode_quoted_printable(&stream, 0, input.2.as_bytes(), input.3);

        assert_eq!(
            bytes_read > 0,
            !input.1.is_empty(),
            "Failed for '{:?}'",
            input.0
        );

        if !input.1.is_empty() {
            let bytes = match result {
                DecodeResult::Owned(v) => v,
                _ => unreachable!(),
            };
            let result_str = std::str::from_utf8(&bytes).unwrap();

            assert_eq!(
                input.1,
                result_str,
                "Failed for '{}'",
                input.0.escape_debug()
            );
        }
    }

    // Inputs that once made the boundary matcher read out of bounds.
    for input in [b"\x0a\x0a\x00\x0b".to_vec(), b":B\x0a%".to_vec()] {
        let stream = MessageStream::new(&input[..]);
        decode_quoted_printable(&stream, 0, b"\n\n", true);
        let stream = MessageStream::new(&input[..]);
        decode_quoted_printable(&stream, 0, b"\n\n", false);
        let stream = MessageStream::new(&input[..]);
        decode_quoted_printable(&stream, 0, &[], true);
        let stream = MessageStream::new(&input[..]);
        decode_quoted_printable(&stream, 0, &[], false);
    }
}

#[test]
fn soft_line_break_is_elided() {
    let stream = MessageStream::new(b"J'interdis=\nvite");
    let (bytes_read, result) = decode_quoted_printable(&stream, 0, b"", false);
    assert_eq!(bytes_read, 16);
    assert_eq!(result, DecodeResult::Owned(b"J'interdisvite".to_vec()));

    let joined = MessageStream::new(b"J'interdisvite");
    let (joined_read, joined_result) = decode_quoted_printable(&joined, 0, b"", false);
    assert_eq!(joined_read, 14);
    assert_eq!(joined_result, result);

    let with_cr = MessageStream::new(b"J'interdis=\r\nvite");
    let (cr_read, cr_result) = decode_quoted_printable(&with_cr, 0, b"", false);
    assert_eq!(cr_read, 17);
    assert_eq!(cr_result, result);
}

#[test]
fn decoding_stops_at_the_boundary() {
    let input = "=E2=80=94=E2=80=89Antoine\n--boundary";
    let stream = MessageStream::new(input.as_bytes());
    let (bytes_read, result) = decode_quoted_printable(&stream, 0, b"--boundary", false);
    assert_eq!(bytes_read, input.len());
    assert_eq!(
        result,
        DecodeResult::Owned("\u{2014}\u{2009}Antoine".as_bytes().to_vec())
    );

    // What follows the boundary is not read.
    let input = "=E2=80=94=E2=80=89Antoine\n--boundary\nmore=XX";
    let stream = MessageStream::new(input.as_bytes());
    let (bytes_read, result) = decode_quoted_printable(&stream, 0, b"--boundary", false);
    assert_eq!(bytes_read, "=E2=80=94=E2=80=89Antoine\n--boundary".len());
    assert_eq!(
        result,
        DecodeResult::Owned("\u{2014}\u{2009}Antoine".as_bytes().to_vec())
    );
}

#[test]
fn a_missing_boundary_is_a_failure() {
    let stream = MessageStream::new(b"some text\n--other");
    let (bytes_read, _) = decode_quoted_printable(&stream, 0, b"--boundary", false);
    assert_eq!(bytes_read, 0);
}

#[test]
fn an_unterminated_boundary_is_text() {
    let stream = MessageStream::new(b"a--bX\n--b\n");
    let (bytes_read, result) = decode_quoted_printable(&stream, 0, b"--b", false);
    assert_eq!(bytes_read, 9);
    assert_eq!(result, DecodeResult::Owned(b"a--bX".to_vec()));
}

#[test]
fn failure_returns_nothing() {
    // Two well-formed escapes, then a malformed one: what was decoded before
    // the failure is not returned.
    let stream = MessageStream::new(b"=20=20=XX?=");
    assert_eq!(
        decode_quoted_printable(&stream, 0, b"?=", true),
        (0, DecodeResult::Empty)
    );
    let stream = MessageStream::new(b"some text=\nmore==");
    assert_eq!(
        decode_quoted_printable(&stream, 0, b"", false),
        (0, DecodeResult::Empty)
    );
    // The boundary is missing.
    let stream = MessageStream::new(b"some text");
    assert_eq!(
        decode_quoted_printable(&stream, 0, b"--b", false),
        (0, DecodeResult::Empty)
    );
}
