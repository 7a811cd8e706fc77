use mail_parser::parsers::fields::content_type::parse_content_type;
use mail_parser::parsers::message::MessageStream;
use mail_parser::ContentType;
use mail_parser::HeaderValue;
use std::collections::HashMap;

/// What a field is expected to hold: the type, the subtype and the
/// parameters, in any order.
type Expected = Option<(&'static str, Option<&'static str>, Vec<(&'static str, &'static str)>)>;

fn as_map(attributes: Vec<(String, String)>) -> HashMap<String, String> {
    attributes.into_iter().collect()
}

fn parse(input: &str) -> HeaderValue {
    parse_content_type(&mut MessageStream::new(input.as_bytes()))
}

fn content_type(input: &str) -> ContentType {
    match parse(input) {
        HeaderValue::ContentType(ct) => ct,
        other => panic!("no content type for {:?}: {:?}", input, other),
    }
}

#[test]
fn parse_content_fields() {
    let inputs: Vec<(&str, Expected)> = vec![
        (
            "audio/basic\n",
            Some((
                "audio",
                Some("basic"),
                vec![],
            )),
        ),
        (
            "application/postscript \n",
            Some((
                "application",
                Some("postscript"),
                vec![],
            )),
        ),
        (
            "image/ jpeg\n",
            Some((
                "image",
                Some("jpeg"),
                vec![],
            )),
        ),
        (
            " message / rfc822\n",
            Some((
                "message",
                Some("rfc822"),
                vec![],
            )),
        ),
        (
            "inline\n",
            Some((
                "inline",
                None,
                vec![],
            )),
        ),
        (
            " text/plain; charset =us-ascii (Plain text)\n",
            Some((
                "text",
                Some("plain"),
                vec![
                    ("charset", "us-ascii"),
                ],
            )),
        ),
        (
            "text/plain; charset= \"us-ascii\"\n",
            Some((
                "text",
                Some("plain"),
                vec![
                    ("charset", "us-ascii"),
                ],
            )),
        ),
        (
            "text/plain; charset =ISO-8859-1\n",
            Some((
                "text",
                Some("plain"),
                vec![
                    ("charset", "ISO-8859-1"),
                ],
            )),
        ),
        (
            "text/foo; charset= bar\n",
            Some((
                "text",
                Some("foo"),
                vec![
                    ("charset", "bar"),
                ],
            )),
        ),
        (
            " text /plain; charset=\"iso-8859-1\"; format=flowed\n",
            Some((
                "text",
                Some("plain"),
                vec![
                    ("charset", "iso-8859-1"),
                    ("format", "flowed"),
                ],
            )),
        ),
        (
            "application/pgp-signature; x-mac-type=70674453;\n    name=PGP.sig\n",
            Some((
                "application",
                Some("pgp-signature"),
                vec![
                    ("name", "PGP.sig"),
                    ("x-mac-type", "70674453"),
                ],
            )),
        ),
        (
            "multipart/mixed; boundary=gc0p4Jq0M2Yt08j34c0p\n",
            Some((
                "multipart",
                Some("mixed"),
                vec![
                    ("boundary", "gc0p4Jq0M2Yt08j34c0p"),
                ],
            )),
        ),
        (
            "multipart/mixed; boundary=gc0pJq0M:08jU534c0p\n",
            Some((
                "multipart",
                Some("mixed"),
                vec![
                    ("boundary", "gc0pJq0M:08jU534c0p"),
                ],
            )),
        ),
        (
            "multipart/mixed; boundary=\"gc0pJq0M:08jU534c0p\"\n",
            Some((
                "multipart",
                Some("mixed"),
                vec![
                    ("boundary", "gc0pJq0M:08jU534c0p"),
                ],
            )),
        ),
        (
            "multipart/mixed; boundary=\"simple boundary\"\n",
            Some((
                "multipart",
                Some("mixed"),
                vec![
                    ("boundary", "simple boundary"),
                ],
            )),
        ),
        (
            "multipart/mixed; boundary=\"foo\n bar\"\n",
            Some((
                "multipart",
                Some("mixed"),
                vec![
                    ("boundary", "foo bar"),
                ],
            )),
        ),
        (
            "multipart/alternative; boundary=boundary42\n",
            Some((
                "multipart",
                Some("alternative"),
                vec![
                    ("boundary", "boundary42"),
                ],
            )),
        ),
        (
            " multipart/mixed;\n     boundary=\"---- main boundary ----\"\n",
            Some((
                "multipart",
                Some("mixed"),
                vec![
                    ("boundary", "---- main boundary ----"),
                ],
            )),
        ),
        (
            "multipart/alternative; boundary=42\n",
            Some((
                "multipart",
                Some("alternative"),
                vec![
                    ("boundary", "42"),
                ],
            )),
        ),
        (
            "message/partial; id=\"ABC@host.com\";\n",
            Some((
                "message",
                Some("partial"),
                vec![
                    ("id", "ABC@host.com"),
                ],
            )),
        ),
        (
            "multipart/parallel;boundary=unique-boundary-2\n",
            Some((
                "multipart",
                Some("parallel"),
                vec![
                    ("boundary", "unique-boundary-2"),
                ],
            )),
        ),
        (
            "message/external-body; name=\"BodyFormats.ps\";\n   site=\"thumper.bellcore.com\"; mode=\"image\";\n  access-type=ANON-FTP; directory=\"pub\";\n  expiration=\"Fri, 14 Jun 1991 19:13:14 -0400 (EDT)\"\n",
            Some((
                "message",
                Some("external-body"),
                vec![
                    ("expiration", "Fri, 14 Jun 1991 19:13:14 -0400 (EDT)"),
                    ("site", "thumper.bellcore.com"),
                    ("directory", "pub"),
                    ("name", "BodyFormats.ps"),
                    ("mode", "image"),
                    ("access-type", "ANON-FTP"),
                ],
            )),
        ),
        (
            "message/external-body; access-type=local-file;\n   name=\"/u/nsb/writing/rfcs/RFC-MIME.ps\";\n    site=\"thumper.bellcore.com\";\n  expiration=\"Fri, 14 Jun 1991 19:13:14 -0400 (EDT)\"\n",
            Some((
                "message",
                Some("external-body"),
                vec![
                    ("expiration", "Fri, 14 Jun 1991 19:13:14 -0400 (EDT)"),
                    ("access-type", "local-file"),
                    ("name", "/u/nsb/writing/rfcs/RFC-MIME.ps"),
                    ("site", "thumper.bellcore.com"),
                ],
            )),
        ),
        (
            "message/external-body;\n    access-type=mail-server\n     server=\"listserv@bogus.bitnet\";\n     expiration=\"Fri, 14 Jun 1991 19:13:14 -0400 (EDT)\"\n",
            Some((
                "message",
                Some("external-body"),
                vec![
                    ("access-type", "mail-server"),
                    ("server", "listserv@bogus.bitnet"),
                    ("expiration", "Fri, 14 Jun 1991 19:13:14 -0400 (EDT)"),
                ],
            )),
        ),
        (
            "Message/Partial; number=2; total=3;\n     id=\"oc=jpbe0M2Yt4s@thumper.bellcore.com\"\n",
            Some((
                "message",
                Some("partial"),
                vec![
                    ("total", "3"),
                    ("number", "2"),
                    ("id", "oc=jpbe0M2Yt4s@thumper.bellcore.com"),
                ],
            )),
        ),
        (
            "multipart/signed; micalg=pgp-sha1; protocol=\"application/pgp-signature\";\n   boundary=\"=-J1qXPoyGtE2XNN5N6Z6j\"\n",
            Some((
                "multipart",
                Some("signed"),
                vec![
                    ("boundary", "=-J1qXPoyGtE2XNN5N6Z6j"),
                    ("micalg", "pgp-sha1"),
                    ("protocol", "application/pgp-signature"),
                ],
            )),
        ),
        (
            "message/external-body;\n    access-type=local-file;\n     name=\"/u/nsb/Me.jpeg\"\n",
            Some((
                "message",
                Some("external-body"),
                vec![
                    ("name", "/u/nsb/Me.jpeg"),
                    ("access-type", "local-file"),
                ],
            )),
        ),
        (
            "message/external-body; access-type=URL;\n    URL*0=\"ftp://\";\n    URL*1=\"cs.utk.edu/pub/moore/bulk-mailer/bulk-mailer.tar\"\n",
            Some((
                "message",
                Some("external-body"),
                vec![
                    ("url", "ftp://cs.utk.edu/pub/moore/bulk-mailer/bulk-mailer.tar"),
                    ("access-type", "URL"),
                ],
            )),
        ),
        (
            "message/external-body; access-type=URL;\n     URL=\"ftp://cs.utk.edu/pub/moore/bulk-mailer/bulk-mailer.tar\"\n",
            Some((
                "message",
                Some("external-body"),
                vec![
                    ("url", "ftp://cs.utk.edu/pub/moore/bulk-mailer/bulk-mailer.tar"),
                    ("access-type", "URL"),
                ],
            )),
        ),
        (
            "application/x-stuff;\n     title*=us-ascii'en-us'This%20is%20%2A%2A%2Afun%2A%2A%2A\n",
            Some((
                "application",
                Some("x-stuff"),
                vec![
                    ("title", "This is ***fun***"),
                    ("title-language", "en-us"),
                ],
            )),
        ),
        (
            "application/x-stuff\n   title*0*=us-ascii'en'This%20is%20even%20more%20\n   title*1*=%2A%2A%2Afun%2A%2A%2A%20\n   title*2=\"isn't it!\"\n",
            Some((
                "application",
                Some("x-stuff"),
                vec![
                    ("title-language", "en"),
                    ("title", "This is even more ***fun*** isn't it!"),
                ],
            )),
        ),
        (
            "application/pdf\n   filename*0*=iso-8859-1'es'%D1and%FA\n   filename*1*=iso-8859-1'%20r%E1pido\n   filename*2*=\"iso-8859-1' (versi%F3n \\'99 \\\"oficial\\\").pdf\"\n",
            Some((
                "application",
                Some("pdf"),
                vec![
                    ("filename", "Ñandú rápido (versión '99 \"oficial\").pdf"),
                    ("filename-language", "es"),
                ],
            )),
        ),
        (
            " image/png;\n   name=\"=?utf-8?q?=E3=83=8F=E3=83=AD=E3=83=BC=E3=83=BB=E3=83=AF=E3=83=BC=E3=83=AB=E3=83=89?=.png\"\n",
            Some((
                "image",
                Some("png"),
                vec![
                    ("name", "ハロー・ワールド.png"),
                ],
            )),
        ),
        (
            " image/gif;\n   name==?iso-8859-6?b?5dHNyMcgyMfk2cfk5Q==?=.gif\n",
            Some((
                "image",
                Some("gif"),
                vec![
                    ("name", "مرحبا بالعالم.gif"),
                ],
            )),
        ),
        (
            "image/jpeg;\n   name=\"=?iso-8859-1?B?4Q==?= =?utf-8?B?w6k=?= =?iso-8859-1?q?=ED?=.jpeg\"\n",
            Some((
                "image",
                Some("jpeg"),
                vec![
                    ("name", "á é í.jpeg"),
                ],
            )),
        ),
        (
            "image/jpeg;\n   name==?iso-8859-1?B?4Q==?= =?utf-8?B?w6k=?= =?iso-8859-1?q?=ED?=.jpeg\n",
            Some((
                "image",
                Some("jpeg"),
                vec![
                    ("name", "áéí.jpeg"),
                ],
            )),
        ),
        (
            "image/gif;\n   name==?iso-8859-6?b?5dHNyMcgyMfk2cfk5S5naWY=?=\n",
            Some((
                "image",
                Some("gif"),
                vec![
                    ("name", "مرحبا بالعالم.gif"),
                ],
            )),
        ),
        (
            " image/gif;\n   name=\"=?iso-8859-6?b?5dHNyMcgyMfk2cfk5S5naWY=?=\"\n",
            Some((
                "image",
                Some("gif"),
                vec![
                    ("name", "مرحبا بالعالم.gif"),
                ],
            )),
        ),
        (
            " inline; filename=\"  best \\\"file\\\" ever with \\\\ escaped ' stuff.  \"\n",
            Some((
                "inline",
                None,
                vec![
                    ("filename", "  best \"file\" ever with \\ escaped ' stuff.  "),
                ],
            )),
        ),
        (
            "test/\n",
            Some((
                "test",
                None,
                vec![],
            )),
        ),
        ("/invalid\n", None),
        ("/\n", None),
        (";\n", None),
        ("/ ; name=value\n", None),
        (
            "text/plain;\n",
            Some((
                "text",
                Some("plain"),
                vec![],
            )),
        ),
        (
            "text/plain;;\n",
            Some((
                "text",
                Some("plain"),
                vec![],
            )),
        ),
        (
            "text/plain ;;;;; = ;; name=\"value\"\n",
            Some((
                "text",
                Some("plain"),
                vec![
                    ("name", "value"),
                ],
            )),
        ),
        (
            "=\n",
            Some((
                "=",
                None,
                vec![],
            )),
        ),
        (
            "name=value\n",
            Some((
                "name=value",
                None,
                vec![],
            )),
        ),
        (
            "text/plain; name=  \n",
            Some((
                "text",
                Some("plain"),
                vec![],
            )),
        ),
        (
            "a/b; = \n",
            Some((
                "a",
                Some("b"),
                vec![],
            )),
        ),
        (
            "a/b; = \n \n",
            Some((
                "a",
                Some("b"),
                vec![],
            )),
        ),
        (
            "a/b; =value\n",
            Some((
                "a",
                Some("b"),
                vec![],
            )),
        ),
        (
            "test/test; =\"value\"\n",
            Some((
                "test",
                Some("test"),
                vec![],
            )),
        ),
        (
            "á/é; á=é\n",
            Some((
                "á",
                Some("é"),
                vec![
                    ("á", "é"),
                ],
            )),
        ),
        (
            "inva/lid; name=\"   \n",
            Some((
                "inva",
                Some("lid"),
                vec![
                    ("name", "   "),
                ],
            )),
        ),
        (
            "inva/lid; name=\"   \n    \n",
            Some((
                "inva",
                Some("lid"),
                vec![
                    ("name", "       "),
                ],
            )),
        ),
        (
            "inva/lid; name=\"   \n    \"; test=test\n",
            Some((
                "inva",
                Some("lid"),
                vec![
                    ("test", "test"),
                    ("name", "       "),
                ],
            )),
        ),
        (
            "name=value\n",
            Some((
                "name=value",
                None,
                vec![],
            )),
        ),
        (
            "test/encoded; key4*=us-ascii''foo; key*9999=ba%; key2*0=a; key3*0*=us-ascii'en'xyz; key*0=\"f\u{0}oo\"; key2*1*=b%25; key3*1=plop%; key*1=baz; *=test; =test2;\n",
            Some((
                "test",
                Some("encoded"),
                vec![
                    ("key", "f\u{0}oobazba%"),
                    ("key2", "ab%"),
                    ("key3", "xyzplop%"),
                    ("key4", "foo"),
                    ("key3-language", "en"),
                ],
            )),
        ),
        (
            "text/plain; name*=\"iso-8859-1''HasenundFr%F6sche.txt\"\n",
            Some((
                "text",
                Some("plain"),
                vec![
                    ("name", "HasenundFrösche.txt"),
                ],
            )),
        ),
        (
            "malicious/attempt; 1*2*=a; 3**=b; 4***=c; *5**6*=d;*****7*8*=e; 9*10*11*12*13*14=f; 15*x***fff*===g;1 * 999999999999999999 *= h; 18 *=*=*=*=*==i;\n",
            Some((
                "malicious",
                Some("attempt"),
                vec![
                    ("1", "ha"),
                    ("3", "b"),
                    ("4", "c"),
                    ("5", "d"),
                    ("7", "e"),
                    ("9", "f"),
                    ("15", "==g"),
                    ("18", "*=*=*=*==i"),
                ],
            )),
        ),
        (";charset=us-ascii\n", None),
        (" ;charset=us-ascii\n", None),
        ("/\n", None),
        ("/;charset=us-ascii\n", None),
        ("/ ;charset=us-ascii\n", None),
        (
            "text/\n",
            Some((
                "text",
                None,
                vec![],
            )),
        ),
        (
            "text/;charset=us-ascii\n",
            Some((
                "text",
                None,
                vec![
                    ("charset", "us-ascii"),
                ],
            )),
        ),
        (
            "text/ ;charset=us-ascii\n",
            Some((
                "text",
                None,
                vec![
                    ("charset", "us-ascii"),
                ],
            )),
        ),
        ("/plain\n", None),
        ("/plain;charset=us-ascii\n", None),
        ("/plain ;charset=us-ascii\n", None),
        (
            "text/plain\n",
            Some((
                "text",
                Some("plain"),
                vec![],
            )),
        ),
        (
            "text/plain;charset=us-ascii\n",
            Some((
                "text",
                Some("plain"),
                vec![
                    ("charset", "us-ascii"),
                ],
            )),
        ),
        (
            "text/plain ;charset=us-ascii\n",
            Some((
                "text",
                Some("plain"),
                vec![
                    ("charset", "us-ascii"),
                ],
            )),
        ),
        (
            "text/plain/format\n",
            Some((
                "text",
                Some("plain/format"),
                vec![],
            )),
        ),
        (
            "text/plain/format;charset=us-ascii\n",
            Some((
                "text",
                Some("plain/format"),
                vec![
                    ("charset", "us-ascii"),
                ],
            )),
        ),
        (
            "text/plain/format ;charset=us-ascii\n",
            Some((
                "text",
                Some("plain/format"),
                vec![
                    ("charset", "us-ascii"),
                ],
            )),
        ),
        (
            "application/ld+json\n",
            Some((
                "application",
                Some("ld+json"),
                vec![],
            )),
        ),
        (
            "application/ld+json;charset=us-ascii\n",
            Some((
                "application",
                Some("ld+json"),
                vec![
                    ("charset", "us-ascii"),
                ],
            )),
        ),
        (
            "application/ld+json ;charset=us-ascii\n",
            Some((
                "application",
                Some("ld+json"),
                vec![
                    ("charset", "us-ascii"),
                ],
            )),
        ),
        (
            "application/x-magic-cap-package-1.0\n",
            Some((
                "application",
                Some("x-magic-cap-package-1.0"),
                vec![],
            )),
        ),
        (
            "application/x-magic-cap-package-1.0;charset=us-ascii\n",
            Some((
                "application",
                Some("x-magic-cap-package-1.0"),
                vec![
                    ("charset", "us-ascii"),
                ],
            )),
        ),
        (
            "application/x-magic-cap-package-1.0 ;charset=us-ascii\n",
            Some((
                "application",
                Some("x-magic-cap-package-1.0"),
                vec![
                    ("charset", "us-ascii"),
                ],
            )),
        ),
        (
            "application/pro_eng\n",
            Some((
                "application",
                Some("pro_eng"),
                vec![],
            )),
        ),
        (
            "application/pro_eng;charset=us-ascii\n",
            Some((
                "application",
                Some("pro_eng"),
                vec![
                    ("charset", "us-ascii"),
                ],
            )),
        ),
        (
            "application/pro_eng ;charset=us-ascii\n",
            Some((
                "application",
                Some("pro_eng"),
                vec![
                    ("charset", "us-ascii"),
                ],
            )),
        ),
        (
            "application/wordperfect6.1\n",
            Some((
                "application",
                Some("wordperfect6.1"),
                vec![],
            )),
        ),
        (
            "application/wordperfect6.1;charset=us-ascii\n",
            Some((
                "application",
                Some("wordperfect6.1"),
                vec![
                    ("charset", "us-ascii"),
                ],
            )),
        ),
        (
            "application/wordperfect6.1 ;charset=us-ascii\n",
            Some((
                "application",
                Some("wordperfect6.1"),
                vec![
                    ("charset", "us-ascii"),
                ],
            )),
        ),
        (
            "application/vnd.openxmlformats-officedocument.wordprocessingml.template\n",
            Some((
                "application",
                Some("vnd.openxmlformats-officedocument.wordprocessingml.template"),
                vec![],
            )),
        ),
        (
            "application/vnd.openxmlformats-officedocument.wordprocessingml.template;charset=us-ascii\n",
            Some((
                "application",
                Some("vnd.openxmlformats-officedocument.wordprocessingml.template"),
                vec![
                    ("charset", "us-ascii"),
                ],
            )),
        ),
        (
            "application/vnd.openxmlformats-officedocument.wordprocessingml.template ;charset=us-asii\n",
            Some((
                "application",
                Some("vnd.openxmlformats-officedocument.wordprocessingml.template"),
                vec![
                    ("charset", "us-asii"),
                ],
            )),
        ),
        (
            "(hello) text (plain) / (world) plain (eod)\n",
            Some((
                "text",
                Some("plain"),
                vec![],
            )),
        ),
        (
            "(hello) text (plain) / (world) plain (eod);charset=us-ascii\n",
            Some((
                "text",
                Some("plain"),
                vec![
                    ("charset", "us-ascii"),
                ],
            )),
        ),
        (
            "(hello) text (plain) / (world) plain (eod); charset=us-ascii\n",
            Some((
                "text",
                Some("plain"),
                vec![
                    ("charset", "us-ascii"),
                ],
            )),
        ),
        (
            "message/rfc822\r\n\n",
            Some((
                "message",
                Some("rfc822"),
                vec![],
            )),
        ),
        (
            " \t\r message/rfc822 \t\r\n\n",
            Some((
                "message",
                Some("rfc822"),
                vec![],
            )),
        ),
        (
            " \t\r message/rfc822 \t ;charset=us-ascii\r\n\n",
            Some((
                "message",
                Some("rfc822"),
                vec![
                    ("charset", "us-ascii"),
                ],
            )),
        ),
        (
            " \t\r message/rfc822 \t ; charset=us-ascii\r\n",
            Some((
                "message",
                Some("rfc822"),
                vec![
                    ("charset", "us-ascii"),
                ],
            )),
        ),
    ];

    for input in inputs {
        let str = input.0.to_string();
        let result = match parse_content_type(&mut MessageStream::new(str.as_bytes())) {
            HeaderValue::ContentType(ct) => Some((
                ct.c_type,
                ct.c_subtype,
                ct.attributes.map(as_map),
            )),
            HeaderValue::Empty => None,
            _ => unreachable!(),
        };
        let expected = input.1.map(|(c_type, c_subtype, attributes)| {
            (
                c_type.to_string(),
                c_subtype.map(|s| s.to_string()),
                if attributes.is_empty() {
                    None
                } else {
                    Some(
                        attributes
                            .into_iter()
                            .map(|(k, v)| (k.to_string(), v.to_string()))
                            .collect::<HashMap<String, String>>(),
                    )
                },
            )
        });

        assert_eq!(result, expected, "Failed for '{:?}'", input.0);
    }
}

#[test]
fn type_subtype_and_parameter() {
    let ct = content_type("text/plain; charset=us-ascii\n");
    assert_eq!(ct.c_type, "text");
    assert_eq!(ct.c_subtype.as_deref(), Some("plain"));
    assert_eq!(
        ct.attributes,
        Some(vec![("charset".to_string(), "us-ascii".to_string())])
    );
    assert_eq!(ct.get_type(), "text");
    assert_eq!(ct.get_subtype(), Some("plain"));
    assert_eq!(ct.get_attribute("charset"), Some("us-ascii"));
    assert_eq!(ct.get_attribute("boundary"), None);
    assert!(ct.has_attribute("charset"));
    assert!(!ct.has_attribute("name"));
}

#[test]
fn quotes_are_stripped() {
    let ct = content_type("multipart/mixed; boundary=\"simple boundary\"\n");
    assert_eq!(ct.get_attribute("boundary"), Some("simple boundary"));
}

#[test]
fn names_are_lowercased_and_values_keep_their_case() {
    let ct = content_type("TEXT/Plain; CharSet=ISO-8859-1\n");
    assert_eq!(ct.c_type, "text");
    assert_eq!(ct.c_subtype.as_deref(), Some("plain"));
    assert_eq!(
        ct.attributes,
        Some(vec![("charset".to_string(), "ISO-8859-1".to_string())])
    );
}

#[test]
fn continuations_are_joined_in_order() {
    let ct = content_type(
        "application/x-stuff;\n title*0*=us-ascii'en'This%20is%20even%20more%20\n title*1*=%2A%2A%2Afun%2A%2A%2A%20\n title*2=\"isn't it!\"\n",
    );
    assert_eq!(
        ct.get_attribute("title"),
        Some("This is even more ***fun*** isn't it!")
    );
    assert_eq!(ct.get_attribute("title-language"), Some("en"));
}

#[test]
fn reordered_continuations_give_the_same_values() {
    let in_order = content_type(
        "application/x-stuff; title*0=\"one \"; title*1=\"two \"; title*2=three; title*3=\"! \"\n",
    );
    let orders = [
        "application/x-stuff; title*3=\"! \"; title*2=three; title*1=\"two \"; title*0=\"one \"\n",
        "application/x-stuff; title*2=three; title*0=\"one \"; title*3=\"! \"; title*1=\"two \"\n",
        "application/x-stuff; title*1=\"two \"; title*3=\"! \"; title*0=\"one \"; title*2=three\n",
    ];
    assert_eq!(in_order.get_attribute("title"), Some("one two three! "));
    for input in orders {
        let ct = content_type(input);
        assert_eq!(
            ct.get_attribute("title"),
            in_order.get_attribute("title"),
            "Failed for {:?}",
            input
        );
    }
}

#[test]
fn segment_numbers_above_the_limit_count_as_zero() {
    // 9999 is the last number of a segment; 10000 is read as no number.
    let ct = content_type("a/b; k*9999=last; k*1=first\n");
    assert_eq!(ct.get_attribute("k"), Some("firstlast"));
    let ct = content_type("a/b; k*10000=x; k*1=y\n");
    assert_eq!(ct.get_attribute("k"), Some("xy"));
    let ct = content_type("a/b; k*1x=x; k*1=y\n");
    assert_eq!(ct.get_attribute("k"), Some("xy"));
}

/// Writes a content type in its plain form: type, subtype and parameters
/// with quoted values.
fn canonical(ct: &ContentType) -> String {
    let mut out = ct.c_type.clone();
    if let Some(subtype) = &ct.c_subtype {
        out.push('/');
        out.push_str(subtype);
    }
    if let Some(attributes) = &ct.attributes {
        for (name, value) in attributes {
            out.push_str("; ");
            out.push_str(name);
            out.push_str("=\"");
            for ch in value.chars() {
                if ch == '"' || ch == '\\' {
                    out.push('\\');
                }
                out.push(ch);
            }
            out.push('"');
        }
    }
    out.push('\n');
    out
}

#[test]
fn parsing_the_plain_form_gives_the_same_content_type() {
    let inputs = [
        "text/plain; charset=us-ascii\n",
        "multipart/mixed; boundary=\"simple boundary\"\n",
        "application/x-stuff;\n title*0*=us-ascii'en'This%20is%20even%20more%20\n title*1*=%2A%2A%2Afun%2A%2A%2A%20\n title*2=\"isn't it!\"\n",
        "message/external-body; access-type=URL;\n    URL*0=\"ftp://\";\n    URL*1=\"cs.utk.edu/pub/moore/bulk-mailer/bulk-mailer.tar\"\n",
        " inline; filename=\"  best \\\"file\\\" ever with \\\\ escaped ' stuff.  \"\n",
        "(hello) text (plain) / (world) plain (eod); charset=us-ascii\n",
        "inline\n",
        "image/gif;\n   name==?iso-8859-6?b?5dHNyMcgyMfk2cfk5S5naWY=?=\n",
    ];
    for input in inputs {
        let first = content_type(input);
        let second = content_type(&canonical(&first));
        assert_eq!(first, second, "Failed for {:?}", input);
        let third = content_type(&canonical(&second));
        assert_eq!(second, third, "Failed for {:?}", input);
    }
}

#[test]
fn a_field_without_a_type_is_empty() {
    assert_eq!(parse("/invalid\n"), HeaderValue::Empty);
    assert_eq!(parse(";charset=us-ascii\n"), HeaderValue::Empty);
    assert_eq!(parse("\n"), HeaderValue::Empty);
    // A field that the input cuts short has no value either.
    assert_eq!(parse("text/plain; charset=us-ascii"), HeaderValue::Empty);
}

#[test]
fn the_stream_is_left_behind_the_field() {
    let input = "text/plain;\n charset=us-ascii\nSubject: next\n";
    let mut stream = MessageStream::new(input.as_bytes());
    let value = parse_content_type(&mut stream);
    assert!(matches!(value, HeaderValue::ContentType(_)));
    assert_eq!(stream.pos, input.find("Subject").unwrap());
}

#[test]
fn disposition_kinds() {
    let ct = content_type("attachment; filename=a.txt\n");
    assert!(ct.is_attachment());
    assert!(!ct.is_inline());
    let ct = content_type("inline\n");
    assert!(ct.is_inline());
    assert!(!ct.is_attachment());
}

#[test]
fn of_a_repeated_name_the_first_value_is_kept() {
    let ct = content_type("text/plain; a=1; a=2\n");
    assert_eq!(
        ct.attributes,
        Some(vec![("a".to_string(), "1".to_string())])
    );
    let ct = content_type("text/plain; a=1; b=2; A=3; b=\"4\"; c=5\n");
    assert_eq!(
        ct.attributes,
        Some(vec![
            ("a".to_string(), "1".to_string()),
            ("b".to_string(), "2".to_string()),
            ("c".to_string(), "5".to_string()),
        ])
    );
    // The language of an extended value and a parameter of that name.
    let ct = content_type("a/b; t*=utf-8'en'x; t-language=de\n");
    assert_eq!(
        ct.attributes,
        Some(vec![
            ("t-language".to_string(), "en".to_string()),
            ("t".to_string(), "x".to_string()),
        ])
    );
    // Numbered segments join the parameter of their name.
    let ct = content_type("a/b; t=one; t*1=two; t*0=zero\n");
    assert_eq!(
        ct.attributes,
        Some(vec![("t".to_string(), "onetwo".to_string())])
    );
}

#[test]
fn names_are_distinct() {
    let inputs = [
        "text/plain; a=1; a=2\n",
        "a/b; x*1=1; x*2=2; y*1=3; x=0; y=4; x=5\n",
        "a/b; t*0*=utf-8'en'a; t*0*=utf-8'de'b; t-language=fr\n",
        "test/encoded; key4*=us-ascii''foo; key*9999=ba%; key2*0=a; key*0=\"f\"; key2*1*=b%25; key*1=baz;\n",
    ];
    for input in inputs {
        let ct = content_type(input);
        let attributes = ct.attributes.unwrap();
        assert!(!attributes.is_empty());
        for (i, first) in attributes.iter().enumerate() {
            for second in &attributes[i + 1..] {
                assert_ne!(first.0, second.0, "Failed for {:?}", input);
            }
        }
    }
}

#[test]
fn a_content_type_ends_behind_its_field() {
    let inputs = [
        "text/plain; name=\"a\n b\"; x=(comment\n still) y\nNext: field\n",
        "text/plain; name==?utf-8?b?w6k=?=\n ; z=1\nNext: field\n",
        "text/plain; name=\"=?utf-8?b?w6\nNext: field\n",
        "\nNext: field\n",
    ];
    for input in inputs {
        let mut stream = MessageStream::new(input.as_bytes());
        parse_content_type(&mut stream);
        assert_eq!(stream.pos, input.find("Next").unwrap(), "Failed for {:?}", input);
    }
    let mut stream = MessageStream::new(b"text/plain; cut short");
    parse_content_type(&mut stream);
    assert_eq!(stream.pos, 21);
}
