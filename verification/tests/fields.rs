use mail_parser::parsers::fields::list::parse_comma_separared;
use mail_parser::parsers::fields::raw::parse_and_ignore;
use mail_parser::parsers::fields::raw::parse_raw;
use mail_parser::parsers::message::MessageStream;
use mail_parser::HeaderValue;

#[test]
fn parse_comma_separated_text() {
    let inputs = [
        (" one item  \n", vec!["one item"]),
        ("simple, list\n", vec!["simple", "list"]),
        (
            "multi \r\n list, \r\n with, cr lf  \r\n",
            vec!["multi list", "with", "cr lf"],
        ),
        (
            "=?iso-8859-1?q?this is some text?=, in, a, list, \n",
            vec!["this is some text", "in", "a", "list"],
        ),
        (
            " =?ISO-8859-1?B?SWYgeW91IGNhbiByZWFkIHRoaXMgeW8=?=\n     =?ISO-8859-2?B?dSB1bmRlcnN0YW5kIHRoZSBleGFtcGxlLg==?=\n , but, in a list, which, is, more, fun!\n",
            vec![
                "If you can read this you understand the example.",
                "but",
                "in a list",
                "which",
                "is",
                "more",
                "fun!",
            ],
        ),
        (
            "=?ISO-8859-1?Q?a?= =?ISO-8859-1?Q?b?=\n , listed\n",
            vec!["ab", "listed"],
        ),
        (
            "ハロー・ワールド, and also, ascii terms\n",
            vec!["ハロー・ワールド", "and also", "ascii terms"],
        ),
    ];

    for input in inputs {
        let str = input.0.to_string();

        match parse_comma_separared(&mut MessageStream::new(str.as_bytes())) {
            HeaderValue::TextList(ids) => {
                assert_eq!(ids, input.1, "Failed to parse '{:?}'", input.0);
            }
            HeaderValue::Text(id) => {
                assert!(input.1.len() == 1, "Failed to parse '{:?}'", input.0);
                assert_eq!(id, input.1[0], "Failed to parse '{:?}'", input.0);
            }
            _ => panic!("Unexpected result"),
        }
    }
}

#[test]
fn an_empty_list_has_no_value() {
    let mut stream = MessageStream::new(b" , ,, \n");
    assert_eq!(parse_comma_separared(&mut stream), HeaderValue::Empty);
    assert_eq!(stream.pos, 7);
}

#[test]
fn a_list_cut_short_has_no_value() {
    let mut stream = MessageStream::new(b"one, two");
    assert_eq!(parse_comma_separared(&mut stream), HeaderValue::Empty);
    assert_eq!(stream.pos, 8);
}

#[test]
fn parse_raw_text() {
    let inputs = [
        ("Saying Hello\nMessage-Id", "Saying Hello"),
        ("Re: Saying Hello\r\n \r\nFrom:", "Re: Saying Hello"),
        (
            " from x.y.test\n      by example.net\n      via TCP\n      with ESMTP\n      id ABC12345\n      for <mary@example.net>;  21 Nov 1997 10:05:43 -0600\n",
            "from x.y.test\n      by example.net\n      via TCP\n      with ESMTP\n      id ABC12345\n      for <mary@example.net>;  21 Nov 1997 10:05:43 -0600",
        ),
    ];

    for input in inputs {
        let str = input.0.to_string();
        assert_eq!(
            parse_raw(&mut MessageStream::new(str.as_bytes())).unwrap(),
            input.1,
            "Failed for '{:?}'",
            input.0
        );
    }
}

#[test]
fn parse_raw_moves_behind_the_field() {
    let mut stream = MessageStream::new(b"Saying Hello\nMessage-Id");
    assert_eq!(parse_raw(&mut stream), Some("Saying Hello".to_string()));
    assert_eq!(stream.pos, 13);

    let mut stream = MessageStream::new(b"  \r\n\t \r\nnext");
    assert_eq!(parse_raw(&mut stream), None);
    assert_eq!(stream.pos, 8);

    let mut stream = MessageStream::new(b"no line feed");
    assert_eq!(parse_raw(&mut stream), None);
    assert_eq!(stream.pos, 12);
}

#[test]
fn parse_and_ignore_moves_behind_the_field() {
    let mut stream = MessageStream::new(b"folded\n value\nnext: field\n");
    parse_and_ignore(&mut stream);
    assert_eq!(stream.pos, 14);
    parse_and_ignore(&mut stream);
    assert_eq!(stream.pos, 26);
    parse_and_ignore(&mut stream);
    assert_eq!(stream.pos, 26);
}

#[test]
fn a_list_ends_behind_its_field() {
    let input = "one,\n two =?utf-8?q?three?=\r\n\tfour\nNext: field\n";
    let mut stream = MessageStream::new(input.as_bytes());
    assert_eq!(
        parse_comma_separared(&mut stream),
        HeaderValue::TextList(vec!["one".to_string(), "two three four".to_string()])
    );
    assert_eq!(stream.pos, input.find("Next").unwrap());
}
