use mail_parser::decoders::DecodeResult;
use mail_parser::parsers::header::parse_headers;
use mail_parser::parsers::message::MessageStream;
use mail_parser::parsers::mime::get_bytes_to_boundary;
use mail_parser::parsers::mime::is_boundary_end;
use mail_parser::parsers::mime::seek_crlf;
use mail_parser::parsers::mime::seek_next_part;
use mail_parser::parsers::mime::skip_crlf;
use mail_parser::parsers::mime::skip_multipart_end;
use mail_parser::parsers::part::get_mime_type;
use mail_parser::parsers::part::MimeType;
use mail_parser::ContentType;
use mail_parser::Encoding;
use mail_parser::Header;
use mail_parser::HeaderName;
use mail_parser::HeaderValue;
use mail_parser::Message;
use mail_parser::MessageAttachment;
use mail_parser::PartType;

/// Checks that a body to which no transfer encoding was applied is what
/// stands between the offsets of its part. An empty body is written `?`.
fn check_slice(raw: &[u8], part: &mail_parser::MessagePart) {
    if part.encoding != Encoding::Identity {
        return;
    }
    let slice = &raw[part.offset_body..part.offset_end];
    match &part.body {
        PartType::Binary(bytes)
        | PartType::InlineBinary(bytes)
        | PartType::Message(MessageAttachment::Raw(bytes)) => {
            if bytes.is_empty() {
                assert!(part.is_encoding_problem);
            } else if slice.is_empty() {
                assert_eq!(bytes, b"?");
            } else {
                assert_eq!(bytes, slice);
            }
        }
        _ => {}
    }
}

/// Checks what holds of every parsed message.
fn check(message: &Message, len: usize) {
    check_in(message, len, None)
}

fn check_in(message: &Message, len: usize, raw: Option<&[u8]>) {
    let count = message.parts.len();
    if let Some(raw) = raw {
        for part in &message.parts {
            check_slice(raw, part);
        }
    }
    for list in [&message.text_body, &message.html_body, &message.attachments] {
        for id in list {
            assert!(*id < count, "part {} of {}", id, count);
        }
    }
    for (id, part) in message.parts.iter().enumerate() {
        assert!(part.offset_header <= part.offset_body, "part {}", id);
        assert!(part.offset_body <= part.offset_end, "part {}", id);
        assert!(part.offset_end <= len, "part {}", id);
        let listed = message.text_body.contains(&id)
            || message.html_body.contains(&id)
            || message.attachments.contains(&id);
        match &part.body {
            PartType::Multipart(children) => {
                assert!(!listed, "part {}", id);
                for child in children {
                    assert!(*child < count, "part {}", id);
                }
            }
            PartType::Message(nested) => {
                assert!(message.attachments.contains(&id), "part {}", id);
                if let MessageAttachment::Parsed(nested) = nested {
                    check_in(nested, len, raw);
                }
            }
            _ => assert!(listed, "part {}", id),
        }
    }
}

fn parse(input: &str) -> Message {
    let message = Message::parse(input.as_bytes()).unwrap();
    assert_eq!(message.raw_message, input.as_bytes());
    assert!(!message.is_empty());
    assert_eq!(message.parts[0].offset_header, 0);
    assert_eq!(message.parts[0].offset_end, input.len());
    check_in(&message, input.len(), Some(input.as_bytes()));
    message
}

fn text(message: &Message, id: usize) -> &str {
    match &message.parts[id].body {
        PartType::Text(text) => text,
        other => panic!("part {} is no text: {:?}", id, other),
    }
}

fn html(message: &Message, id: usize) -> &str {
    match &message.parts[id].body {
        PartType::Html(text) => text,
        other => panic!("part {} is no HTML: {:?}", id, other),
    }
}

fn children(message: &Message, id: usize) -> &Vec<usize> {
    match &message.parts[id].body {
        PartType::Multipart(children) => children,
        other => panic!("part {} is no multipart: {:?}", id, other),
    }
}

#[test]
fn nothing_without_a_header() {
    assert!(Message::parse(b"").is_none());
    assert!(Message::parse(b"\n").is_none());
    assert!(Message::parse(b"\r\nSubject: late\r\n\r\nbody").is_none());
    assert!(Message::parse(b"no colon in sight").is_none());
    assert!(Message::new().is_empty());
}

#[test]
fn a_plain_message() {
    let input = "From: a@example.org\r\nSubject: Hello\r\n\r\nSome text.\r\nMore text.\r\n";
    let message = parse(input);
    assert_eq!(message.parts.len(), 1);
    assert_eq!(text(&message, 0), "Some text.\r\nMore text.\r\n");
    assert_eq!(message.text_body, vec![0]);
    assert_eq!(message.html_body, vec![0]);
    assert!(message.attachments.is_empty());
    let part = &message.parts[0];
    assert_eq!(part.offset_body, input.find("Some text").unwrap());
    assert_eq!(part.encoding, Encoding::Identity);
    assert!(!part.is_encoding_problem);
    assert_eq!(
        part.headers,
        vec![
            Header {
                name: HeaderName::Other("from".to_string()),
                value: HeaderValue::Text("a@example.org".to_string()),
            },
            Header {
                name: HeaderName::Other("subject".to_string()),
                value: HeaderValue::Text("Hello".to_string()),
            },
        ]
    );
    assert_eq!(
        &input.as_bytes()[part.offset_body..part.offset_end],
        text(&message, 0).as_bytes()
    );
}

#[test]
fn headers_only() {
    let message = parse("Subject: no body\r\n");
    assert_eq!(message.parts.len(), 1);
    assert!(message.parts[0].is_encoding_problem);
    match &message.parts[0].body {
        PartType::Binary(bytes) => assert!(bytes.is_empty()),
        other => panic!("{:?}", other),
    }
    assert_eq!(message.attachments, vec![0]);
}

const ALTERNATIVE: &str = "From: a@example.org\r\nContent-Type: multipart/alternative; boundary=\"b1\"\r\n\r\n--b1\r\nContent-Type: text/plain\r\n\r\nplain text\r\n--b1\r\nContent-Type: text/html\r\n\r\n<p>html</p>\r\n--b1--\r\n";

#[test]
fn an_alternative_of_text_and_html() {
    let message = parse(ALTERNATIVE);
    assert_eq!(message.parts.len(), 3);
    assert_eq!(children(&message, 0), &vec![1, 2]);
    assert_eq!(text(&message, 1), "plain text");
    assert_eq!(html(&message, 2), "<p>html</p>");
    assert_eq!(message.text_body, vec![1]);
    assert_eq!(message.html_body, vec![2]);
    assert!(message.attachments.is_empty());

    let plain = &message.parts[1];
    assert_eq!(plain.offset_header, ALTERNATIVE.find("Content-Type: text/plain").unwrap());
    assert_eq!(plain.offset_body, ALTERNATIVE.find("plain text").unwrap());
    assert_eq!(plain.offset_end, plain.offset_body + "plain text".len());
    assert_eq!(
        &ALTERNATIVE.as_bytes()[plain.offset_body..plain.offset_end],
        b"plain text"
    );
    let rich = &message.parts[2];
    assert_eq!(
        &ALTERNATIVE.as_bytes()[rich.offset_body..rich.offset_end],
        b"<p>html</p>"
    );
    let root = &message.parts[0];
    assert_eq!(root.offset_body, ALTERNATIVE.find("--b1").unwrap());
}

#[test]
fn an_alternative_of_html_alone() {
    let input = "From: a@example.org\r\nContent-Type: multipart/alternative; boundary=\"b1\"\r\n\r\n--b1\r\nContent-Type: text/html\r\n\r\n<p>html</p>\r\n--b1--\r\n";
    let message = parse(input);
    assert_eq!(message.parts.len(), 2);
    assert_eq!(children(&message, 0), &vec![1]);
    assert_eq!(html(&message, 1), "<p>html</p>");
    assert_eq!(message.text_body, vec![1]);
    assert_eq!(message.html_body, vec![1]);
    assert!(message.attachments.is_empty());
}

#[test]
fn an_alternative_of_text_alone() {
    let input = "Content-Type: multipart/alternative; boundary=b1\n\n--b1\nContent-Type: text/plain\n\nplain\n--b1--\n";
    let message = parse(input);
    assert_eq!(text(&message, 1), "plain");
    assert_eq!(message.text_body, vec![1]);
    assert_eq!(message.html_body, vec![1]);
    assert!(message.attachments.is_empty());
}

#[test]
fn a_mixed_message_with_attachments() {
    let input = "Subject: files\r\nContent-Type: multipart/mixed; boundary=\"xyz\"\r\n\r\npreamble\r\n--xyz\r\nContent-Type: text/plain; charset=iso-8859-1\r\nContent-Transfer-Encoding: quoted-printable\r\n\r\ncaf=E9 au lait=\r\n!\r\n--xyz\r\nContent-Type: application/octet-stream; name=\"data.bin\"\r\nContent-Transfer-Encoding: base64\r\nContent-Disposition: attachment; filename=\"data.bin\"\r\n\r\nAAEC\r\nAwQ=\r\n--xyz\r\nContent-Type: image/png\r\n\r\nPNG\r\n--xyz--\r\nepilogue\r\n";
    let message = parse(input);
    assert_eq!(message.parts.len(), 4);
    assert_eq!(children(&message, 0), &vec![1, 2, 3]);
    assert_eq!(text(&message, 1), "café au lait!");
    assert_eq!(message.parts[1].encoding, Encoding::QuotedPrintable);
    assert_eq!(message.parts[2].encoding, Encoding::Base64);
    assert_eq!(message.parts[2].body, PartType::Binary(vec![0, 1, 2, 3, 4]));
    assert_eq!(message.parts[3].encoding, Encoding::Identity);
    assert_eq!(
        message.parts[3].body,
        PartType::InlineBinary(b"PNG".to_vec())
    );
    assert_eq!(message.text_body, vec![1, 3]);
    assert_eq!(message.html_body, vec![1, 3]);
    assert_eq!(message.attachments, vec![2, 3]);
    for part in &message.parts {
        assert!(!part.is_encoding_problem);
    }
    let binary = &message.parts[2];
    assert_eq!(
        &input.as_bytes()[binary.offset_body..binary.offset_end],
        b"AAEC\r\nAwQ="
    );
}

#[test]
fn nested_multiparts() {
    let input = "Content-Type: multipart/mixed; boundary=outer\n\n--outer\nContent-Type: multipart/alternative; boundary=inner\n\n--inner\nContent-Type: text/plain\n\nplain\n--inner\nContent-Type: text/html\n\n<b>html</b>\n--inner--\n--outer\nContent-Type: application/pdf; name=a.pdf\n\nPDF\n--outer--\n";
    let message = parse(input);
    assert_eq!(message.parts.len(), 5);
    assert_eq!(children(&message, 0), &vec![1, 4]);
    assert_eq!(children(&message, 1), &vec![2, 3]);
    assert_eq!(text(&message, 2), "plain");
    assert_eq!(html(&message, 3), "<b>html</b>");
    assert_eq!(message.parts[4].body, PartType::Binary(b"PDF".to_vec()));
    assert_eq!(message.text_body, vec![2]);
    assert_eq!(message.html_body, vec![3]);
    assert_eq!(message.attachments, vec![4]);
    let inner = &message.parts[1];
    assert_eq!(inner.offset_header, input.find("Content-Type: multipart/alternative").unwrap());
    assert_eq!(inner.offset_end, input.find("--outer\nContent-Type: application").unwrap());
}

#[test]
fn a_message_within_the_message() {
    let input = "Subject: outer\nContent-Type: multipart/mixed; boundary=b\n\n--b\nContent-Type: text/plain\n\nsee attached\n--b\nContent-Type: message/rfc822\n\nSubject: inner\nContent-Type: text/html\n\n<i>inner</i>\n--b--\n";
    let message = parse(input);
    assert_eq!(message.parts.len(), 3);
    assert_eq!(children(&message, 0), &vec![1, 2]);
    assert_eq!(text(&message, 1), "see attached");
    assert_eq!(message.text_body, vec![1]);
    assert_eq!(message.html_body, vec![1]);
    assert_eq!(message.attachments, vec![2]);
    let holder = &message.parts[2];
    let nested = match &holder.body {
        PartType::Message(MessageAttachment::Parsed(nested)) => nested,
        other => panic!("{:?}", other),
    };
    assert_eq!(nested.parts.len(), 1);
    assert_eq!(html(nested, 0), "<i>inner</i>");
    assert_eq!(nested.html_body, vec![0]);
    assert_eq!(nested.text_body, vec![0]);
    assert!(nested.attachments.is_empty());
    assert_eq!(
        nested.raw_message,
        b"Subject: inner\nContent-Type: text/html\n\n<i>inner</i>".to_vec()
    );
    assert_eq!(holder.offset_body, input.find("Subject: inner").unwrap());
    assert_eq!(holder.offset_end, input.find("\n--b--").unwrap());
    assert_eq!(nested.parts[0].offset_header, holder.offset_body);
}

#[test]
fn a_message_as_the_whole_message() {
    let input = "Content-Type: message/rfc822\n\nSubject: inner\n\ninner text\n";
    let message = parse(input);
    assert_eq!(message.parts.len(), 1);
    assert_eq!(message.attachments, vec![0]);
    let nested = match &message.parts[0].body {
        PartType::Message(MessageAttachment::Parsed(nested)) => nested,
        other => panic!("{:?}", other),
    };
    assert_eq!(text(nested, 0), "inner text\n");
    assert_eq!(nested.raw_message, b"Subject: inner\n\ninner text\n".to_vec());
}

#[test]
fn an_encoded_message_is_not_parsed() {
    let input = "Content-Type: message/rfc822\nContent-Transfer-Encoding: base64\n\nU3ViamVjdDogeAoKYm9keQ==\n";
    let message = parse(input);
    assert_eq!(
        message.parts[0].body,
        PartType::Message(MessageAttachment::Raw(b"Subject: x\n\nbody".to_vec()))
    );
    assert_eq!(message.attachments, vec![0]);
    assert!(message.text_body.is_empty());
}

#[test]
fn a_digest_holds_messages() {
    let input = "Content-Type: multipart/digest; boundary=d\n\n--d\n\nignored\n--d--\n";
    // A part without header fields ends the walk: nothing is read of it.
    let message = parse(input);
    assert_eq!(message.parts.len(), 1);
    assert!(children(&message, 0).is_empty());

    let input = "Content-Type: multipart/digest; boundary=d\n\n--d\nX-Note: first\n\nSubject: one\n\ntext one\n--d--\n";
    let message = parse(input);
    assert_eq!(message.parts.len(), 2);
    let nested = match &message.parts[1].body {
        PartType::Message(MessageAttachment::Parsed(nested)) => nested,
        other => panic!("{:?}", other),
    };
    assert_eq!(text(nested, 0), "text one");
}

#[test]
fn a_multipart_without_its_boundary_is_text() {
    let input = "Content-Type: multipart/mixed; boundary=gone\n\nno boundary anywhere\n";
    let message = parse(input);
    assert_eq!(message.parts.len(), 1);
    assert_eq!(text(&message, 0), "no boundary anywhere\n");
    assert!(!message.parts[0].is_encoding_problem);
}

#[test]
fn a_multipart_that_is_cut_short() {
    let input = "Content-Type: multipart/mixed; boundary=b\n\n--b\nContent-Type: text/plain\n\nfirst\n--b\nContent-Type: text/plain\n\nsecond without an end";
    let message = parse(input);
    assert_eq!(message.parts.len(), 3);
    assert_eq!(children(&message, 0), &vec![1, 2]);
    assert_eq!(text(&message, 1), "first");
    // The boundary is missing: the rest of the input is taken as it stands.
    assert_eq!(text(&message, 2), "second without an end");
    assert!(message.parts[2].is_encoding_problem);
    assert_eq!(message.parts[2].offset_end, input.len());
}

#[test]
fn a_body_that_cannot_be_decoded_is_taken_as_it_stands() {
    let input = "Content-Type: multipart/mixed; boundary=b\n\n--b\nContent-Type: application/octet-stream\nContent-Transfer-Encoding: base64\n\n*** not base64 ***\n--b--\n";
    let message = parse(input);
    assert_eq!(message.parts.len(), 2);
    assert_eq!(text(&message, 1), "*** not base64 ***");
    assert!(message.parts[1].is_encoding_problem);
    assert_eq!(message.parts[1].encoding, Encoding::Identity);
    assert_eq!(message.attachments, vec![1]);
}

#[test]
fn related_parts_with_a_name_are_attachments() {
    let input = "Content-Type: multipart/related; boundary=r\n\n--r\nContent-Type: text/html\n\n<img>\n--r\nContent-Type: image/gif; name=a.gif\n\nGIF\n--r\nContent-Type: text/plain; name=notes.txt\n\nnotes\n--r--\n";
    let message = parse(input);
    assert_eq!(html(&message, 1), "<img>");
    assert_eq!(message.parts[2].body, PartType::Binary(b"GIF".to_vec()));
    assert_eq!(text(&message, 3), "notes");
    assert_eq!(message.html_body, vec![1]);
    assert_eq!(message.text_body, vec![1]);
    assert_eq!(message.attachments, vec![2, 3]);
}

#[test]
fn deep_nesting_ends_in_a_leaf() {
    let mut input = String::new();
    let levels = 120;
    for level in 0..levels {
        input.push_str(&format!(
            "Content-Type: multipart/mixed; boundary=b{}\n\n--b{}\n",
            level, level
        ));
    }
    input.push_str("Content-Type: text/plain\n\ndeep\n");
    for level in (0..levels).rev() {
        input.push_str(&format!("--b{}--\n", level));
    }
    let message = parse(&input);
    assert_eq!(message.parts.len(), 101);
    assert!(message.parts[100].is_encoding_problem);
    assert!(matches!(message.parts[100].body, PartType::Text(_)));
    for id in 0..100 {
        assert_eq!(children(&message, id), &vec![id + 1]);
    }
}

#[test]
fn malformed_messages_are_parsed_as_far_as_they_go() {
    let inputs = [
        "Content-Type: multipart/mixed; boundary=b\n\n--b",
        "Content-Type: multipart/mixed; boundary=b\n\n--b--",
        "Content-Type: multipart/mixed; boundary=b\n\n--b\n",
        "Content-Type: multipart/mixed; boundary=b\n\n--b\nA: b",
        "Content-Type: multipart/mixed; boundary=b\n\n--b\nA: b\n\n--b\n--b\n--b--\n--b--",
        "Content-Type: multipart/mixed; boundary=\"\"\n\n--\n\nx\n----\n",
        "Content-Type: message/rfc822\n\n",
        "Content-Type: message/rfc822\n\nContent-Type: message/rfc822\n\nContent-Type: message/rfc822\n",
        "Content-Type: multipart/alternative; boundary=a\n\n--a\nContent-Type: message/rfc822\n\nA: b\n\nx\n--a\nContent-Type: multipart/mixed; boundary=a\n\n--a--\n--a--\n",
        "Content-Type: text/plain\nContent-Transfer-Encoding: quoted-printable\n\n=ZZ broken",
        "Content-Type: text/plain\nContent-Transfer-Encoding: base64\n\n",
        "A:\n\n\n\n",
        ":\nB: c\n\nbody",
        "MIME-Version: 1.0\nContent-Type: multipart/mixed;\n boundary=b\n\n--b\nContent-Type: multipart/mixed; boundary=c\n\n--c\nA: 1\n\none\n--b\nB: 2\n\ntwo\n--b--\n",
    ];
    for input in inputs {
        let message = Message::parse(input.as_bytes())
            .unwrap_or_else(|| panic!("Failed for {:?}", input));
        assert_eq!(message.raw_message, input.as_bytes());
        assert_eq!(message.parts[0].offset_end, input.len(), "Failed for {:?}", input);
        check_in(&message, input.len(), Some(input.as_bytes()));
    }
}

#[test]
fn header_blocks() {
    let input = "Subject: =?iso-8859-1?q?raw?=\r\nKeywords: one, two,\r\n three\r\nContent-Type: Text/HTML;\r\n charset=\"utf-8\"\r\nnot a field\r\n : no name\r\nX-Empty:\r\n\r\nbody";
    let mut stream = MessageStream::new(input.as_bytes());
    let mut headers = Vec::new();
    assert!(parse_headers(&mut headers, &mut stream));
    assert_eq!(stream.pos, input.find("\r\nbody").unwrap());
    assert_eq!(
        headers,
        vec![
            Header {
                name: HeaderName::Other("subject".to_string()),
                value: HeaderValue::Text("=?iso-8859-1?q?raw?=".to_string()),
            },
            Header {
                name: HeaderName::Keywords,
                value: HeaderValue::TextList(vec![
                    "one".to_string(),
                    "two".to_string(),
                    "three".to_string()
                ]),
            },
            Header {
                name: HeaderName::ContentType,
                value: HeaderValue::ContentType(ContentType {
                    c_type: "text".to_string(),
                    c_subtype: Some("html".to_string()),
                    attributes: Some(vec![("charset".to_string(), "utf-8".to_string())]),
                }),
            },
            Header {
                name: HeaderName::Other("x-empty".to_string()),
                value: HeaderValue::Empty,
            },
        ]
    );

    // Nothing is read of a block that begins with an empty line.
    let mut stream = MessageStream::new(b"\r\nSubject: x\r\n");
    let mut headers = Vec::new();
    assert!(!parse_headers(&mut headers, &mut stream));
    assert!(headers.is_empty());
    assert_eq!(stream.pos, 0);
}

#[test]
fn classification() {
    let ct = |c_type: &str, c_subtype: Option<&str>| ContentType {
        c_type: c_type.to_string(),
        c_subtype: c_subtype.map(|s| s.to_string()),
        attributes: None,
    };
    let cases = [
        (Some(ct("multipart", Some("mixed"))), (true, false, false, MimeType::MultipartMixed)),
        (
            Some(ct("multipart", Some("alternative"))),
            (true, false, false, MimeType::MultipartAlternative),
        ),
        (Some(ct("multipart", Some("related"))), (true, false, false, MimeType::MultipartRelated)),
        (Some(ct("multipart", Some("digest"))), (true, false, false, MimeType::MultipartDigest)),
        (Some(ct("multipart", Some("signed"))), (true, false, false, MimeType::Other)),
        (Some(ct("multipart", None)), (true, false, false, MimeType::Other)),
        (Some(ct("text", Some("plain"))), (false, true, true, MimeType::TextPlain)),
        (Some(ct("text", Some("html"))), (false, true, true, MimeType::TextHtml)),
        (Some(ct("text", Some("csv"))), (false, false, true, MimeType::TextOther)),
        (Some(ct("text", None)), (false, false, true, MimeType::TextOther)),
        (Some(ct("image", Some("png"))), (false, true, false, MimeType::Inline)),
        (Some(ct("audio", Some("ogg"))), (false, true, false, MimeType::Inline)),
        (Some(ct("video", None)), (false, true, false, MimeType::Inline)),
        (Some(ct("message", Some("rfc822"))), (false, false, false, MimeType::Message)),
        (Some(ct("message", Some("global"))), (false, false, false, MimeType::Message)),
        (Some(ct("message", Some("partial"))), (false, false, false, MimeType::Other)),
        (Some(ct("application", Some("pdf"))), (false, false, false, MimeType::Other)),
        (None, (false, true, true, MimeType::TextPlain)),
    ];
    for (content_type, expected) in cases {
        assert_eq!(
            get_mime_type(content_type.as_ref(), &MimeType::MultipartMixed),
            expected,
            "Failed for {:?}",
            content_type
        );
    }
    assert_eq!(
        get_mime_type(None, &MimeType::MultipartDigest),
        (false, false, false, MimeType::Message)
    );
}

#[test]
fn boundaries() {
    let data = b"text\r\n--b\r\nmore\r\n--b--\r\n";
    let stream = MessageStream::new(data);
    assert!(is_boundary_end(&stream, 9));
    assert!(is_boundary_end(&stream, 20));
    assert!(is_boundary_end(&stream, data.len()));
    assert!(!is_boundary_end(&stream, 0));
    assert!(!is_boundary_end(&stream, 21));

    assert_eq!(
        get_bytes_to_boundary(&stream, 0, b"--b", false),
        (9, DecodeResult::Borrowed((0, 4)))
    );
    assert_eq!(
        get_bytes_to_boundary(&stream, 11, b"--b", false),
        (9, DecodeResult::Borrowed((11, 15)))
    );
    assert_eq!(
        get_bytes_to_boundary(&stream, 6, b"--b", false),
        (3, DecodeResult::Empty)
    );
    assert_eq!(
        get_bytes_to_boundary(&stream, 0, b"", false),
        (data.len(), DecodeResult::Borrowed((0, data.len())))
    );
    assert_eq!(
        get_bytes_to_boundary(&stream, data.len(), b"", false),
        (0, DecodeResult::Empty)
    );
    assert_eq!(
        get_bytes_to_boundary(&stream, 0, b"--c", false),
        (0, DecodeResult::Empty)
    );
    // A boundary that is followed by text is none.
    let stream = MessageStream::new(b"a--bc\n--b\n");
    assert_eq!(
        get_bytes_to_boundary(&stream, 0, b"--b", false),
        (9, DecodeResult::Borrowed((0, 5)))
    );

    let mut stream = MessageStream::new(data);
    assert!(seek_next_part(&mut stream, b"--b"));
    assert_eq!(stream.pos, 9);
    assert!(!skip_multipart_end(&mut stream));
    assert_eq!(stream.pos, 9);
    skip_crlf(&mut stream);
    assert_eq!(stream.pos, 11);
    assert!(seek_next_part(&mut stream, b"--b"));
    assert_eq!(stream.pos, 20);
    assert!(skip_multipart_end(&mut stream));
    assert_eq!(stream.pos, 22);
    assert_eq!(seek_crlf(&stream, stream.pos), 24);
    assert!(!seek_next_part(&mut stream, b"--b"));
    assert_eq!(stream.pos, 22);
    assert!(!seek_next_part(&mut stream, b""));

    let stream = MessageStream::new(b" \t\r\nx");
    assert_eq!(seek_crlf(&stream, 0), 4);
    let stream = MessageStream::new(b"  x\n");
    assert_eq!(seek_crlf(&stream, 0), 2);
}

#[test]
fn an_unencoded_text_is_the_text_of_its_slice() {
    let input = "Content-Type: multipart/mixed; boundary=b\n\n--b\nContent-Type: text/plain; charset=iso-8859-1\n\ncaf\u{e9}\n--b\nContent-Type: text/plain\n\n\n--b\nContent-Type: application/x-data\n\n\n--b--\n";
    let raw: Vec<u8> = input.chars().map(|c| c as u8).collect();
    let message = Message::parse(&raw).unwrap();
    check_in(&message, raw.len(), Some(&raw));
    assert_eq!(message.parts.len(), 4);
    let first = &message.parts[1];
    assert_eq!(&raw[first.offset_body..first.offset_end], b"caf\xe9");
    assert_eq!(first.body, PartType::Text("caf\u{e9}".to_string()));
    // A body of no bytes is written as a line feed where it is text, and as
    // `?` where it is not.
    let second = &message.parts[2];
    assert_eq!(second.offset_body, second.offset_end);
    assert_eq!(second.body, PartType::Text("\n".to_string()));
    let third = &message.parts[3];
    assert_eq!(third.offset_body, third.offset_end);
    assert_eq!(third.body, PartType::Binary(b"?".to_vec()));
}
