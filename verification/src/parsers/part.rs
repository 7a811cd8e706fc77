//! What the header fields of a part say about its body, and how the body of
//! a leaf is read.

use crate::decoders::base64::base64_result;
use crate::decoders::base64::decode_base64;
use crate::decoders::charsets::map::charset_lookup;
use crate::decoders::charsets::map::get_charset_decoder;
use crate::decoders::charsets::Charset;
use crate::decoders::quoted_printable::decode_quoted_printable;
use crate::decoders::quoted_printable::qp_result;
use crate::decoders::DecodeResult;
use crate::decoders::DecodeResultView;
use crate::headers_view;
use crate::parsers::message::MessageStream;
use crate::parsers::mime::bytes_to_boundary;
use crate::parsers::mime::content_end;
use crate::parsers::mime::get_bytes_to_boundary;
use crate::text::copy_range;
use crate::text::eq_ignore_case;
use crate::text::lossy_string;
use crate::text::lower_bytes;
use crate::text::str_eq;
use crate::text::utf8_lossy;
use crate::ContentType;
use crate::ContentTypeView;
use crate::Encoding;
use crate::Header;
use crate::HeaderName;
use crate::HeaderNameView;
use crate::HeaderValue;
use crate::PartType;
use crate::MessageAttachment;
use crate::MessagePart;
use crate::HeaderValueView;
use crate::HeaderView;
use vstd::prelude::*;
use vstd::string::StringExecFns;
use vstd::string::StringSliceAdditionalSpecFns;
use vstd::utf8::encode_utf8;

verus! {

/// The kinds of parts that the walker tells apart.
#[derive(Clone, Copy, Debug, PartialEq, Eq, Structural)]
pub enum MimeType {
    MultipartMixed,
    MultipartAlternative,
    MultipartRelated,
    MultipartDigest,
    TextPlain,
    TextHtml,
    TextOther,
    Inline,
    Message,
    Other,
}

/// What a content type says about a part: whether it is a multipart, whether
/// it is shown inline, whether it is text, and its kind. A part without a
/// content type is a message inside a digest and plain text elsewhere.
pub open spec fn mime_type_of(content_type: Option<ContentTypeView>, parent: MimeType) -> (
    bool,
    bool,
    bool,
    MimeType,
) {
    match content_type {
        Some(ct) => if ct.c_type == "multipart"@ {
            (
                true,
                false,
                false,
                if ct.c_subtype == Some("mixed"@) {
                    MimeType::MultipartMixed
                } else if ct.c_subtype == Some("alternative"@) {
                    MimeType::MultipartAlternative
                } else if ct.c_subtype == Some("related"@) {
                    MimeType::MultipartRelated
                } else if ct.c_subtype == Some("digest"@) {
                    MimeType::MultipartDigest
                } else {
                    MimeType::Other
                },
            )
        } else if ct.c_type == "text"@ {
            if ct.c_subtype == Some("plain"@) {
                (false, true, true, MimeType::TextPlain)
            } else if ct.c_subtype == Some("html"@) {
                (false, true, true, MimeType::TextHtml)
            } else {
                (false, false, true, MimeType::TextOther)
            }
        } else if ct.c_type == "image"@ || ct.c_type == "audio"@ || ct.c_type == "video"@ {
            (false, true, false, MimeType::Inline)
        } else if ct.c_type == "message"@ && (ct.c_subtype == Some("rfc822"@) || ct.c_subtype
            == Some("global"@)) {
            (false, false, false, MimeType::Message)
        } else {
            (false, false, false, MimeType::Other)
        },
        None => if parent == MimeType::MultipartDigest {
            (false, false, false, MimeType::Message)
        } else {
            (false, true, true, MimeType::TextPlain)
        },
    }
}

/// Whether the subtype is `name`.
fn subtype_is(content_type: &ContentType, name: &str) -> (r: bool)
    ensures
        r == (content_type@.c_subtype == Some(name@)),
{
    match content_type.get_subtype() {
        Some(subtype) => str_eq(subtype, name),
        None => false,
    }
}

/// Classifies a part by its content type and by the kind of the part that
/// holds it.
pub fn get_mime_type(content_type: Option<&ContentType>, parent_content_type: &MimeType) -> (r: (
    bool,
    bool,
    bool,
    MimeType,
))
    ensures
        r == mime_type_of(
            match content_type {
                Some(ct) => Some(ct@),
                None => None,
            },
            *parent_content_type,
        ),
{
    match content_type {
        Some(ct) => {
            let c_type = ct.get_type();
            if str_eq(c_type, "multipart") {
                (
                    true,
                    false,
                    false,
                    if subtype_is(ct, "mixed") {
                        MimeType::MultipartMixed
                    } else if subtype_is(ct, "alternative") {
                        MimeType::MultipartAlternative
                    } else if subtype_is(ct, "related") {
                        MimeType::MultipartRelated
                    } else if subtype_is(ct, "digest") {
                        MimeType::MultipartDigest
                    } else {
                        MimeType::Other
                    },
                )
            } else if str_eq(c_type, "text") {
                if subtype_is(ct, "plain") {
                    (false, true, true, MimeType::TextPlain)
                } else if subtype_is(ct, "html") {
                    (false, true, true, MimeType::TextHtml)
                } else {
                    (false, false, true, MimeType::TextOther)
                }
            } else if str_eq(c_type, "image") || str_eq(c_type, "audio") || str_eq(
                c_type,
                "video",
            ) {
                (false, true, false, MimeType::Inline)
            } else if str_eq(c_type, "message") && (subtype_is(ct, "rfc822") || subtype_is(
                ct,
                "global",
            )) {
                (false, false, false, MimeType::Message)
            } else {
                (false, false, false, MimeType::Other)
            }
        },
        None => match parent_content_type {
            MimeType::MultipartDigest => (false, false, false, MimeType::Message),
            _ => (false, true, true, MimeType::TextPlain),
        },
    }
}

/// The index of the first field of `headers` at or after `from` that is
/// called `name`, or the number of fields.
pub open spec fn header_index(headers: Seq<HeaderView>, name: HeaderNameView, from: int) -> int
    decreases headers.len() - from,
{
    if 0 <= from < headers.len() && headers[from].name != name {
        header_index(headers, name, from + 1)
    } else {
        from
    }
}

/// The value of the first field called `name`.
pub open spec fn header_named(headers: Seq<HeaderView>, name: HeaderNameView) -> Option<
    HeaderValueView,
> {
    let i = header_index(headers, name, 0);
    if 0 <= i < headers.len() {
        Some(headers[i].value)
    } else {
        None
    }
}

/// The content type that the first field called `name` holds.
pub open spec fn content_type_named(headers: Seq<HeaderView>, name: HeaderNameView) -> Option<
    ContentTypeView,
> {
    match header_named(headers, name) {
        Some(HeaderValueView::ContentType(ct)) => Some(ct),
        _ => None,
    }
}

/// The transfer encoding that the header fields declare.
pub open spec fn encoding_of(headers: Seq<HeaderView>) -> Encoding {
    match header_named(headers, HeaderNameView::ContentTransferEncoding) {
        Some(HeaderValueView::Text(name)) => if lower_bytes(encode_utf8(name)) == lower_bytes(
            "base64".spec_bytes(),
        ) {
            Encoding::Base64
        } else if lower_bytes(encode_utf8(name)) == lower_bytes(
            "quoted-printable".spec_bytes(),
        ) {
            Encoding::QuotedPrintable
        } else {
            Encoding::Identity
        },
        _ => Encoding::Identity,
    }
}

/// What the header fields of a part say about its body.
pub struct PartInfo {
    pub is_multipart: bool,
    pub is_inline: bool,
    pub is_text: bool,
    pub mime_type: MimeType,
    /// The line that separates the parts of a multipart: `--` and the
    /// `boundary` parameter.
    pub boundary: Option<Vec<u8>>,
    /// The character set that the `charset` parameter names, if it is known.
    pub charset: Option<Charset>,
    /// Whether the content type has a `name` parameter.
    pub has_name: bool,
    /// Whether the disposition is `attachment`.
    pub is_attachment: bool,
    pub encoding: Encoding,
}

/// The mathematical value of a [`PartInfo`].
pub struct PartInfoView {
    pub is_multipart: bool,
    pub is_inline: bool,
    pub is_text: bool,
    pub mime_type: MimeType,
    pub boundary: Option<Seq<u8>>,
    pub charset: Option<Charset>,
    pub has_name: bool,
    pub is_attachment: bool,
    pub encoding: Encoding,
}

impl View for PartInfo {
    type V = PartInfoView;

    open spec fn view(&self) -> PartInfoView {
        PartInfoView {
            is_multipart: self.is_multipart,
            is_inline: self.is_inline,
            is_text: self.is_text,
            mime_type: self.mime_type,
            boundary: match self.boundary {
                Some(b) => Some(b@),
                None => None,
            },
            charset: self.charset,
            has_name: self.has_name,
            is_attachment: self.is_attachment,
            encoding: self.encoding,
        }
    }
}

/// The character set that the `charset` parameter of the content type
/// names, if there is one and it is known.
#[verifier::opaque]
pub open spec fn charset_named(headers: Seq<HeaderView>) -> Option<Charset> {
    match content_type_named(headers, HeaderNameView::ContentType) {
        Some(ct) => match ct.attribute("charset"@) {
            Some(name) => charset_lookup(encode_utf8(name)),
            None => None,
        },
        None => None,
    }
}

/// What the header fields `headers` of a part say about its body, where the
/// part that holds it is of the kind `parent`.
#[verifier::opaque]
pub open spec fn part_info_of(headers: Seq<HeaderView>, parent: MimeType) -> PartInfoView {
    let ct = content_type_named(headers, HeaderNameView::ContentType);
    let kind = mime_type_of(ct, parent);
    PartInfoView {
        is_multipart: kind.0,
        is_inline: kind.1,
        is_text: kind.2,
        mime_type: kind.3,
        boundary: match ct {
            Some(ct) => match ct.attribute("boundary"@) {
                Some(b) => Some(seq![45u8, 45u8] + encode_utf8(b)),
                None => None,
            },
            None => None,
        },
        charset: charset_named(headers),
        has_name: match ct {
            Some(ct) => ct.attribute("name"@) is Some,
            None => false,
        },
        is_attachment: match content_type_named(headers, HeaderNameView::ContentDisposition) {
            Some(d) => d.c_type == "attachment"@,
            None => false,
        },
        encoding: encoding_of(headers),
    }
}

/// Whether two names of fields are the same, where `name` is one of the
/// names that have a variant of their own.
fn same_name(field: &HeaderName, name: &HeaderName) -> (r: bool)
    requires
        !(name is Other),
    ensures
        r == (field@ == name@),
{
    match (field, name) {
        (HeaderName::ContentType, HeaderName::ContentType) => true,
        (HeaderName::ContentDisposition, HeaderName::ContentDisposition) => true,
        (HeaderName::ContentTransferEncoding, HeaderName::ContentTransferEncoding) => true,
        (HeaderName::Keywords, HeaderName::Keywords) => true,
        _ => false,
    }
}

/// The value of the first field called `name`.
pub fn get_header<'a>(headers: &'a Vec<Header>, name: &HeaderName) -> (r: Option<&'a HeaderValue>)
    requires
        !(name is Other),
    ensures
        r is Some == header_named(headers_view(headers@), name@) is Some,
        r matches Some(v) ==> v@ == header_named(headers_view(headers@), name@)->0,
{
    let mut i: usize = 0;
    while i < headers.len() && !same_name(&headers[i].name, name)
        invariant
            i <= headers@.len(),
            !(name is Other),
            header_index(headers_view(headers@), name@, 0) == header_index(
                headers_view(headers@),
                name@,
                i as int,
            ),
        decreases headers@.len() - i,
    {
        assert(headers_view(headers@)[i as int] == headers@[i as int]@);
        i += 1;
    }
    if i < headers.len() {
        assert(headers_view(headers@)[i as int] == headers@[i as int]@);
        Some(&headers[i].value)
    } else {
        None
    }
}

/// The transfer encoding that the header fields declare.
pub fn get_encoding(headers: &Vec<Header>) -> (r: Encoding)
    ensures
        r == encoding_of(headers_view(headers@)),
{
    match get_header(headers, &HeaderName::ContentTransferEncoding) {
        Some(HeaderValue::Text(name)) => {
            let bytes = name.as_str().as_bytes();
            if eq_ignore_case(bytes, "base64".as_bytes()) {
                Encoding::Base64
            } else if eq_ignore_case(bytes, "quoted-printable".as_bytes()) {
                Encoding::QuotedPrintable
            } else {
                Encoding::Identity
            }
        },
        _ => Encoding::Identity,
    }
}

/// The line that separates the parts of a multipart with this content type.
fn get_boundary(content_type: &ContentType) -> (r: Option<Vec<u8>>)
    ensures
        r is Some == content_type@.attribute("boundary"@) is Some,
        r matches Some(b) ==> b@ == seq![45u8, 45u8] + encode_utf8(
            content_type@.attribute("boundary"@)->0,
        ),
{
    match content_type.get_attribute("boundary") {
        Some(value) => {
            let bytes = value.as_bytes();
            let mut line: Vec<u8> = Vec::new();
            line.push(45);
            line.push(45);
            let mut i: usize = 0;
            while i < bytes.len()
                invariant
                    i <= bytes@.len(),
                    line@ == seq![45u8, 45u8] + bytes@.take(i as int),
                decreases bytes@.len() - i,
            {
                line.push(bytes[i]);
                assert(seq![45u8, 45u8] + bytes@.take(i + 1) =~= (seq![45u8, 45u8] + bytes@.take(
                    i as int,
                )).push(bytes@[i as int]));
                i += 1;
            }
            assert(bytes@.take(bytes@.len() as int) =~= bytes@);
            Some(line)
        },
        None => None,
    }
}

/// Gathers what the header fields of a part say about its body.
pub fn part_info(headers: &Vec<Header>, parent: &MimeType) -> (r: PartInfo)
    ensures
        r@ == part_info_of(headers_view(headers@), *parent),
        r.boundary matches Some(line) ==> line@.len() >= 2 && line@[0] == 45 && line@[1] == 45,
        r.is_multipart ==> r.mime_type != MimeType::Message,
        r.charset == charset_named(headers_view(headers@)),
{
    reveal(part_info_of);
    reveal(charset_named);
    let content_type = match get_header(headers, &HeaderName::ContentType) {
        Some(value) => value.as_content_type_ref(),
        None => None,
    };
    let (is_multipart, is_inline, is_text, mime_type) = get_mime_type(content_type, parent);
    let disposition = match get_header(headers, &HeaderName::ContentDisposition) {
        Some(value) => value.as_content_type_ref(),
        None => None,
    };
    PartInfo {
        is_multipart,
        is_inline,
        is_text,
        mime_type,
        boundary: match content_type {
            Some(ct) => get_boundary(ct),
            None => None,
        },
        charset: match content_type {
            Some(ct) => match ct.get_attribute("charset") {
                Some(name) => get_charset_decoder(name.as_bytes()),
                None => None,
            },
            None => None,
        },
        has_name: match content_type {
            Some(ct) => ct.has_attribute("name"),
            None => false,
        },
        is_attachment: match disposition {
            Some(d) => d.is_attachment(),
            None => false,
        },
        encoding: get_encoding(headers),
    }
}

/// The text of a decoded body: in the character set given, or as UTF-8
/// where none is given. A body without bytes is a line feed.
pub open spec fn body_text(result: DecodeResultView, data: Seq<u8>, charset: Option<Charset>) -> Seq<
    char,
> {
    match result {
        DecodeResultView::Empty => seq!['\n'],
        _ => match charset {
            Some(charset) => charset.text(body_bytes(result, data)),
            None => utf8_lossy(body_bytes(result, data)),
        },
    }
}

/// The bytes of a decoded body. A body without bytes is a `?`.
pub open spec fn body_bytes(result: DecodeResultView, data: Seq<u8>) -> Seq<u8> {
    match result {
        DecodeResultView::Owned(bytes) => bytes,
        DecodeResultView::Borrowed((from, to)) => data.subrange(from as int, to as int),
        DecodeResultView::Empty => seq![63u8],
    }
}

/// The text of a decoded body.
pub fn result_to_string(result: DecodeResult, data: &[u8], charset: Option<Charset>) -> (r: String)
    requires
        result matches DecodeResult::Borrowed((from, to)) ==> from <= to <= data@.len(),
    ensures
        r@ == body_text(result@, data@, charset),
{
    match result {
        DecodeResult::Owned(bytes) => match charset {
            Some(charset) => charset.decode(bytes.as_slice()),
            None => lossy_string(bytes.as_slice()),
        },
        DecodeResult::Borrowed((from, to)) => {
            let bytes = vstd::slice::slice_subrange(data, from, to);
            match charset {
                Some(charset) => charset.decode(bytes),
                None => lossy_string(bytes),
            }
        },
        DecodeResult::Empty => {
            proof {
                reveal_strlit("\n");
                assert("\n"@ =~= seq!['\n']);
            }
            String::from_str("\n")
        },
    }
}

/// The bytes of a decoded body.
pub fn result_to_bytes(result: DecodeResult, data: &[u8]) -> (r: Vec<u8>)
    requires
        result matches DecodeResult::Borrowed((from, to)) ==> from <= to <= data@.len(),
    ensures
        r@ == body_bytes(result@, data@),
{
    match result {
        DecodeResult::Owned(bytes) => bytes,
        DecodeResult::Borrowed((from, to)) => copy_range(data, from, to),
        DecodeResult::Empty => {
            let mut bytes: Vec<u8> = Vec::new();
            bytes.push(63);
            assert(bytes@ =~= seq![63u8]);
            bytes
        },
    }
}

/// What a transfer decoder returns for the body that starts at `pos` and
/// runs up to `boundary`.
pub open spec fn decoded(data: Seq<u8>, pos: int, boundary: Seq<u8>, encoding: Encoding) -> (
    int,
    DecodeResultView,
) {
    match encoding {
        Encoding::Base64 => base64_result(data, pos, boundary, false),
        Encoding::QuotedPrintable => qp_result(data, pos, boundary, false),
        Encoding::Identity => bytes_to_boundary(data, pos, boundary),
    }
}

/// The body of a leaf as it was read.
pub struct LeafRead {
    /// How many bytes were consumed; zero if nothing could be read.
    pub consumed: usize,
    pub bytes: DecodeResult,
    /// The encoding that was applied.
    pub encoding: Encoding,
    /// The declared encoding could not be applied.
    pub is_encoding_problem: bool,
    /// The boundary was not found and the rest of the input was taken.
    pub unbounded: bool,
}

/// The mathematical value of a [`LeafRead`].
pub struct LeafReadView {
    pub consumed: int,
    pub bytes: DecodeResultView,
    pub encoding: Encoding,
    pub is_encoding_problem: bool,
    pub unbounded: bool,
}

impl View for LeafRead {
    type V = LeafReadView;

    open spec fn view(&self) -> LeafReadView {
        LeafReadView {
            consumed: self.consumed as int,
            bytes: self.bytes@,
            encoding: self.encoding,
            is_encoding_problem: self.is_encoding_problem,
            unbounded: self.unbounded,
        }
    }
}

/// How the body of a leaf that starts at `pos` is read. The declared
/// encoding is tried first. If it fails, the body is taken as it stands up
/// to the boundary, and if that fails too and there is a boundary, up to the
/// end of the input. If nothing can be read, nothing is consumed.
#[verifier::opaque]
pub open spec fn leaf_read(data: Seq<u8>, pos: int, boundary: Option<Seq<u8>>, encoding: Encoding) -> LeafReadView {
    let line = match boundary {
        Some(b) => b,
        None => Seq::empty(),
    };
    let first = decoded(data, pos, line, encoding);
    let failed = LeafReadView {
        consumed: 0,
        bytes: DecodeResultView::Empty,
        encoding: Encoding::Identity,
        is_encoding_problem: true,
        unbounded: false,
    };
    if first.0 > 0 {
        LeafReadView {
            consumed: first.0,
            bytes: first.1,
            encoding,
            is_encoding_problem: false,
            unbounded: false,
        }
    } else if pos >= data.len() || (encoding == Encoding::Identity && boundary is None) {
        failed
    } else {
        let raw = if encoding != Encoding::Identity {
            bytes_to_boundary(data, pos, line)
        } else {
            (0, DecodeResultView::Empty)
        };
        if raw.0 > 0 {
            LeafReadView { consumed: raw.0, bytes: raw.1, ..failed }
        } else if boundary is Some {
            let rest = bytes_to_boundary(data, pos, Seq::empty());
            if rest.0 > 0 {
                LeafReadView { consumed: rest.0, bytes: rest.1, unbounded: true, ..failed }
            } else {
                failed
            }
        } else {
            failed
        }
    }
}

/// The bytes of the raw message between two offsets, as the result of
/// reading them as they stand: nothing where there are none.
pub open spec fn extent(offset_body: int, offset_end: int) -> DecodeResultView {
    if 0 <= offset_body < offset_end {
        DecodeResultView::Borrowed((offset_body as usize, offset_end as usize))
    } else {
        DecodeResultView::Empty
    }
}

/// Whether the body of a part to which no transfer encoding was applied is
/// what stands in the raw message between the offsets of the part: bytes are
/// those bytes, and text is their text in the character set that the part
/// names. A body of no bytes stands for a part that could not be read or is
/// not yet read.
pub open spec fn part_is_slice(part: MessagePart, raw: Seq<u8>) -> bool {
    part.encoding == Encoding::Identity ==> match part.body {
        PartType::Binary(bytes) | PartType::InlineBinary(bytes) | PartType::Message(
            MessageAttachment::Raw(bytes),
        ) => bytes@.len() == 0 || bytes@ == body_bytes(
            extent(part.offset_body as int, part.offset_end as int),
            raw,
        ),
        PartType::Text(text) | PartType::Html(text) => text@ == body_text(
            extent(part.offset_body as int, part.offset_end as int),
            raw,
            charset_named(headers_view(part.headers@)),
        ),
        _ => true,
    }
}

/// A body that was read without a transfer encoding is what stands in the
/// raw message between the offsets of the leaf: from where the body begins
/// to where [`leaf_end`] lets it end, which is before the line break in
/// front of the boundary.
pub proof fn body_taken_as_it_stands_is_a_slice(
    data: Seq<u8>,
    pos: int,
    boundary: Option<Seq<u8>>,
    encoding: Encoding,
)
    requires
        0 <= pos <= data.len() <= usize::MAX,
    ensures
        ({
            let read = leaf_read(data, pos, boundary, encoding);
            let offset_end = leaf_end(
                data,
                pos + read.consumed,
                if read.unbounded {
                    None
                } else {
                    match boundary {
                        Some(line) => Some(line.len() as int),
                        None => None,
                    }
                },
                pos,
            );
            &&& read.bytes is Borrowed ==> read.encoding == Encoding::Identity
            &&& read.consumed > 0 && read.encoding == Encoding::Identity ==> {
                &&& pos <= offset_end <= pos + read.consumed <= data.len()
                &&& read.bytes == extent(pos, offset_end)
            }
        }),
{
    reveal(leaf_read);
    let line = match boundary {
        Some(b) => b,
        None => Seq::empty(),
    };
    crate::parsers::mime::first_match_is_match(data, pos, line);
}

/// A leaf that no boundary ends runs to the end of the raw message; so does
/// one whose boundary was not found; and a body of which nothing could be
/// read begins at the end.
pub proof fn a_leaf_without_boundary_runs_to_the_end(
    data: Seq<u8>,
    pos: int,
    boundary: Option<Seq<u8>>,
    encoding: Encoding,
)
    requires
        0 <= pos <= data.len() <= usize::MAX,
    ensures
        ({
            let read = leaf_read(data, pos, boundary, encoding);
            boundary is None || read.unbounded || read.consumed == 0 ==> pos + read.consumed
                == data.len()
        }),
{
    reveal(leaf_read);
    crate::decoders::quoted_printable::qp_without_boundary_reads_all(data, pos, false);
}

/// Decodes the body that starts at the stream's position with the decoder
/// of `encoding`.
pub fn decode_body(stream: &MessageStream, boundary: &[u8], encoding: Encoding) -> (r: (
    usize,
    DecodeResult,
))
    requires
        stream.pos <= stream.data@.len(),
    ensures
        r.0 == decoded(stream.data@, stream.pos as int, boundary@, encoding).0,
        r.1@ == decoded(stream.data@, stream.pos as int, boundary@, encoding).1,
        stream.pos + r.0 <= stream.data@.len(),
        r.1 matches DecodeResult::Borrowed((from, to)) ==> from <= to <= stream.data@.len(),
{
    match encoding {
        Encoding::Base64 => decode_base64(stream, stream.pos, boundary, false),
        Encoding::QuotedPrintable => decode_quoted_printable(stream, stream.pos, boundary, false),
        Encoding::Identity => get_bytes_to_boundary(stream, stream.pos, boundary, false),
    }
}

/// Reads the body of a leaf that starts at the stream's position. The stream
/// is not moved.
pub fn read_leaf(stream: &MessageStream, boundary: &Option<Vec<u8>>, encoding: Encoding) -> (r:
    LeafRead)
    requires
        stream.pos <= stream.data@.len(),
    ensures
        r@ == leaf_read(
            stream.data@,
            stream.pos as int,
            match boundary {
                Some(b) => Some(b@),
                None => None,
            },
            encoding,
        ),
        stream.pos + r.consumed <= stream.data@.len(),
        r.bytes matches DecodeResult::Borrowed((from, to)) ==> from <= to <= stream.data@.len(),
{
    reveal(leaf_read);
    let none: Vec<u8> = Vec::new();
    let line: &[u8] = match boundary {
        Some(b) => b.as_slice(),
        None => none.as_slice(),
    };
    assert(none@ =~= Seq::empty());
    let (consumed, bytes) = decode_body(stream, line, encoding);
    if consumed > 0 {
        return LeafRead { consumed, bytes, encoding, is_encoding_problem: false, unbounded: false };
    }
    let is_binary: bool = match encoding {
        Encoding::Identity => true,
        _ => false,
    };
    let failed = LeafRead {
        consumed: 0,
        bytes: DecodeResult::Empty,
        encoding: Encoding::Identity,
        is_encoding_problem: true,
        unbounded: false,
    };
    if stream.pos >= stream.data.len() || (is_binary && boundary.is_none()) {
        return failed;
    }
    if !is_binary {
        let (consumed, bytes) = get_bytes_to_boundary(stream, stream.pos, line, false);
        if consumed > 0 {
            return LeafRead {
                consumed,
                bytes,
                encoding: Encoding::Identity,
                is_encoding_problem: true,
                unbounded: false,
            };
        }
    }
    if boundary.is_some() {
        let (consumed, bytes) = get_bytes_to_boundary(stream, stream.pos, none.as_slice(), false);
        if consumed > 0 {
            return LeafRead {
                consumed,
                bytes,
                encoding: Encoding::Identity,
                is_encoding_problem: true,
                unbounded: true,
            };
        }
    }
    failed
}

/// Where the body of a leaf ends whose boundary, of `boundary_len` bytes,
/// ends at `pos`: before the line break in front of the boundary, and not
/// before `offset_body`. Without a boundary, or with an empty one, the body
/// ends at `pos`.
pub open spec fn leaf_end(data: Seq<u8>, pos: int, boundary_len: Option<int>, offset_body: int) -> int {
    match boundary_len {
        Some(n) => if n <= 0 {
            pos
        } else if pos - n >= offset_body {
            content_end(data, offset_body, pos - n)
        } else {
            offset_body
        },
        None => pos,
    }
}

/// Where the body of a leaf ends.
pub fn get_leaf_end(stream: &MessageStream, boundary: &Option<Vec<u8>>, offset_body: usize) -> (r:
    usize)
    requires
        offset_body <= stream.pos <= stream.data@.len(),
    ensures
        r == leaf_end(
            stream.data@,
            stream.pos as int,
            match boundary {
                Some(b) => Some(b@.len() as int),
                None => None,
            },
            offset_body as int,
        ),
        offset_body <= r <= stream.pos,
{
    match boundary {
        Some(b) => {
            if b.len() == 0 {
                return stream.pos;
            }
            if b.len() > stream.pos || stream.pos - b.len() < offset_body {
                return offset_body;
            }
            let at: usize = stream.pos - b.len();
            if offset_body < at && stream.data[at - 1] == 10 {
                if offset_body < at - 1 && stream.data[at - 2] == 13 {
                    at - 2
                } else {
                    at - 1
                }
            } else {
                at
            }
        },
        None => stream.pos,
    }
}

/// Where a leaf goes: into which of the three lists, and what is still
/// wanted afterwards.
#[derive(Clone, Copy, Debug, PartialEq, Eq, Structural)]
pub struct Routing {
    /// Whether the leaf is shown inline.
    pub is_inline: bool,
    pub to_html: bool,
    pub to_text: bool,
    pub to_attachments: bool,
    /// Whether an HTML body is still wanted at this level.
    pub need_html_body: bool,
    /// Whether a text body is still wanted at this level.
    pub need_text_body: bool,
}

/// What the walker knows of a level when it routes a leaf.
#[derive(Clone, Copy, Debug, PartialEq, Eq, Structural)]
pub struct Level {
    /// The kind of the part that holds the leaf.
    pub mime_type: MimeType,
    /// Whether the leaf is inside a `multipart/alternative`.
    pub in_alternative: bool,
    /// Whether the leaf is the first part of its level.
    pub is_first: bool,
    pub need_html_body: bool,
    pub need_text_body: bool,
}

/// Routes a leaf of kind `mime_type`.
///
/// In a `multipart/alternative`, HTML goes to the HTML body, plain text to
/// the text body, everything else to the attachments. Elsewhere a leaf is
/// inline if its kind can be, its disposition is not `attachment`, and it is
/// the first part, or it is not in a `multipart/related` and is an image,
/// sound or video or has no `name`. An inline leaf goes to the bodies that
/// are still wanted; inside an alternative, HTML ends the want of a text
/// body and plain text that of an HTML body. A text that went to the body
/// of its own kind is no attachment; every other leaf is.
#[verifier::opaque]
pub open spec fn route(
    level: Level,
    mime_type: MimeType,
    is_text: bool,
    can_be_inline: bool,
    is_attachment: bool,
    has_name: bool,
) -> Routing {
    let is_inline = can_be_inline && !is_attachment && (level.is_first || (level.mime_type
        != MimeType::MultipartRelated && (mime_type == MimeType::Inline || !has_name)));
    let wanted = level.in_alternative && (level.need_text_body || level.need_html_body);
    let need_text_body = if level.mime_type != MimeType::MultipartAlternative && is_inline
        && wanted && mime_type == MimeType::TextHtml {
        false
    } else {
        level.need_text_body
    };
    let need_html_body = if level.mime_type != MimeType::MultipartAlternative && is_inline
        && wanted && mime_type == MimeType::TextPlain {
        false
    } else {
        level.need_html_body
    };
    let to_html = if level.mime_type == MimeType::MultipartAlternative {
        mime_type == MimeType::TextHtml
    } else {
        is_inline && need_html_body
    };
    let to_text = if level.mime_type == MimeType::MultipartAlternative {
        mime_type == MimeType::TextPlain
    } else {
        is_inline && need_text_body
    };
    Routing {
        is_inline,
        to_html,
        to_text,
        to_attachments: if is_text {
            if mime_type == MimeType::TextHtml {
                !to_html
            } else {
                !to_text
            }
        } else {
            true
        },
        need_html_body,
        need_text_body,
    }
}

/// Routes a leaf of kind `mime_type`.
pub fn route_leaf(
    level: Level,
    mime_type: MimeType,
    is_text: bool,
    can_be_inline: bool,
    is_attachment: bool,
    has_name: bool,
) -> (r: Routing)
    ensures
        r == route(level, mime_type, is_text, can_be_inline, is_attachment, has_name),
        r.to_html || r.to_text || r.to_attachments,
        !is_text ==> r.to_attachments,
{
    reveal(route);
    let is_inline = can_be_inline && !is_attachment && (level.is_first || (level.mime_type
        != MimeType::MultipartRelated && (mime_type == MimeType::Inline || !has_name)));
    let mut need_html_body = level.need_html_body;
    let mut need_text_body = level.need_text_body;
    let (to_html, to_text) = if level.mime_type == MimeType::MultipartAlternative {
        match mime_type {
            MimeType::TextHtml => (true, false),
            MimeType::TextPlain => (false, true),
            _ => (false, false),
        }
    } else if is_inline {
        if level.in_alternative && (need_text_body || need_html_body) {
            match mime_type {
                MimeType::TextHtml => {
                    need_text_body = false;
                },
                MimeType::TextPlain => {
                    need_html_body = false;
                },
                _ => {},
            }
        }
        (need_html_body, need_text_body)
    } else {
        (false, false)
    };
    let to_attachments = if is_text {
        if mime_type == MimeType::TextHtml {
            !to_html
        } else {
            !to_text
        }
    } else {
        true
    };
    Routing { is_inline, to_html, to_text, to_attachments, need_html_body, need_text_body }
}

} // verus!
