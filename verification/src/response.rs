//! The HTTP response that carries a page.

use vstd::prelude::*;

verus! {

/// An HTTP response of `tiny_http`, with the source that its body is read
/// from.
#[verifier::external_type_specification]
#[verifier::external_body]
#[verifier::reject_recursive_types(R)]
pub struct ExResponse<R>(tiny_http::Response<R>);

/// An in-memory reader of `std`.
#[verifier::external_type_specification]
#[verifier::external_body]
#[verifier::reject_recursive_types(T)]
pub struct ExCursor<T>(std::io::Cursor<T>);

/// One header of `tiny_http`: a field and its value.
#[verifier::external_type_specification]
#[verifier::external_body]
pub struct ExHeader(tiny_http::Header);

/// The name of `header`'s field, as it was given.
pub uninterp spec fn header_field(header: tiny_http::Header) -> Seq<char>;

/// The value of `header`.
pub uninterp spec fn header_value(header: tiny_http::Header) -> Seq<char>;

/// The status code of `response`.
pub uninterp spec fn response_status(response: tiny_http::Response<std::io::Cursor<Vec<u8>>>) -> int;

/// The headers that `response` holds, in order: each a field and its value.
pub uninterp spec fn response_headers(
    response: tiny_http::Response<std::io::Cursor<Vec<u8>>>,
) -> Seq<(Seq<char>, Seq<char>)>;

/// The bytes of the body of `response`.
pub uninterp spec fn response_body(response: tiny_http::Response<std::io::Cursor<Vec<u8>>>) -> Seq<
    u8,
>;

/// `c`, in lower case where it is one of the letters `A` to `Z`.
pub open spec fn ascii_lower(c: char) -> char {
    if 'A' <= c <= 'Z' {
        ((c as u32) + 32) as char
    } else {
        c
    }
}

/// Whether `a` and `b` name the same header field: they are equal but for
/// the case of the letters `a` to `z`.
pub open spec fn same_field(a: Seq<char>, b: Seq<char>) -> bool {
    &&& a.len() == b.len()
    &&& forall|i: int| 0 <= i < a.len() ==> ascii_lower(a[i]) == ascii_lower(b[i])
}

/// Whether `field` is one of the fields that a response sets by itself.
pub open spec fn is_managed_field(field: Seq<char>) -> bool {
    ||| same_field(field, "Connection"@)
    ||| same_field(field, "Trailer"@)
    ||| same_field(field, "Transfer-Encoding"@)
    ||| same_field(field, "Upgrade"@)
    ||| same_field(field, "Content-Length"@)
}

/// The position of the first `Content-Type` header among `headers`; their
/// number where there is none.
pub open spec fn first_content_type(headers: Seq<(Seq<char>, Seq<char>)>) -> int
    decreases headers.len(),
{
    if headers.len() == 0 || same_field(headers[0].0, "Content-Type"@) {
        0
    } else {
        1 + first_content_type(headers.drop_first())
    }
}

/// The headers after `field: value` was added to `headers`. A response has
/// one content type: a second one takes the place of the first. Any other
/// header goes to the end.
pub open spec fn headers_with(
    headers: Seq<(Seq<char>, Seq<char>)>,
    field: Seq<char>,
    value: Seq<char>,
) -> Seq<(Seq<char>, Seq<char>)> {
    let at = first_content_type(headers);
    if same_field(field, "Content-Type"@) && at < headers.len() {
        headers.update(at, (headers[at].0, value))
    } else {
        headers.push((field, value))
    }
}

/// `tiny_http::Header::from_bytes` on the bytes of `field` and `value`. It
/// succeeds exactly where both are ASCII, and the header then holds the two
/// as they were given.
#[verifier::external_body]
fn header_from_text(field: &str, value: &str) -> (made: Result<tiny_http::Header, ()>)
    ensures
        made is Ok <==> (field.is_ascii() && value.is_ascii()),
        made matches Ok(header) ==> header_field(header) == field@,
        made matches Ok(header) ==> header_value(header) == value@,
{
    tiny_http::Header::from_bytes(field.as_bytes(), value.as_bytes())
}

/// `tiny_http::Response::from_string`: a response with status 200, the
/// UTF-8 bytes of `body` as its body, and one header, which declares the body to
/// be plain text.
#[verifier::external_body]
fn response_from_string(body: String) -> (response: tiny_http::Response<std::io::Cursor<Vec<u8>>>)
    ensures
        response_status(response) == 200,
        response_headers(response) == seq![("Content-Type"@, "text/plain; charset=UTF-8"@)],
        response_body(response) == vstd::utf8::encode_utf8(body@),
{
    tiny_http::Response::from_string(body)
}

/// `tiny_http::Response::with_header`, for a header whose field is not one
/// that the response sets by itself: status and body stay, and the header is
/// added as `headers_with` says.
#[verifier::external_body]
fn response_with_header(
    response: tiny_http::Response<std::io::Cursor<Vec<u8>>>,
    header: tiny_http::Header,
) -> (extended: tiny_http::Response<std::io::Cursor<Vec<u8>>>)
    requires
        !is_managed_field(header_field(header)),
    ensures
        response_status(extended) == response_status(response),
        response_body(extended) == response_body(response),
        response_headers(extended) == headers_with(
            response_headers(response),
            header_field(header),
            header_value(header),
        ),
{
    response.with_header(header)
}

/// The field that declares what a body holds.
pub const CONTENT_TYPE: &'static str = "Content-Type";

/// The content type of a page: HTML in UTF-8.
pub const HTML_CONTENT_TYPE: &'static str = "text/html; charset=UTF-8";

/// The field that names the server.
pub const SERVER: &'static str = "Server";

/// The name that the server gives itself.
pub const SERVER_NAME: &'static str = "serve_md";

/// The headers of every response: the content type of a page, and the
/// server's name.
pub open spec fn page_headers() -> Seq<(Seq<char>, Seq<char>)> {
    seq![(CONTENT_TYPE@, HTML_CONTENT_TYPE@), (SERVER@, SERVER_NAME@)]
}

/// The response that carries `page`: status 200, the page's UTF-8 bytes as
/// the body, declared as HTML, under the server's name.
pub fn page_response(page: String) -> (response: tiny_http::Response<std::io::Cursor<Vec<u8>>>)
    ensures
        response_status(response) == 200,
        response_headers(response) == page_headers(),
        response_body(response) == vstd::utf8::encode_utf8(page@),
{
    proof {
        reveal_strlit("Content-Type");
        reveal_strlit("text/html; charset=UTF-8");
        reveal_strlit("text/plain; charset=UTF-8");
        reveal_strlit("Server");
        reveal_strlit("serve_md");
        reveal_strlit("Connection");
        reveal_strlit("Trailer");
        reveal_strlit("Transfer-Encoding");
        reveal_strlit("Upgrade");
        reveal_strlit("Content-Length");
    }
    let plain = response_from_string(page);
    let content_type = match header_from_text(CONTENT_TYPE, HTML_CONTENT_TYPE) {
        Ok(header) => header,
        Err(_) => vstd::pervasive::unreached(),
    };
    let html = response_with_header(plain, content_type);
    assert(response_headers(html) =~= seq![(CONTENT_TYPE@, HTML_CONTENT_TYPE@)]);
    let server = match header_from_text(SERVER, SERVER_NAME) {
        Ok(header) => header,
        Err(_) => vstd::pervasive::unreached(),
    };
    let response = response_with_header(html, server);
    assert(response_headers(response) =~= page_headers());
    response
}

} // verus!
