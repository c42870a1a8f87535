//! The request headers of a client, and the HTTP client that carries them.
//!
//! The header types and the HTTP client belong to `reqwest`. What this crate
//! relies on of them is written down here, once, for both API versions.

use crate::common::secret::Secret;
use reqwest::header::{HeaderMap, HeaderValue, InvalidHeaderValue};
use reqwest::Client as HttpClient;
use reqwest::Error as HttpError;
use vstd::prelude::*;
use vstd::string::StringSliceAdditionalSpecFns;
use vstd::utf8::{encode_scalar, encode_utf8, has_width_1_encoding, leading_byte_width_1};

verus! {

#[verifier::external_type_specification]
#[verifier::external_body]
pub struct ExHeaderValue(reqwest::header::HeaderValue);

#[verifier::external_type_specification]
#[verifier::external_body]
pub struct ExInvalidHeaderValue(reqwest::header::InvalidHeaderValue);

#[verifier::external_type_specification]
#[verifier::external_body]
#[verifier::reject_recursive_types(T)]
pub struct ExHeaderMap<T>(reqwest::header::HeaderMap<T>);

#[verifier::external_type_specification]
#[verifier::external_body]
pub struct ExHttpClient(HttpClient);

#[verifier::external_type_specification]
#[verifier::external_body]
pub struct ExHttpError(HttpError);

/// `Clone` of `reqwest::Client`: another handle on the same client, which
/// therefore sends the same headers.
pub assume_specification[ <HttpClient as Clone>::clone ](client: &HttpClient) -> (r: HttpClient)
    ensures
        http_client_default_headers(r) == http_client_default_headers(*client),
;

/// The bytes that a header value holds.
pub uninterp spec fn header_value_bytes(value: HeaderValue) -> Seq<u8>;

/// Whether a header value is marked as sensitive, so that it is kept out of
/// logs and debug output.
pub uninterp spec fn header_value_is_sensitive(value: HeaderValue) -> bool;

/// What a header map holds: for each name, in lower case, the bytes of the
/// value stored under it and whether that value is sensitive. Where a name
/// has several values, the last of them counts.
pub uninterp spec fn header_map_entries(map: HeaderMap) -> Map<Seq<char>, (Seq<u8>, bool)>;

/// The headers that an HTTP client adds to every request that does not set
/// them itself, read as [`header_map_entries`] reads a map.
pub uninterp spec fn http_client_default_headers(client: HttpClient) -> Map<
    Seq<char>,
    (Seq<u8>, bool),
>;

/// The entries of a header map that holds nothing.
pub open spec fn no_headers() -> Map<Seq<char>, (Seq<u8>, bool)> {
    Map::empty()
}

/// The bytes that may stand in a header value: anything but the control
/// characters, of which only the tab is allowed.
pub open spec fn is_header_value_byte(b: u8) -> bool {
    (b >= 32 && b != 127) || b == 9
}

/// A byte string that can be sent as a header value.
pub open spec fn is_header_value(bytes: Seq<u8>) -> bool {
    forall|i: int| 0 <= i < bytes.len() ==> is_header_value_byte(#[trigger] bytes[i])
}

/// A text of printable ASCII characters and tabs.
pub open spec fn is_visible_ascii(text: Seq<char>) -> bool {
    forall|i: int|
        0 <= i < text.len() ==> {
            let c = #[trigger] text[i];
            (' ' <= c && c <= '~') || c == '\t'
        }
}

/// The characters of the header names that this crate sends: letters, digits
/// and the hyphen.
pub open spec fn is_header_name_char(c: char) -> bool {
    ('a' <= c && c <= 'z') || ('A' <= c && c <= 'Z') || ('0' <= c && c <= '9') || c == '-'
}

/// A header name of letters, digits and hyphens that is short enough to be
/// normalised in place.
pub open spec fn is_plain_header_name(name: Seq<char>) -> bool {
    &&& 0 < name.len() <= 64
    &&& forall|i: int| 0 <= i < name.len() ==> is_header_name_char(#[trigger] name[i])
}

/// An ASCII letter in lower case; any other character unchanged.
pub open spec fn ascii_lower(c: char) -> char {
    if 'A' <= c && c <= 'Z' {
        ((c as u8 + 32) as u8) as char
    } else {
        c
    }
}

/// The name under which a header map files a header: the name in lower case.
pub open spec fn header_name_key(name: Seq<char>) -> Seq<char> {
    name.map_values(|c: char| ascii_lower(c))
}

/// `HeaderValue::from_str`.
///
/// The call succeeds exactly when every byte of `src` may stand in a header
/// value. The value then holds the bytes of `src` and is not sensitive.
#[verifier::external_body]
pub(crate) fn header_value_from_str(src: &str) -> (r: Result<HeaderValue, InvalidHeaderValue>)
    ensures
        r.is_ok() <==> is_header_value(src.spec_bytes()),
        r matches Ok(v) ==> header_value_bytes(v) == src.spec_bytes()
            && !header_value_is_sensitive(v),
{
    HeaderValue::from_str(src)
}

/// `HeaderValue::from_static`.
///
/// The call panics on a byte that is neither printable ASCII nor a tab, so
/// such texts are left out. The value holds the bytes of `src` and is not
/// sensitive.
#[verifier::external_body]
pub(crate) fn header_value_from_static(src: &'static str) -> (r: HeaderValue)
    requires
        is_visible_ascii(src@),
    ensures
        header_value_bytes(r) == src.spec_bytes(),
        !header_value_is_sensitive(r),
{
    HeaderValue::from_static(src)
}

/// `HeaderValue::set_sensitive`: sets the mark and leaves the bytes alone.
#[verifier::external_body]
pub(crate) fn header_value_set_sensitive(value: &mut HeaderValue, sensitive: bool)
    ensures
        header_value_bytes(*final(value)) == header_value_bytes(*old(value)),
        header_value_is_sensitive(*final(value)) == sensitive,
{
    value.set_sensitive(sensitive);
}

/// `HeaderMap::new`: a map that holds nothing.
#[verifier::external_body]
pub(crate) fn header_map_new() -> (r: HeaderMap)
    ensures
        header_map_entries(r) == no_headers(),
{
    HeaderMap::new()
}

/// `HeaderMap::insert` with a name given as a static string.
///
/// The call panics on a name that is no header name and when the map cannot
/// grow. Names of letters, digits and hyphens of at most 64 bytes are header
/// names, and a map of fewer than six names never has to grow beyond its
/// first table. The map lowers the case of the name, drops every value that
/// was filed under it, and files `value` there.
#[verifier::external_body]
pub(crate) fn header_map_insert(map: &mut HeaderMap, name: &'static str, value: HeaderValue)
    requires
        is_plain_header_name(name@),
        header_map_entries(*old(map)).dom().finite(),
        header_map_entries(*old(map)).dom().len() < 6,
    ensures
        header_map_entries(*final(map)) == header_map_entries(*old(map)).insert(
            header_name_key(name@),
            (header_value_bytes(value), header_value_is_sensitive(value)),
        ),
{
    map.insert(name, value);
}

/// `reqwest::Client::builder`, `ClientBuilder::default_headers` and
/// `ClientBuilder::build`: an HTTP client that sends `headers` with every
/// request.
///
/// The builder files a copy of every value of `headers` under its name in a
/// header map of its own, beside what it sends by itself, and the client
/// keeps that map. The map panics when it cannot grow, so only maps of a few
/// names are handed over. Whether the client can be built depends on the
/// machine, so nothing is claimed of success.
#[verifier::external_body]
pub(crate) fn build_http_client(headers: HeaderMap) -> (r: Result<HttpClient, HttpError>)
    requires
        header_map_entries(headers).dom().finite(),
        header_map_entries(headers).dom().len() < 6,
    ensures
        r matches Ok(client) ==> header_map_entries(headers).submap_of(
            http_client_default_headers(client),
        ),
{
    HttpClient::builder().default_headers(headers).build()
}

/// The name of the header that carries the subscription key.
pub const KEY_HEADER: &'static str = "Ocp-Apim-Subscription-Key";

/// The name of the header that says what kind of body a request has.
pub const CONTENT_TYPE_HEADER: &'static str = "content-type";

/// The content type of a request whose body is the image itself.
pub const OCTET_STREAM: &'static str = "application/octet-stream";

/// A text that can be sent as a header value: its UTF-8 encoding holds no
/// control character but the tab.
pub open spec fn is_header_text(text: Seq<char>) -> bool {
    is_header_value(encode_utf8(text))
}

/// The characters that may stand in a header value: any but the control
/// characters, of which only the tab is allowed.
pub open spec fn is_header_char(c: char) -> bool {
    (c as u32 >= 32 && c as u32 != 127) || c == '\t'
}

/// The bytes of one character may all stand in a header value exactly when
/// the character may.
proof fn lemma_header_char_by_bytes(c: char)
    ensures
        is_header_value(encode_scalar(c as u32)) <==> is_header_char(c),
{
    let v = c as u32;
    let bytes = encode_scalar(v);
    vstd::utf8::char_is_scalar(c);
    if has_width_1_encoding(v) {
        let b = leading_byte_width_1(v);
        assert(b as u32 == v) by (bit_vector)
            requires
                v <= 0x7F,
                b == (v & 0x7F) as u8,
        ;
        assert(bytes[0] == b);
        assert(c == '\t' <==> v == 9);
    } else {
        let b1 = (v >> 6) & 0x1F;
        let b2 = (v >> 12) & 0x0F;
        let b3 = (v >> 18) & 0x7;
        let c1 = v & 0x3F;
        let c2 = (v >> 6) & 0x3F;
        let c3 = (v >> 12) & 0x3F;
        assert(0xC0u8 | b1 as u8 >= 0x80 && 0xE0u8 | b2 as u8 >= 0x80 && 0xF0u8 | b3 as u8 >= 0x80
            && 0x80u8 | c1 as u8 >= 0x80 && 0x80u8 | c2 as u8 >= 0x80 && 0x80u8 | c3 as u8
            >= 0x80) by (bit_vector);
        assert forall|i: int| 0 <= i < bytes.len() implies is_header_value_byte(
            #[trigger] bytes[i],
        ) by {
            assert(bytes[i] >= 0x80);
        }
        assert(c != '\t');
    }
}

/// A text can be sent as a header value exactly when each of its characters
/// can: a text with a line feed, or any control character but the tab, is
/// refused, and every other text is taken.
pub proof fn lemma_header_text_by_chars(text: Seq<char>)
    ensures
        is_header_text(text) <==> forall|i: int|
            0 <= i < text.len() ==> is_header_char(#[trigger] text[i]),
        text.contains('\n') ==> !is_header_text(text),
    decreases text.len(),
{
    if text.len() > 0 {
        let head = encode_scalar(text[0] as u32);
        let rest = text.drop_first();
        let tail = encode_utf8(rest);
        lemma_header_char_by_bytes(text[0]);
        lemma_header_text_by_chars(rest);
        assert(encode_utf8(text) == head + tail);
        if is_header_text(text) {
            assert forall|i: int| 0 <= i < head.len() implies is_header_value_byte(
                #[trigger] head[i],
            ) by {
                assert((head + tail)[i] == head[i]);
            }
            assert forall|i: int| 0 <= i < tail.len() implies is_header_value_byte(
                #[trigger] tail[i],
            ) by {
                assert((head + tail)[head.len() + i] == tail[i]);
            }
            assert forall|i: int| 0 <= i < text.len() implies is_header_char(
                #[trigger] text[i],
            ) by {
                if i > 0 {
                    assert(rest[i - 1] == text[i]);
                }
            }
        }
        if forall|i: int| 0 <= i < text.len() ==> is_header_char(#[trigger] text[i]) {
            assert(is_header_char(text[0]));
            assert forall|i: int| 0 <= i < rest.len() implies is_header_char(
                #[trigger] rest[i],
            ) by {
                assert(rest[i] == text[i + 1]);
            }
            assert forall|i: int| 0 <= i < (head + tail).len() implies is_header_value_byte(
                #[trigger] (head + tail)[i],
            ) by {
                if i < head.len() {
                    assert((head + tail)[i] == head[i]);
                } else {
                    assert((head + tail)[i] == tail[i - head.len()]);
                }
            }
        }
    }
    if text.contains('\n') {
        let i = choose|i: int| 0 <= i < text.len() && text[i] == '\n';
        assert(!is_header_char(text[i]));
    }
}

/// The headers that a client sends with every request: the key, marked as
/// sensitive, and the content type of raw image bytes.
pub open spec fn subscription_headers_spec(key: Seq<char>) -> Map<Seq<char>, (Seq<u8>, bool)> {
    no_headers().insert(header_name_key(KEY_HEADER@), (encode_utf8(key), true)).insert(
        header_name_key(CONTENT_TYPE_HEADER@),
        (encode_utf8(OCTET_STREAM@), false),
    )
}

/// The names and the content type that this crate sends are well-formed.
proof fn lemma_fixed_header_texts()
    ensures
        is_plain_header_name(KEY_HEADER@),
        is_plain_header_name(CONTENT_TYPE_HEADER@),
        is_visible_ascii(OCTET_STREAM@),
{
    reveal_strlit("Ocp-Apim-Subscription-Key");
    reveal_strlit("content-type");
    reveal_strlit("application/octet-stream");
}

/// Builds the headers that a client sends with every request.
///
/// Fails exactly when the key cannot stand in a header. Otherwise the map
/// holds two headers: the key, marked as sensitive, under
/// `Ocp-Apim-Subscription-Key`, and `application/octet-stream` as the content
/// type.
pub fn subscription_headers(key: &Secret) -> (r: Result<HeaderMap, InvalidHeaderValue>)
    ensures
        r.is_ok() <==> is_header_text(key@),
        r matches Ok(m) ==> header_map_entries(m) == subscription_headers_spec(key@),
{
    let mut headers = header_map_new();
    let mut header_key = match header_value_from_str(key.value()) {
        Ok(value) => value,
        Err(e) => {
            return Err(e);
        },
    };
    header_value_set_sensitive(&mut header_key, true);
    proof {
        lemma_fixed_header_texts();
    }
    header_map_insert(&mut headers, KEY_HEADER, header_key);
    let content_type = header_value_from_static(OCTET_STREAM);
    header_map_insert(&mut headers, CONTENT_TYPE_HEADER, content_type);
    Ok(headers)
}

/// The two shapes that the body of a response can have.
#[derive(Debug, Clone, Copy, PartialEq, Eq, Structural)]
pub enum BodyKind {
    /// The result of the analysis.
    Analysis,
    /// The error envelope of the API.
    ErrorEnvelope,
}

/// A status from 200 to 299 announces the result of the analysis.
pub open spec fn is_success_status(status: u16) -> bool {
    200 <= status < 300
}

/// Says against which shape the body of a response is decoded: the result of
/// the analysis after a status of success, the error envelope after any other.
pub fn expected_body(status: u16) -> (r: BodyKind)
    ensures
        r == if is_success_status(status) {
            BodyKind::Analysis
        } else {
            BodyKind::ErrorEnvelope
        },
{
    if 200 <= status && status < 300 {
        BodyKind::Analysis
    } else {
        BodyKind::ErrorEnvelope
    }
}

} // verus!
