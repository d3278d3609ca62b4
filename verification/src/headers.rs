//! Request headers of the `http` crate.
//!
//! The functions of `http` that are used here are not verified: their contracts are taken on
//! trust.

use vstd::prelude::*;
use vstd::utf8::encode_utf8;

verus! {

/// `http::HeaderMap`, whose content is given by [`headers_of`].
#[verifier::external_type_specification]
#[verifier::external_body]
#[verifier::reject_recursive_types(T)]
pub struct ExHeaderMap<T>(http::HeaderMap<T>);

/// `http::HeaderValue`, whose bytes are given by [`value_bytes`].
#[verifier::external_type_specification]
#[verifier::external_body]
pub struct ExHeaderValue(http::HeaderValue);

/// `http::HeaderName`.
#[verifier::external_type_specification]
#[verifier::external_body]
pub struct ExHeaderName(http::HeaderName);

/// `http::header::InvalidHeaderName`.
#[verifier::external_type_specification]
#[verifier::external_body]
pub struct ExInvalidHeaderName(http::header::InvalidHeaderName);

/// `http::header::ToStrError`.
#[verifier::external_type_specification]
#[verifier::external_body]
pub struct ExToStrError(http::header::ToStrError);

/// The headers of a request: under each name, in lower case, the bytes of its values, the
/// first one first.
pub uninterp spec fn headers_of(
    headers: http::HeaderMap<http::HeaderValue>,
) -> Map<Seq<u8>, Seq<Seq<u8>>>;

/// The bytes of a header value.
pub uninterp spec fn value_bytes(value: http::HeaderValue) -> Seq<u8>;

/// A byte that may stand in a header name: a letter, a digit or one of ``!#$%&'*+-.^_`|~``.
pub open spec fn is_token_byte(b: u8) -> bool {
    ||| 0x30 <= b <= 0x39
    ||| 0x41 <= b <= 0x5a
    ||| 0x5e <= b <= 0x7a
    ||| 0x23 <= b <= 0x27
    ||| b == 0x21
    ||| b == 0x2a
    ||| b == 0x2b
    ||| b == 0x2d
    ||| b == 0x2e
    ||| b == 0x7c
    ||| b == 0x7e
}

/// A legal header name: at least one byte, fewer than 65536, each of which may stand in a name.
pub open spec fn is_header_name(name: Seq<u8>) -> bool {
    0 < name.len() <= 0xffff && forall|i: int| 0 <= i < name.len() ==> is_token_byte(#[trigger] name[i])
}

/// The lower case of an ASCII letter; any other byte as it is.
pub open spec fn lower_byte(b: u8) -> u8 {
    if 0x41 <= b <= 0x5a {
        (b + 0x20) as u8
    } else {
        b
    }
}

/// `name` with its ASCII letters in lower case.
pub open spec fn lower_case(name: Seq<u8>) -> Seq<u8> {
    name.map_values(|b: u8| lower_byte(b))
}

/// Only visible ASCII characters, blanks and tabs.
pub open spec fn is_visible(bytes: Seq<u8>) -> bool {
    forall|i: int| 0 <= i < bytes.len() ==> (0x20 <= #[trigger] bytes[i] < 0x7f || bytes[i] == 0x09)
}

/// The text of ASCII bytes.
pub open spec fn ascii_text(bytes: Seq<u8>) -> Seq<char> {
    bytes.map_values(|b: u8| b as char)
}

/// The text that the header `name` gives: its first value, where there is one and it is
/// visible ASCII.
pub open spec fn header_text(headers: Map<Seq<u8>, Seq<Seq<u8>>>, name: Seq<char>) -> Option<
    Seq<char>,
> {
    let key = lower_case(encode_utf8(name));
    if is_header_name(encode_utf8(name)) && headers.contains_key(key) && is_visible(headers[key][0]) {
        Some(ascii_text(headers[key][0]))
    } else {
        None
    }
}

/// `http::HeaderName::from_bytes`: succeeds on legal header names and on nothing else.
pub assume_specification[ http::HeaderName::from_bytes ](src: &[u8]) -> (r: Result<
    http::HeaderName,
    http::header::InvalidHeaderName,
>)
    ensures
        r is Ok <==> is_header_name(src@),
;

/// `Display` of `http::header::InvalidHeaderName`: one fixed message.
#[verifier::external_body]
pub(crate) fn invalid_name_message(error: &http::header::InvalidHeaderName) -> (text: String)
    ensures
        text@ == "invalid HTTP header name"@,
{
    error.to_string()
}

/// `http::HeaderMap::get`: the first value under the name, whose letters may be in either case.
/// A text that is no legal header name finds nothing.
#[verifier::external_body]
fn first_value<'a>(headers: &'a http::HeaderMap<http::HeaderValue>, name: &String) -> (r: Option<
    &'a http::HeaderValue,
>)
    ensures
        ({
            let key = lower_case(encode_utf8(name@));
            match r {
                Some(value) => is_header_name(encode_utf8(name@)) && headers_of(
                    *headers,
                ).contains_key(key) && value_bytes(*value) == headers_of(*headers)[key][0],
                None => !(is_header_name(encode_utf8(name@)) && headers_of(*headers).contains_key(
                    key,
                )),
            }
        }),
{
    headers.get(name)
}

/// `http::HeaderValue::to_str`: the value as text, where it is visible ASCII.
pub assume_specification[ http::HeaderValue::to_str ](value: &http::HeaderValue) -> (r: Result<
    &str,
    http::header::ToStrError,
>)
    ensures
        match r {
            Ok(text) => is_visible(value_bytes(*value)) && text@ == ascii_text(value_bytes(*value)),
            Err(_) => !is_visible(value_bytes(*value)),
        },
;

/// The text that the header `name` of a request gives.
pub fn read_header(headers: &http::HeaderMap<http::HeaderValue>, name: &String) -> (r: Option<
    String,
>)
    ensures
        match r {
            Some(text) => header_text(headers_of(*headers), name@) == Some(text@),
            None => header_text(headers_of(*headers), name@) is None,
        },
{
    match first_value(headers, name) {
        Some(value) => match value.to_str() {
            Ok(text) => Some(text.to_owned()),
            Err(_) => None,
        },
        None => None,
    }
}

/// Header names that differ only in the case of their letters give the same text.
pub proof fn header_names_ignore_case(
    headers: Map<Seq<u8>, Seq<Seq<u8>>>,
    name: Seq<char>,
    other: Seq<char>,
)
    requires
        lower_case(encode_utf8(name)) == lower_case(encode_utf8(other)),
    ensures
        header_text(headers, name) == header_text(headers, other),
{
    let a = encode_utf8(name);
    let b = encode_utf8(other);
    assert(lower_case(a).len() == a.len() && lower_case(b).len() == b.len());
    assert forall|i: int| 0 <= i < a.len() implies is_token_byte(#[trigger] a[i]) == is_token_byte(
        b[i],
    ) by {
        assert(lower_case(a)[i] == lower_byte(a[i]));
        assert(lower_case(b)[i] == lower_byte(b[i]));
    }
    assert(is_header_name(a) == is_header_name(b)) by {
        if is_header_name(b) {
            assert forall|i: int| 0 <= i < a.len() implies is_token_byte(#[trigger] a[i]) by {
                assert(is_token_byte(b[i]));
            }
        }
        if is_header_name(a) {
            assert forall|i: int| 0 <= i < b.len() implies is_token_byte(#[trigger] b[i]) by {
                assert(is_token_byte(a[i]));
            }
        }
    }
}

/// Lower case keeps the length of a name and every byte but the letters `A` to `Z`, each of which
/// becomes the letter thirty-two further on.
pub proof fn lower_case_changes_capital_letters_only(name: Seq<u8>, i: int)
    ensures
        lower_case(name).len() == name.len(),
        0 <= i < name.len() && 'A' as int <= name[i] <= 'Z' as int ==> lower_case(name)[i]
            == name[i] + 32,
        0 <= i < name.len() && !('A' as int <= name[i] <= 'Z' as int) ==> lower_case(name)[i]
            == name[i],
{
}

/// Names of letters, digits, hyphens and underscores are legal up to 65535 bytes; a name that is
/// empty, longer, or holds a control character, a blank, a colon or a byte beyond ASCII is not.
pub proof fn ordinary_names_are_legal(name: Seq<u8>)
    ensures
        0 < name.len() <= 65535 && (forall|i: int|
            0 <= i < name.len() ==> {
                ||| 'a' as int <= #[trigger] name[i] <= 'z' as int
                ||| 'A' as int <= name[i] <= 'Z' as int
                ||| '0' as int <= name[i] <= '9' as int
                ||| name[i] == '-' as int
                ||| name[i] == '_' as int
            }) ==> is_header_name(name),
        name.len() == 0 || name.len() > 65535 ==> !is_header_name(name),
        (exists|i: int|
            0 <= i < name.len() && (#[trigger] name[i] <= 32 || name[i] == ':' as int || name[i]
                >= 127)) ==> !is_header_name(name),
{
    if exists|i: int|
        0 <= i < name.len() && (#[trigger] name[i] <= 32 || name[i] == ':' as int || name[i]
            >= 127) {
        let i = choose|i: int|
            0 <= i < name.len() && (#[trigger] name[i] <= 32 || name[i] == ':' as int || name[i]
                >= 127);
        assert(!is_token_byte(name[i]));
    }
}

/// A header that a request has gives, character by character, the bytes of its first value,
/// exactly where these are visible ASCII, blanks or tabs.
pub proof fn header_gives_its_first_value(
    headers: Map<Seq<u8>, Seq<Seq<u8>>>,
    name: Seq<char>,
    value: Seq<u8>,
)
    requires
        is_header_name(encode_utf8(name)),
        headers.contains_key(lower_case(encode_utf8(name))),
        headers[lower_case(encode_utf8(name))][0] == value,
    ensures
        header_text(headers, name) is Some <==> forall|i: int|
            0 <= i < value.len() ==> (32 <= #[trigger] value[i] <= 126 || value[i] == 9),
        header_text(headers, name) matches Some(text) ==> text.len() == value.len() && forall|i: int|
            0 <= i < value.len() ==> #[trigger] text[i] as int == value[i],
{
    if header_text(headers, name) is Some {
        let text = header_text(headers, name)->0;
        assert forall|i: int| 0 <= i < value.len() implies #[trigger] text[i] as int == value[i] by {
            assert(32 <= value[i] <= 126 || value[i] == 9);
        }
    }
}

/// A header that a request lacks gives nothing, and neither does a text that is no header name.
pub proof fn absent_header_gives_nothing(headers: Map<Seq<u8>, Seq<Seq<u8>>>, name: Seq<char>)
    requires
        !is_header_name(encode_utf8(name)) || !headers.contains_key(lower_case(encode_utf8(name))),
    ensures
        header_text(headers, name) is None,
{
}

} // verus!
