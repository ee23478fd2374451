//! What the `http` crate, as `axum` hands it on, says of status codes and header
//! values.

use vstd::prelude::*;

verus! {

/// Whether `code` is a status code.
pub open spec fn is_status(code: u16) -> bool {
    100 <= code <= 999
}

/// Whether `raw` can be the value of a header: no control character but the tab.
pub open spec fn is_header_value(raw: Seq<u8>) -> bool {
    forall|i: int| 0 <= i < raw.len() ==> #[trigger] raw[i] == 9 || (raw[i] >= 32 && raw[i] != 127)
}

/// Whether `raw` is visible ASCII, spaces and tabs.
pub open spec fn is_visible_ascii(raw: Seq<u8>) -> bool {
    forall|i: int| 0 <= i < raw.len() ==> #[trigger] raw[i] == 9 || 32 <= raw[i] < 127
}

/// The text of a header value, where it is one that can be read as text.
pub open spec fn header_text(raw: Seq<u8>) -> Option<Seq<char>> {
    if is_visible_ascii(raw) {
        Some(raw.map_values(|b: u8| b as char))
    } else {
        None
    }
}

/// Calls `http::StatusCode::from_u16`, which takes the numbers from 100 to 999 and
/// no others, and hands back the number of the code that it made.
#[verifier::external_body]
pub(crate) fn status_from_u16(code: u16) -> (r: Option<u16>)
    ensures
        r == if is_status(code) {
            Some(code)
        } else {
            None
        },
{
    match axum::http::StatusCode::from_u16(code) {
        Ok(status) => Some(status.as_u16()),
        Err(_) => None,
    }
}

/// Calls `http::HeaderValue::from_bytes`, which takes the bytes from 32 on, but for
/// 127, and the tab, and fails on any other.
#[verifier::external_body]
pub(crate) fn header_value_accepts(raw: &Vec<u8>) -> (r: bool)
    ensures
        r == is_header_value(raw@),
{
    axum::http::HeaderValue::from_bytes(raw).is_ok()
}

/// Calls `http::HeaderValue::to_str` on the value with the bytes `raw`: it gives the
/// text, byte for byte, where every byte is visible ASCII, a space or a tab, and
/// fails on any other. Bytes that no header value can hold have no text either.
#[verifier::external_body]
pub(crate) fn header_to_str(raw: &Vec<u8>) -> (r: Option<String>)
    ensures
        match r {
            Some(text) => header_text(raw@) == Some(text@),
            None => header_text(raw@) is None,
        },
{
    match axum::http::HeaderValue::from_bytes(raw) {
        Ok(value) => match value.to_str() {
            Ok(text) => Some(text.to_string()),
            Err(_) => None,
        },
        Err(_) => None,
    }
}

} // verus!
