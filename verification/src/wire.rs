//! Requests and responses, as plain values.
//!
//! The library sends nothing itself. It says what is to be sent, as a [`Request`], and is
//! told what came back, as a [`Response`].

use vstd::prelude::*;
use crate::address::{Address, AddressView};
use crate::text::{names_match, same_name};

verus! {

/// How a request asks.
#[derive(Debug, Clone, Copy, PartialEq, Eq, Structural)]
pub enum Method {
    Get,
    Post,
}

/// A request to send.
#[derive(Debug, PartialEq, Eq)]
pub struct Request {
    pub method: Method,
    pub url: Address,
    /// The value of the `Authorization` header, where the request carries one.
    pub authorization: Option<String>,
    /// The body, where the request carries one.
    pub body: Option<String>,
}

/// The mathematical value of a [`Request`].
pub struct RequestView {
    pub method: Method,
    pub url: AddressView,
    pub authorization: Option<Seq<char>>,
    pub body: Option<Seq<char>>,
}

impl View for Request {
    type V = RequestView;

    open spec fn view(&self) -> RequestView {
        RequestView {
            method: self.method,
            url: self.url@,
            authorization: self.authorization.deep_view(),
            body: self.body.deep_view(),
        }
    }
}

/// One header of a response.
#[derive(Debug, PartialEq, Eq)]
pub struct Header {
    pub name: String,
    pub value: Vec<u8>,
}

impl DeepView for Header {
    type V = (Seq<char>, Seq<u8>);

    open spec fn deep_view(&self) -> (Seq<char>, Seq<u8>) {
        (self.name@, self.value@)
    }
}

/// A response, read to its end.
#[derive(Debug, PartialEq, Eq)]
pub struct Response {
    pub status: u16,
    /// The headers, in the order in which they came.
    pub headers: Vec<Header>,
    pub body: Vec<u8>,
}

/// The value of the first of `headers` whose name is `name`, whatever the case of its
/// letters.
pub open spec fn first_header(headers: Seq<(Seq<char>, Seq<u8>)>, name: Seq<char>) -> Option<
    Seq<u8>,
>
    decreases headers.len(),
{
    if headers.len() == 0 {
        None
    } else if same_name(headers[0].0, name) {
        Some(headers[0].1)
    } else {
        first_header(headers.drop_first(), name)
    }
}

/// Whether a byte is a tab or a printable character of ASCII.
pub open spec fn is_visible(byte: u8) -> bool {
    32 <= byte < 127 || byte == 9
}

/// Whether a character is a tab or a printable character of ASCII.
pub open spec fn is_visible_char(c: char) -> bool {
    is_visible(c as u8) && (c as u32) < 128
}

/// Whether a text holds nothing but tabs and printable characters of ASCII, so that it
/// can stand as the value of a header.
pub open spec fn is_visible_text(text: Seq<char>) -> bool {
    forall|i: int| 0 <= i < text.len() ==> is_visible_char(#[trigger] text[i])
}

/// The text of a header's value: its bytes as characters, where each of them is a tab or
/// a printable character of ASCII.
pub open spec fn header_text(value: Seq<u8>) -> Option<Seq<char>> {
    if forall|i: int| 0 <= i < value.len() ==> is_visible(#[trigger] value[i]) {
        Some(Seq::new(value.len(), |i: int| value[i] as char))
    } else {
        None
    }
}

/// The text of a header's value can itself stand as the value of a header.
pub proof fn header_text_is_visible(value: Seq<u8>)
    requires
        header_text(value) is Some,
    ensures
        is_visible_text(header_text(value).unwrap()),
{
    let text = header_text(value).unwrap();
    assert forall|i: int| 0 <= i < text.len() implies is_visible_char(#[trigger] text[i]) by {
        assert(is_visible(value[i]));
    }
}

/// Calls `HeaderValue::from_bytes` and then `HeaderValue::to_str`. The first refuses a value
/// with a control character other than the tab in it, the second one with any byte that
/// is neither a tab nor a printable character of ASCII; what is left is returned as it
/// is.
#[verifier::external_body]
fn read_header_text(value: &[u8]) -> (text: Option<String>)
    ensures
        text.deep_view() == header_text(value@),
{
    match hyper::header::HeaderValue::from_bytes(value) {
        Ok(header) => header.to_str().ok().map(|t| t.to_string()),
        Err(_) => None,
    }
}

/// The text of a header's value, where it is text.
pub fn text_of(value: &[u8]) -> (text: Option<String>)
    ensures
        text.deep_view() == header_text(value@),
{
    read_header_text(value)
}

impl Response {
    /// The value of the first header called `name`, whatever the case of its letters.
    pub fn header(&self, name: &str) -> (found: Option<&Vec<u8>>)
        ensures
            found.deep_view() == first_header(self.headers.deep_view(), name@),
    {
        let ghost all = self.headers.deep_view();
        assert(all.skip(0) =~= all);
        let mut i: usize = 0;
        while i < self.headers.len()
            invariant
                i <= self.headers@.len(),
                all == self.headers.deep_view(),
                first_header(all, name@) == first_header(all.skip(i as int), name@),
            decreases self.headers@.len() - i,
        {
            let header = &self.headers[i];
            proof {
                let rest = all.skip(i as int);
                assert(rest[0] == all[i as int]);
                assert(all[i as int] == self.headers@[i as int].deep_view());
                assert(rest.drop_first() =~= all.skip(i + 1));
            }
            if names_match(header.name.as_str(), name) {
                assert(header.value.deep_view() =~= header.value@);
                return Some(&header.value);
            }
            i += 1;
        }
        None
    }
}

} // verus!
