//! Absolute URLs.
//!
//! URLs are read and resolved by the `url` crate. An [`Address`] keeps, as plain text, what
//! the library needs of a URL that the crate has read.

use vstd::prelude::*;

verus! {

#[verifier::external_type_specification]
#[verifier::external_body]
pub struct ExParseError(url::ParseError);

/// An absolute URL.
#[derive(Debug, PartialEq, Eq)]
pub struct Address {
    text: String,
    scheme: String,
}

/// The mathematical value of an [`Address`].
pub struct AddressView {
    /// The URL, written out.
    pub text: Seq<char>,
    /// Its scheme, in lower case and without the colon.
    pub scheme: Seq<char>,
}

impl View for Address {
    type V = AddressView;

    closed spec fn view(&self) -> AddressView {
        AddressView { text: self.text@, scheme: self.scheme@ }
    }
}

/// What `url::Url::parse` makes of `input`: the URL, or the fault that it reports.
pub uninterp spec fn url_parse(input: Seq<char>) -> Result<AddressView, url::ParseError>;

/// What `url::Url::join` makes of `relative` on the URL that `url::Url::parse` reads from
/// `base`: the URL, or the fault that the first of the two to fail reports.
pub uninterp spec fn url_join(base: Seq<char>, relative: Seq<char>) -> Result<
    AddressView,
    url::ParseError,
>;

/// An outcome with the URL taken by its value.
pub open spec fn seen(outcome: Result<Address, url::ParseError>) -> Result<
    AddressView,
    url::ParseError,
> {
    match outcome {
        Ok(address) => Ok(address@),
        Err(fault) => Err(fault),
    }
}

/// Calls `url::Url::parse`, and keeps of the URL what `as_str` and `scheme` return. The
/// contract gives the outcome its name, [`url_parse`], and claims nothing else of it.
#[verifier::external_body]
fn parse_url(input: &str) -> (parsed: Result<Address, url::ParseError>)
    ensures
        seen(parsed) == url_parse(input@),
{
    let url = url::Url::parse(input)?;
    Ok(Address { text: url.as_str().to_string(), scheme: url.scheme().to_string() })
}

/// Calls `url::Url::join` on the URL that `url::Url::parse` reads from the text of `base`,
/// and keeps of the result what `as_str` and `scheme` return. The contract gives the
/// outcome its name, [`url_join`], and claims nothing else of it. A `file` URL is left
/// out as the base: on one that ends in a drive letter the crate's parser runs into a
/// debug assertion.
#[verifier::external_body]
fn join_url(base: &Address, relative: &str) -> (joined: Result<Address, url::ParseError>)
    requires
        base@.scheme != "file"@,
    ensures
        seen(joined) == url_join(base@.text, relative@),
{
    let url = url::Url::parse(base.text.as_str())?.join(relative)?;
    Ok(Address { text: url.as_str().to_string(), scheme: url.scheme().to_string() })
}

impl Address {
    /// Reads an absolute URL.
    pub fn parse(input: &str) -> (parsed: Result<Address, url::ParseError>)
        ensures
            seen(parsed) == url_parse(input@),
    {
        parse_url(input)
    }

    /// Resolves `relative` against this URL, which may not be a `file` URL.
    pub fn join(&self, relative: &str) -> (joined: Result<Address, url::ParseError>)
        requires
            self@.scheme != "file"@,
        ensures
            seen(joined) == url_join(self@.text, relative@),
    {
        join_url(self, relative)
    }

    /// The URL, written out.
    pub fn as_str(&self) -> (text: &str)
        ensures
            text@ == self@.text,
    {
        self.text.as_str()
    }

    /// The scheme, in lower case and without the colon.
    pub fn scheme(&self) -> (scheme: &str)
        ensures
            scheme@ == self@.scheme,
    {
        self.scheme.as_str()
    }
}

impl Clone for Address {
    fn clone(&self) -> (copy: Address)
        ensures
            copy@ == self@,
    {
        Address { text: self.text.clone(), scheme: self.scheme.clone() }
    }
}

} // verus!
