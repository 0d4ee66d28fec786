//! Addresses, as the `url` crate reads them.
//!
//! The parser is not verified. This module names what it returns and states
//! that over the names; the state machine is proved against the statement.

use crate::gateway::optional_text;
use url::{ParseError, Url};
use vstd::prelude::*;

verus! {

/// `url::Url`: a parsed address. Opaque to the verifier; its text is
/// [`serialization`].
#[verifier::external_type_specification]
#[verifier::external_body]
pub struct ExUrl(url::Url);

/// `url::ParseError`: why a text is no address. Carried, never inspected.
#[verifier::external_type_specification]
#[verifier::external_body]
pub struct ExParseError(url::ParseError);

/// The text of a parsed address, in the normal form that the parser gave
/// it.
pub uninterp spec fn serialization(u: Url) -> Seq<char>;

/// What `Url::parse` makes of `text`: the normal form of the address, or
/// `None` where it reports an error.
pub uninterp spec fn normalized(text: Seq<char>) -> Option<Seq<char>>;

/// `Url::parse`. Claims that the outcome is a function of the text alone,
/// named [`normalized`].
#[verifier::external_body]
pub(crate) fn parse_url(text: &str) -> (r: Result<Url, ParseError>)
    ensures
        match r {
            Ok(u) => normalized(text@) == Some(serialization(u)),
            Err(_) => normalized(text@) is None,
        },
{
    Url::parse(text)
}

/// `Url::as_str`: the text of a parsed address.
#[verifier::external_body]
pub(crate) fn url_text(u: &Url) -> (r: &str)
    ensures
        r@ == serialization(*u),
{
    u.as_str()
}

/// The normal form of the address `text`, or `None` where `text` is no
/// address.
pub fn normalize(text: &str) -> (r: Option<String>)
    ensures
        optional_text(r) == normalized(text@),
{
    match parse_url(text) {
        Ok(u) => Some(url_text(&u).to_owned()),
        Err(_) => None,
    }
}

} // verus!
