//! The values exchanged with Cloudflare's API and their interpretation.

pub mod dns;
pub mod zone;

use vstd::prelude::*;
use zone::Zone;

verus! {

/// `reqwest::Error`: a failure of the HTTP transport. Nothing is known of
/// what it holds.
#[verifier::external_type_specification]
#[verifier::external_body]
pub struct ExReqwestError(reqwest::Error);

/// `serde_json::Error`: a response body that is not the expected JSON.
/// Nothing is known of what it holds.
#[verifier::external_type_specification]
#[verifier::external_body]
pub struct ExSerdeJsonError(serde_json::Error);

/// Where the zones of the account are listed, and below which everything
/// else of the API lies.
pub const ZONES_URL: &'static str = "https://api.cloudflare.com/client/v4/zones";

/// One error of the provider: its machine-readable code and its message.
#[derive(Debug, PartialEq, Eq)]
pub struct CloudflareError {
    pub code: i32,
    pub message: String,
}

/// The mathematical value of a [`CloudflareError`].
pub struct CloudflareErrorView {
    pub code: int,
    pub message: Seq<char>,
}

impl View for CloudflareError {
    type V = CloudflareErrorView;

    open spec fn view(&self) -> CloudflareErrorView {
        CloudflareErrorView { code: self.code as int, message: self.message@ }
    }
}

/// The values of a list of provider errors, in order.
pub open spec fn error_views(v: Seq<CloudflareError>) -> Seq<CloudflareErrorView> {
    Seq::new(v.len(), |i: int| v[i]@)
}

/// The envelope in which the provider answers a request for a list.
#[derive(Debug)]
pub struct Response<T> {
    pub result: Option<Vec<T>>,
    pub errors: Vec<CloudflareError>,
    pub success: bool,
}

impl<T> Response<T> {
    /// An envelope is usable when a successful one carries its result.
    pub open spec fn well_formed(&self) -> bool {
        self.success ==> self.result is Some
    }

    /// A failed answer is explained when it names at least one error.
    pub open spec fn explained(&self) -> bool {
        !self.success ==> self.errors.len() > 0
    }

    /// Whether [`Self::explained`] holds.
    pub fn is_explained(&self) -> (ok: bool)
        ensures
            ok == self.explained(),
    {
        self.success || self.errors.len() > 0
    }

    /// Whether [`Self::well_formed`] holds.
    pub fn is_well_formed(&self) -> (ok: bool)
        ensures
            ok == self.well_formed(),
    {
        !self.success || self.result.is_some()
    }

    /// Splits the envelope: the result of a successful answer, the errors of
    /// a failed one.
    pub fn into_result(self) -> (r: Result<Vec<T>, Vec<CloudflareError>>)
        requires
            self.well_formed(),
        ensures
            self.success ==> r == Ok::<Vec<T>, Vec<CloudflareError>>(self.result->Some_0),
            !self.success ==> r == Err::<Vec<T>, Vec<CloudflareError>>(self.errors),
    {
        if self.success {
            match self.result {
                Some(items) => Ok(items),
                None => Err(self.errors),
            }
        } else {
            Err(self.errors)
        }
    }
}

/// Why the list of zones, or of a zone's records, could not be had.
#[derive(Debug)]
#[allow(inconsistent_fields)]
pub enum ListZonesError {
    /// The provider answered with one or more errors.
    Cloudflare(Vec<CloudflareError>),
    /// The request could not be sent or its answer not received.
    Send { source: reqwest::Error },
    /// The answer was not the expected JSON.
    Malformed { source: serde_json::Error },
}

/// The zones of a zone-list answer, or the provider's errors.
pub fn get_zones(response: Response<Zone>) -> (r: Result<Vec<Zone>, ListZonesError>)
    requires
        response.well_formed(),
    ensures
        response.success ==> r == Ok::<Vec<Zone>, ListZonesError>(response.result->Some_0),
        !response.success ==> r == Err::<Vec<Zone>, ListZonesError>(
            ListZonesError::Cloudflare(response.errors),
        ),
{
    match response.into_result() {
        Ok(zones) => Ok(zones),
        Err(errors) => Err(ListZonesError::Cloudflare(errors)),
    }
}

/// A failure of the transport is a failure to send.
impl From<reqwest::Error> for ListZonesError {
    fn from(source: reqwest::Error) -> (e: ListZonesError) {
        ListZonesError::Send { source }
    }
}

impl vstd::std_specs::convert::FromSpecImpl<reqwest::Error> for ListZonesError {
    open spec fn obeys_from_spec() -> bool {
        true
    }

    open spec fn from_spec(source: reqwest::Error) -> ListZonesError {
        ListZonesError::Send { source }
    }
}

/// A body that cannot be read is a malformed answer.
impl From<serde_json::Error> for ListZonesError {
    fn from(source: serde_json::Error) -> (e: ListZonesError) {
        ListZonesError::Malformed { source }
    }
}

impl vstd::std_specs::convert::FromSpecImpl<serde_json::Error> for ListZonesError {
    open spec fn obeys_from_spec() -> bool {
        true
    }

    open spec fn from_spec(source: serde_json::Error) -> ListZonesError {
        ListZonesError::Malformed { source }
    }
}

/// The provider's errors are a failure of the provider.
impl From<Vec<CloudflareError>> for ListZonesError {
    fn from(source: Vec<CloudflareError>) -> (e: ListZonesError) {
        ListZonesError::Cloudflare(source)
    }
}

impl vstd::std_specs::convert::FromSpecImpl<Vec<CloudflareError>> for ListZonesError {
    open spec fn obeys_from_spec() -> bool {
        true
    }

    open spec fn from_spec(source: Vec<CloudflareError>) -> ListZonesError {
        ListZonesError::Cloudflare(source)
    }
}

} // verus!
