//! Where the host's current public address comes from.

use vstd::prelude::*;
use vstd::string::StringExecFns;

verus! {

/// A public address in its textual form, by family.
#[derive(Debug, PartialEq, Eq)]
pub enum Address {
    V4(String),
    V6(String),
}

/// The addresses found for the host: at most one of each family, each in its
/// textual form.
#[derive(Debug, PartialEq, Eq)]
pub struct IpSet {
    pub v4_addr: Option<String>,
    pub v6_addr: Option<String>,
}

/// The mathematical value of an [`IpSet`].
pub struct IpSetView {
    pub v4_addr: Option<Seq<char>>,
    pub v6_addr: Option<Seq<char>>,
}

impl View for IpSet {
    type V = IpSetView;

    open spec fn view(&self) -> IpSetView {
        IpSetView {
            v4_addr: match self.v4_addr {
                Some(a) => Some(a@),
                None => None,
            },
            v6_addr: match self.v6_addr {
                Some(a) => Some(a@),
                None => None,
            },
        }
    }
}

impl IpSet {
    /// No address of either family.
    pub fn none() -> (ips: IpSet)
        ensures
            ips@ == (IpSetView { v4_addr: None, v6_addr: None }),
    {
        IpSet { v4_addr: None, v6_addr: None }
    }

    /// The set that holds `addr` in the slot of its family and nothing in the
    /// other.
    pub fn single(addr: Address) -> (ips: IpSet)
        ensures
            addr matches Address::V4(a) ==> ips@ == (IpSetView {
                v4_addr: Some(a@),
                v6_addr: None,
            }),
            addr matches Address::V6(a) ==> ips@ == (IpSetView {
                v4_addr: None,
                v6_addr: Some(a@),
            }),
    {
        match addr {
            Address::V4(a) => IpSet { v4_addr: Some(a), v6_addr: None },
            Address::V6(a) => IpSet { v4_addr: None, v6_addr: Some(a) },
        }
    }
}

/// Why no address could be fetched.
#[derive(Debug)]
pub enum FetchError {
    /// The transport failed, or the answer could not be read.
    ReqwestError { source: reqwest::Error },
    /// The service answered with a status other than success.
    HttpError { code: u16 },
    /// The router to ask could not be determined.
    Generic(String),
}

/// A source of the host's current public address.
pub trait Fetch {
    /// The addresses found now. A family that the source cannot determine is
    /// absent; a failure of the transport fails the whole call.
    fn fetch(&self) -> Result<IpSet, FetchError>;
}

/// The source that finds nothing, and asks nobody.
#[derive(Debug, PartialEq, Eq)]
pub struct Disabled {}

impl Fetch for Disabled {
    fn fetch(&self) -> (r: Result<IpSet, FetchError>)
        ensures
            r matches Ok(ips) && ips@ == (IpSetView { v4_addr: None, v6_addr: None }),
    {
        Ok(IpSet::none())
    }
}

/// The address of the public lookup service.
pub const IPIFY_URL: &'static str = "https://api64.ipify.org?format=json";

/// The address of a router's status page: `http://`, the router, `/api/v1/status`.
pub open spec fn status_url_spec(router: Seq<char>) -> Seq<char> {
    "http://"@ + router + "/api/v1/status"@
}

/// The address of the status page of the router at `router`.
pub fn status_url(router: &str) -> (url: String)
    ensures
        url@ == status_url_spec(router@),
{
    let mut url = String::from_str("http://");
    url.append(router);
    url.append("/api/v1/status");
    url
}

/// The router to ask: the configured one, else the default gateway.
pub fn router_address(
    configured: Option<String>,
    gateway: Result<String, String>,
) -> (r: Result<String, FetchError>)
    ensures
        configured matches Some(ip) ==> r == Ok::<String, FetchError>(ip),
        configured is None ==> match gateway {
            Ok(ip) => r == Ok::<String, FetchError>(ip),
            Err(e) => r == Err::<String, FetchError>(FetchError::Generic(e)),
        },
{
    match configured {
        Some(ip) => Ok(ip),
        None => match gateway {
            Ok(ip) => Ok(ip),
            Err(e) => Err(FetchError::Generic(e)),
        },
    }
}

/// A status code of the success class: 200 to 299.
pub open spec fn is_success_code(code: u16) -> bool {
    200 <= code <= 299
}

/// `reqwest::StatusCode::from_u16`, then `is_success` on the status it
/// gives: a number from 100 to 999 is a status, and a status is a success
/// when it lies within 200 to 299; any other number is no status at all.
#[verifier::external_body]
fn status_is_success(code: u16) -> (r: Option<bool>)
    ensures
        r == if 100 <= code <= 999 {
            Some(is_success_code(code))
        } else {
            None
        },
{
    match reqwest::StatusCode::from_u16(code) {
        Ok(status) => Some(status.is_success()),
        Err(_) => None,
    }
}

/// What an answer of a lookup service amounts to: with a status of the
/// success class, the address of its body in the slot of its family, or the
/// failure to read the body; with any other status, that status as an error.
pub fn fetched(status: u16, body: Result<Address, FetchError>) -> (r: Result<IpSet, FetchError>)
    ensures
        !is_success_code(status) ==> r == Err::<IpSet, FetchError>(FetchError::HttpError { code: status }),
        is_success_code(status) ==> match body {
            Ok(Address::V4(a)) => r matches Ok(ips) && ips@ == (IpSetView {
                v4_addr: Some(a@),
                v6_addr: None,
            }),
            Ok(Address::V6(a)) => r matches Ok(ips) && ips@ == (IpSetView {
                v4_addr: None,
                v6_addr: Some(a@),
            }),
            Err(e) => r == Err::<IpSet, FetchError>(e),
        },
{
    match status_is_success(status) {
        Some(true) => match body {
            Ok(addr) => Ok(IpSet::single(addr)),
            Err(e) => Err(e),
        },
        _ => Err(FetchError::HttpError { code: status }),
    }
}

/// A failure of the transport is a failure to fetch.
impl From<reqwest::Error> for FetchError {
    fn from(source: reqwest::Error) -> (e: FetchError) {
        FetchError::ReqwestError { source }
    }
}

impl vstd::std_specs::convert::FromSpecImpl<reqwest::Error> for FetchError {
    open spec fn obeys_from_spec() -> bool {
        true
    }

    open spec fn from_spec(source: reqwest::Error) -> FetchError {
        FetchError::ReqwestError { source }
    }
}

} // verus!
