//! Zones: the DNS namespaces of an account.

use super::dns::Record;
use super::{CloudflareError, Response, ZONES_URL};
use vstd::prelude::*;
use vstd::string::StringExecFns;

verus! {

/// A DNS namespace hosted by the provider.
#[derive(Debug, PartialEq, Eq)]
pub struct Zone {
    pub id: String,
    pub name: String,
}

/// The mathematical value of a [`Zone`].
pub struct ZoneView {
    pub id: Seq<char>,
    pub name: Seq<char>,
}

impl View for Zone {
    type V = ZoneView;

    open spec fn view(&self) -> ZoneView {
        ZoneView { id: self.id@, name: self.name@ }
    }
}

impl Clone for Zone {
    fn clone(&self) -> (z: Zone)
        ensures
            z@ == self@,
    {
        Zone { id: self.id.clone(), name: self.name.clone() }
    }
}

/// The values of a list of zones, in order.
pub open spec fn zone_views(v: Seq<Zone>) -> Seq<ZoneView> {
    Seq::new(v.len(), |i: int| v[i]@)
}

/// Where the records of the zone `zone_id` are listed.
pub open spec fn records_url_spec(zone_id: Seq<char>) -> Seq<char> {
    ZONES_URL@ + "/"@ + zone_id + "/dns_records"@
}

/// Where the records of the zone `zone_id` are listed.
pub fn records_url(zone_id: &str) -> (url: String)
    ensures
        url@ == records_url_spec(zone_id@),
{
    let mut url = String::from_str(ZONES_URL);
    url.append("/");
    url.append(zone_id);
    url.append("/dns_records");
    url
}

impl Zone {
    /// The records of a record-list answer, or the first of the provider's
    /// errors.
    pub fn get_records(response: Response<Record>) -> (r: Result<Vec<Record>, CloudflareError>)
        requires
            response.well_formed(),
            response.explained(),
        ensures
            response.success ==> r == Ok::<Vec<Record>, CloudflareError>(
                response.result->Some_0,
            ),
            !response.success ==> r == Err::<Vec<Record>, CloudflareError>(response.errors[0]),
    {
        match response.into_result() {
            Ok(records) => Ok(records),
            Err(errors) => {
                let mut errors = errors;
                Err(errors.remove(0))
            },
        }
    }
}

} // verus!
