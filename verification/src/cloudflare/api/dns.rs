//! DNS records and the rules that apply to a single record.

use super::{CloudflareError, Response, ZONES_URL};
use crate::fetchers::{IpSet, IpSetView};
use vstd::prelude::*;
use vstd::string::StringExecFns;

verus! {

/// The type of a DNS record, as the provider names it.
#[derive(Clone, Copy, Debug, PartialEq, Eq, Structural)]
pub enum RecordType {
    A,
    AAAA,
    CAA,
    CERT,
    CNAME,
    DNSKEY,
    DS,
    HTTPS,
    LOC,
    MX,
    NAPTR,
    NS,
    PTR,
    SMIMEA,
    SRV,
    SSHFP,
    SVCB,
    TLSA,
    TXT,
    URI,
}

impl Default for RecordType {
    fn default() -> (t: RecordType)
        ensures
            t == RecordType::A,
    {
        RecordType::A
    }
}

/// A DNS record as the provider reported it.
#[derive(Debug, PartialEq, Eq)]
pub struct Record {
    pub id: String,
    pub zone_id: String,
    pub name: String,
    pub record_type: RecordType,
    pub content: String,
    pub locked: bool,
    pub comment: Option<String>,
    pub tags: Vec<String>,
}

/// The mathematical value of a [`Record`].
pub struct RecordView {
    pub id: Seq<char>,
    pub zone_id: Seq<char>,
    pub name: Seq<char>,
    pub record_type: RecordType,
    pub content: Seq<char>,
    pub locked: bool,
    pub comment: Option<Seq<char>>,
    pub tags: Seq<Seq<char>>,
}

/// The texts of a list of strings, in order.
pub open spec fn texts(v: Seq<String>) -> Seq<Seq<char>> {
    Seq::new(v.len(), |i: int| v[i]@)
}

/// The text of an optional string.
pub open spec fn opt_text(s: Option<String>) -> Option<Seq<char>> {
    match s {
        Some(t) => Some(t@),
        None => None,
    }
}

impl View for Record {
    type V = RecordView;

    open spec fn view(&self) -> RecordView {
        RecordView {
            id: self.id@,
            zone_id: self.zone_id@,
            name: self.name@,
            record_type: self.record_type,
            content: self.content@,
            locked: self.locked,
            comment: opt_text(self.comment),
            tags: texts(self.tags@),
        }
    }
}

/// The values of a list of records, in order.
pub open spec fn record_views(v: Seq<Record>) -> Seq<RecordView> {
    Seq::new(v.len(), |i: int| v[i]@)
}

/// `needle` occurs in `hay` as a run of consecutive characters.
pub open spec fn is_substring(needle: Seq<char>, hay: Seq<char>) -> bool {
    exists|i: int|
        0 <= i && i + needle.len() <= hay.len() && #[trigger] hay.subrange(
            i,
            i + needle.len(),
        ) == needle
}

impl RecordView {
    /// The record carries `tag`: its comment contains the tag somewhere, or
    /// one of its tags is the tag itself.
    pub open spec fn has_tag(self, tag: Seq<char>) -> bool {
        (self.comment matches Some(c) && is_substring(tag, c)) || self.tags.contains(tag)
    }
}

/// `str::contains` with a string pattern: whether `needle` occurs in `hay`
/// as a substring. The empty string occurs in every string.
#[verifier::external_body]
fn str_contains(hay: &str, needle: &str) -> (found: bool)
    ensures
        found == is_substring(needle@, hay@),
{
    hay.contains(needle)
}

impl Record {
    /// Whether the record is marked with `tag`, in its comment or among its tags.
    pub fn has_tag(&self, tag: &str) -> (marked: bool)
        ensures
            marked == self@.has_tag(tag@),
    {
        let in_comment = match &self.comment {
            Some(c) => str_contains(c.as_str(), tag),
            None => false,
        };
        if in_comment {
            return true;
        }
        let wanted = String::from_str(tag);
        let mut i: usize = 0;
        while i < self.tags.len()
            invariant
                i <= self.tags.len(),
                wanted@ == tag@,
                forall|j: int| 0 <= j < i ==> texts(self.tags@)[j] != tag@,
            decreases self.tags.len() - i,
        {
            if self.tags[i] == wanted {
                assert(texts(self.tags@)[i as int] == tag@);
                return true;
            }
            i += 1;
        }
        false
    }
}

/// A copy of a list of strings.
pub(crate) fn clone_strings(v: &Vec<String>) -> (c: Vec<String>)
    ensures
        c@ == v@,
{
    let mut c: Vec<String> = Vec::new();
    let mut i: usize = 0;
    while i < v.len()
        invariant
            i <= v.len(),
            c@ == v@.take(i as int),
        decreases v.len() - i,
    {
        c.push(v[i].clone());
        assert(v@.take(i + 1) == v@.take(i as int).push(v@[i as int]));
        i += 1;
    }
    assert(v@.take(v.len() as int) == v@);
    c
}

impl Clone for Record {
    fn clone(&self) -> (r: Record)
        ensures
            r@ == self@,
    {
        Record {
            id: self.id.clone(),
            zone_id: self.zone_id.clone(),
            name: self.name.clone(),
            record_type: self.record_type,
            content: self.content.clone(),
            locked: self.locked,
            comment: match &self.comment {
                Some(c) => Some(c.clone()),
                None => None,
            },
            tags: clone_strings(&self.tags),
        }
    }
}

/// Why a record is left as it is.
#[derive(Clone, Copy, Debug, PartialEq, Eq, Structural)]
pub enum SkipReason {
    /// The record already holds the address.
    UpToDate,
    /// The provider forbids changes to the record.
    Locked,
    /// No address of the record's family was found.
    NoApplicableAddress,
    /// The record holds no address at all.
    IncompatibleType,
}

/// One update of a record: the record it is for, by zone and id, and the
/// content, name and type to send.
#[derive(Debug, PartialEq, Eq)]
pub struct Patch {
    pub zone_id: String,
    pub record_id: String,
    pub content: String,
    pub name: String,
    pub record_type: RecordType,
}

/// The mathematical value of a [`Patch`].
pub struct PatchView {
    pub zone_id: Seq<char>,
    pub record_id: Seq<char>,
    pub content: Seq<char>,
    pub name: Seq<char>,
    pub record_type: RecordType,
}

impl View for Patch {
    type V = PatchView;

    open spec fn view(&self) -> PatchView {
        PatchView {
            zone_id: self.zone_id@,
            record_id: self.record_id@,
            content: self.content@,
            name: self.name@,
            record_type: self.record_type,
        }
    }
}

impl PatchView {
    /// Where the update is sent: the record's place below its zone.
    pub open spec fn url(self) -> Seq<char> {
        ZONES_URL@ + "/"@ + self.zone_id + "/dns_records/"@ + self.record_id
    }
}

impl Patch {
    /// Where the update is sent.
    pub fn url(&self) -> (url: String)
        ensures
            url@ == self@.url(),
    {
        let mut url = String::from_str(ZONES_URL);
        url.append("/");
        url.append(self.zone_id.as_str());
        url.append("/dns_records/");
        url.append(self.record_id.as_str());
        url
    }
}

/// What is to be done with a record.
#[derive(Debug, PartialEq, Eq)]
pub enum Decision {
    Skip(SkipReason),
    Update(Patch),
}

/// The mathematical value of a [`Decision`].
pub enum DecisionView {
    Skip(SkipReason),
    Update(PatchView),
}

impl View for Decision {
    type V = DecisionView;

    open spec fn view(&self) -> DecisionView {
        match self {
            Decision::Skip(reason) => DecisionView::Skip(*reason),
            Decision::Update(patch) => DecisionView::Update(patch@),
        }
    }
}

/// Why an update of a record did not happen or did not succeed.
#[derive(Debug)]
#[allow(inconsistent_fields)]
pub enum RecordUpdateError {
    /// The provider forbids changes to the record.
    Locked,
    /// The record already holds the address.
    UpToDate,
    /// The provider answered with one or more errors.
    Cloudflare(Vec<CloudflareError>),
    /// The request could not be sent or its answer not received.
    Send { source: reqwest::Error },
}

/// An answer to an update names the record that it left behind.
pub open spec fn names_record(response: Response<Record>) -> bool {
    response.success ==> response.result is Some && response.result->Some_0.len() > 0
}

/// Whether [`names_record`] holds.
pub fn does_name_record(response: &Response<Record>) -> (ok: bool)
    ensures
        ok == names_record(*response),
{
    !response.success || match &response.result {
        Some(records) => records.len() > 0,
        None => false,
    }
}

/// The record that an update left behind, or the provider's errors.
pub fn updated_record(response: Response<Record>) -> (r: Result<Record, RecordUpdateError>)
    requires
        names_record(response),
    ensures
        response.success ==> r == Ok::<Record, RecordUpdateError>(response.result->Some_0[0]),
        !response.success ==> r == Err::<Record, RecordUpdateError>(
            RecordUpdateError::Cloudflare(response.errors),
        ),
{
    match response.into_result() {
        Ok(records) => {
            let mut records = records;
            Ok(records.remove(0))
        },
        Err(errors) => Err(RecordUpdateError::Cloudflare(errors)),
    }
}

impl RecordView {
    /// The update that gives the record the content `content` and leaves its
    /// name and type as they are.
    pub open spec fn patch(self, content: Seq<char>) -> PatchView {
        PatchView {
            zone_id: self.zone_id,
            record_id: self.id,
            content,
            name: self.name,
            record_type: self.record_type,
        }
    }

    /// The address of the record's family among `ips`; none for a record
    /// that holds no address.
    pub open spec fn applicable(self, ips: IpSetView) -> Option<Seq<char>> {
        match self.record_type {
            RecordType::A => ips.v4_addr,
            RecordType::AAAA => ips.v6_addr,
            _ => None,
        }
    }

    /// The decision table, first match first: a locked record is skipped; so
    /// is an A record without an IPv4 address and an AAAA record without an
    /// IPv6 address; so is a record of any other type; so is a record whose
    /// content is the address, letter for letter; every other record gets
    /// the address of its family.
    pub open spec fn decide(self, ips: IpSetView) -> DecisionView {
        if self.locked {
            DecisionView::Skip(SkipReason::Locked)
        } else if self.record_type == RecordType::A && ips.v4_addr is None {
            DecisionView::Skip(SkipReason::NoApplicableAddress)
        } else if self.record_type == RecordType::AAAA && ips.v6_addr is None {
            DecisionView::Skip(SkipReason::NoApplicableAddress)
        } else if self.record_type != RecordType::A && self.record_type != RecordType::AAAA {
            DecisionView::Skip(SkipReason::IncompatibleType)
        } else if self.applicable(ips) == Some(self.content) {
            DecisionView::Skip(SkipReason::UpToDate)
        } else {
            DecisionView::Update(self.patch(self.applicable(ips)->Some_0))
        }
    }
}

impl Record {
    /// The update that points the record at `ip`, unless the record is
    /// locked or holds `ip` already. The family of `ip` is the caller's
    /// matter.
    pub fn update(&self, ip: &str) -> (r: Result<Patch, RecordUpdateError>)
        ensures
            self.locked ==> r == Err::<Patch, RecordUpdateError>(RecordUpdateError::Locked),
            !self.locked && ip@ == self.content@ ==> r == Err::<Patch, RecordUpdateError>(
                RecordUpdateError::UpToDate,
            ),
            !self.locked && ip@ != self.content@ ==> (r matches Ok(p) && p@ == self@.patch(ip@)),
    {
        if self.locked {
            return Err(RecordUpdateError::Locked);
        }
        let content = String::from_str(ip);
        if content == self.content {
            return Err(RecordUpdateError::UpToDate);
        }
        Ok(
            Patch {
                zone_id: self.zone_id.clone(),
                record_id: self.id.clone(),
                content,
                name: self.name.clone(),
                record_type: self.record_type,
            },
        )
    }

    /// What is to be done with the record, given the addresses found.
    pub fn classify(&self, ips: &IpSet) -> (d: Decision)
        ensures
            d@ == self@.decide(ips@),
    {
        if self.locked {
            return Decision::Skip(SkipReason::Locked);
        }
        let found = match self.record_type {
            RecordType::A => &ips.v4_addr,
            RecordType::AAAA => &ips.v6_addr,
            _ => {
                return Decision::Skip(SkipReason::IncompatibleType);
            },
        };
        match found {
            None => Decision::Skip(SkipReason::NoApplicableAddress),
            Some(ip) => match self.update(ip.as_str()) {
                Ok(patch) => Decision::Update(patch),
                Err(_) => Decision::Skip(SkipReason::UpToDate),
            },
        }
    }
}

/// A failure of the transport is a failure to send.
impl From<reqwest::Error> for RecordUpdateError {
    fn from(source: reqwest::Error) -> (e: RecordUpdateError) {
        RecordUpdateError::Send { source }
    }
}

impl vstd::std_specs::convert::FromSpecImpl<reqwest::Error> for RecordUpdateError {
    open spec fn obeys_from_spec() -> bool {
        true
    }

    open spec fn from_spec(source: reqwest::Error) -> RecordUpdateError {
        RecordUpdateError::Send { source }
    }
}

} // verus!
