//! The reconciliation of an account's records with the host's addresses.
//!
//! A reconciliation never talks to the provider itself. It says what has to
//! be asked next ([`Reconciliation::request`]), is handed the answer
//! ([`Reconciliation::supply`]), and in the end holds one result for every
//! tagged record of every zone of the allow-list, in the order of the
//! listings.

pub mod api;
pub mod guarantees;

use crate::fetchers::{IpSet, IpSetView};
use crate::{outcome_view, outcome_views, skipped, OutcomeView, RecordUpdateResult, RunError};
use api::dns::{
    record_views, texts, Decision, DecisionView, Patch, PatchView, Record, RecordUpdateError,
    RecordView,
};
use api::zone::{zone_views, Zone, ZoneView};
use api::ListZonesError;
use vstd::prelude::*;
use vstd::string::StringExecFns;

verus! {

/// The account to reconcile: the token that opens it, the tag that marks the
/// records to keep current, and the zones, by id or name, to look into.
#[derive(Debug, PartialEq, Eq)]
pub struct Cloudflare {
    pub token: String,
    pub tag: String,
    pub domains: Vec<String>,
}

/// What a reconciliation waits for.
#[derive(Clone, Copy, Debug, PartialEq, Eq, Structural)]
pub enum Phase {
    /// The list of zones.
    Zones,
    /// The records of the zone at work.
    Records,
    /// The result of the update of the record at work.
    Update,
    /// Nothing: the run is over.
    Done,
}

/// What has to be asked of the provider.
#[derive(Debug, PartialEq, Eq)]
pub enum Request {
    ListZones,
    ListRecords { zone_id: String },
    UpdateRecord(Patch),
}

/// The mathematical value of a [`Request`].
pub enum RequestView {
    ListZones,
    ListRecords { zone_id: Seq<char> },
    UpdateRecord(PatchView),
}

impl View for Request {
    type V = RequestView;

    open spec fn view(&self) -> RequestView {
        match self {
            Request::ListZones => RequestView::ListZones,
            Request::ListRecords { zone_id } => RequestView::ListRecords { zone_id: zone_id@ },
            Request::UpdateRecord(patch) => RequestView::UpdateRecord(patch@),
        }
    }
}

/// What the provider answered.
#[derive(Debug)]
pub enum Reply {
    Zones(Result<Vec<Zone>, ListZonesError>),
    Records(Result<Vec<Record>, ListZonesError>),
    Updated(Result<Record, RecordUpdateError>),
}

/// The mathematical value of a [`Reply`]. A failure stands for itself.
pub enum ReplyView {
    Zones(Result<Seq<ZoneView>, ListZonesError>),
    Records(Result<Seq<RecordView>, ListZonesError>),
    Updated(Result<RecordView, RecordUpdateError>),
}

impl View for Reply {
    type V = ReplyView;

    open spec fn view(&self) -> ReplyView {
        match self {
            Reply::Zones(Ok(zones)) => ReplyView::Zones(Ok(zone_views(zones@))),
            Reply::Zones(Err(e)) => ReplyView::Zones(Err(*e)),
            Reply::Records(Ok(records)) => ReplyView::Records(Ok(record_views(records@))),
            Reply::Records(Err(e)) => ReplyView::Records(Err(*e)),
            Reply::Updated(Ok(record)) => ReplyView::Updated(Ok(record@)),
            Reply::Updated(Err(e)) => ReplyView::Updated(Err(*e)),
        }
    }
}

/// A zone is on the allow-list when its id or its name is.
pub open spec fn allowed(zone: ZoneView, domains: Seq<Seq<char>>) -> bool {
    domains.contains(zone.id) || domains.contains(zone.name)
}

/// The zones of a listing that are on the allow-list, in the listing's order.
pub open spec fn allowed_zones(zones: Seq<ZoneView>, domains: Seq<Seq<char>>) -> Seq<ZoneView> {
    zones.filter(|z: ZoneView| allowed(z, domains))
}

/// The records of a listing that carry the tag, in the listing's order.
pub open spec fn eligible(records: Seq<RecordView>, tag: Seq<char>) -> Seq<RecordView> {
    records.filter(|r: RecordView| r.has_tag(tag))
}

/// The tagged records of several listings: those of the first listing, then
/// those of the second, and so on.
pub open spec fn eligible_all(listings: Seq<Seq<RecordView>>, tag: Seq<char>) -> Seq<RecordView>
    decreases listings.len(),
{
    if listings.len() == 0 {
        Seq::empty()
    } else {
        eligible_all(listings.drop_last(), tag) + eligible(listings.last(), tag)
    }
}

/// The first record at or after `from` that has to be updated; the number of
/// records if there is none.
pub open spec fn first_update(records: Seq<RecordView>, from: int, ips: IpSetView) -> int
    decreases records.len() - from,
{
    if from < 0 || from >= records.len() {
        records.len() as int
    } else if records[from].decide(ips) is Update {
        from
    } else {
        first_update(records, from + 1, ips)
    }
}

/// The results of the records from `from` up to `to`, none of which has to
/// be updated: each is skipped for the reason the decision table gives.
pub open spec fn skips(records: Seq<RecordView>, from: int, to: int, ips: IpSetView) -> Seq<
    OutcomeView,
> {
    Seq::new(
        (to - from) as nat,
        |i: int| OutcomeView::Skipped(records[from + i].decide(ips)->Skip_0, records[from + i]),
    )
}

/// A result agrees with the decision table: a record that the table skips
/// has that skip for its result; a record that the table updates has the
/// provider's answer, the new record or the failure.
pub open spec fn agrees(outcome: OutcomeView, record: RecordView, ips: IpSetView) -> bool {
    match record.decide(ips) {
        DecisionView::Skip(reason) => outcome == OutcomeView::Skipped(reason, record),
        DecisionView::Update(_) => outcome is Updated || (outcome matches OutcomeView::Failed(
            _,
            subject,
        ) && subject == record),
    }
}

/// The mathematical value of a [`Reconciliation`]: what it was made with,
/// what it has been told so far, and where it stands.
pub struct ReconciliationView {
    pub tag: Seq<char>,
    pub domains: Seq<Seq<char>>,
    pub ips: IpSetView,
    pub phase: Phase,
    /// The zones of the allow-list, as listed.
    pub zones: Seq<ZoneView>,
    /// The zone at work.
    pub zone: int,
    /// The tagged records of the zone at work, as listed.
    pub records: Seq<RecordView>,
    /// The record at work.
    pub record: int,
    /// The results so far.
    pub results: Seq<OutcomeView>,
    /// The failure that ended the run.
    pub failure: Option<ListZonesError>,
    /// The listing of the zones, as it was supplied.
    pub zone_listing: Seq<ZoneView>,
    /// The listings of records, as they were supplied, one for each zone.
    pub listings: Seq<Seq<RecordView>>,
}

impl ReconciliationView {
    /// The state before anything was asked.
    pub open spec fn initial(tag: Seq<char>, domains: Seq<Seq<char>>, ips: IpSetView) -> Self {
        ReconciliationView {
            tag,
            domains,
            ips,
            phase: Phase::Zones,
            zones: Seq::empty(),
            zone: 0,
            records: Seq::empty(),
            record: 0,
            results: Seq::empty(),
            failure: None,
            zone_listing: Seq::empty(),
            listings: Seq::empty(),
        }
    }

    /// What has to be asked next; nothing once the run is over.
    pub open spec fn request(self) -> Option<RequestView> {
        match self.phase {
            Phase::Zones => Some(RequestView::ListZones),
            Phase::Records => Some(RequestView::ListRecords { zone_id: self.zones[self.zone].id }),
            Phase::Update => Some(
                RequestView::UpdateRecord(self.records[self.record].decide(self.ips)->Update_0),
            ),
            Phase::Done => None,
        }
    }

    /// The records that have their result: the tagged records of the zones
    /// that are done with, and those of the zone at work before the record
    /// at work.
    pub open spec fn subjects(self) -> Seq<RecordView> {
        if self.phase == Phase::Update {
            eligible_all(self.listings.drop_last(), self.tag) + self.records.take(self.record)
        } else {
            eligible_all(self.listings, self.tag)
        }
    }

    /// The run ends with `failure`; the results so far are dropped.
    pub open spec fn fail(self, failure: ListZonesError) -> Self {
        ReconciliationView {
            phase: Phase::Done,
            results: Seq::empty(),
            failure: Some(failure),
            ..self
        }
    }

    /// The zone `zone` is next: its records are asked for, or the run is
    /// over if there is no such zone.
    pub open spec fn enter(self, zone: int) -> Self {
        ReconciliationView {
            phase: if zone < self.zones.len() {
                Phase::Records
            } else {
                Phase::Done
            },
            zone,
            records: Seq::empty(),
            record: 0,
            ..self
        }
    }

    /// The records of the zone at work are gone through from `from`: those
    /// that are skipped get their result, up to the first that has to be
    /// updated, which becomes the record at work. Without one, the next zone
    /// is entered.
    pub open spec fn settle(self, from: int) -> Self {
        let to = first_update(self.records, from, self.ips);
        let settled = ReconciliationView {
            results: self.results + skips(self.records, from, to, self.ips),
            ..self
        };
        if to < self.records.len() {
            ReconciliationView { phase: Phase::Update, record: to, ..settled }
        } else {
            settled.enter(self.zone + 1)
        }
    }

    /// The state after `reply`. A reply that does not answer the request
    /// changes nothing.
    pub open spec fn next(self, reply: ReplyView) -> Self {
        match (self.phase, reply) {
            (Phase::Zones, ReplyView::Zones(Ok(zones))) => ReconciliationView {
                zones: allowed_zones(zones, self.domains),
                zone_listing: zones,
                ..self
            }.enter(0),
            (Phase::Zones, ReplyView::Zones(Err(failure))) => self.fail(failure),
            (Phase::Records, ReplyView::Records(Ok(records))) => ReconciliationView {
                records: eligible(records, self.tag),
                listings: self.listings.push(records),
                ..self
            }.settle(0),
            (Phase::Records, ReplyView::Records(Err(failure))) => self.fail(failure),
            (Phase::Update, ReplyView::Updated(Ok(record))) => ReconciliationView {
                results: self.results.push(OutcomeView::Updated(record)),
                ..self
            }.settle(self.record + 1),
            (Phase::Update, ReplyView::Updated(Err(failure))) => ReconciliationView {
                results: self.results.push(
                    OutcomeView::Failed(failure, self.records[self.record]),
                ),
                ..self
            }.settle(self.record + 1),
            _ => self,
        }
    }

    /// The state after each of `replies` in turn.
    pub open spec fn after(self, replies: Seq<ReplyView>) -> Self
        decreases replies.len(),
    {
        if replies.len() == 0 {
            self
        } else {
            self.after(replies.drop_last()).next(replies.last())
        }
    }

    /// What holds of every state that a run can reach.
    pub open spec fn wf(self) -> bool {
        &&& self.failure is Some ==> self.phase == Phase::Done && self.results.len() == 0
        &&& self.failure is None ==> {
            &&& self.zones == allowed_zones(self.zone_listing, self.domains)
            &&& 0 <= self.zone <= self.zones.len()
            &&& self.results.len() == self.subjects().len()
            &&& forall|p: int|
                0 <= p < self.results.len() ==> agrees(
                    #[trigger] self.results[p],
                    self.subjects()[p],
                    self.ips,
                )
            &&& match self.phase {
                Phase::Zones => self.zone_listing.len() == 0 && self.listings.len() == 0
                    && self.zone == 0,
                Phase::Records => self.zone < self.zones.len() && self.listings.len()
                    == self.zone,
                Phase::Update => {
                    &&& self.zone < self.zones.len()
                    &&& self.listings.len() == self.zone + 1
                    &&& self.records == eligible(self.listings.last(), self.tag)
                    &&& 0 <= self.record < self.records.len()
                    &&& self.records[self.record].decide(self.ips) is Update
                },
                Phase::Done => self.zone == self.zones.len() && self.listings.len()
                    == self.zone,
            }
        }
    }
}

/// Where the first record to update lies: not before `from`, with nothing
/// but skipped records in between.
pub proof fn lemma_first_update(records: Seq<RecordView>, from: int, ips: IpSetView)
    requires
        0 <= from <= records.len(),
    ensures
        from <= first_update(records, from, ips) <= records.len(),
        forall|i: int|
            from <= i < first_update(records, from, ips) ==> (#[trigger] records[i]).decide(ips)
                is Skip,
        first_update(records, from, ips) < records.len() ==> records[first_update(
            records,
            from,
            ips,
        )].decide(ips) is Update,
    decreases records.len() - from,
{
    if from < records.len() && !(records[from].decide(ips) is Update) {
        lemma_first_update(records, from + 1, ips);
    }
}

/// Going through the records of the zone at work keeps a state well formed.
proof fn lemma_settle_wf(t: ReconciliationView, from: int)
    requires
        t.failure is None,
        t.zones == allowed_zones(t.zone_listing, t.domains),
        0 <= t.zone < t.zones.len(),
        t.listings.len() == t.zone + 1,
        t.records == eligible(t.listings.last(), t.tag),
        0 <= from <= t.records.len(),
        t.results.len() == (eligible_all(t.listings.drop_last(), t.tag) + t.records.take(
            from,
        )).len(),
        forall|p: int|
            0 <= p < t.results.len() ==> agrees(
                #[trigger] t.results[p],
                (eligible_all(t.listings.drop_last(), t.tag) + t.records.take(from))[p],
                t.ips,
            ),
    ensures
        t.settle(from).wf(),
{
    let to = first_update(t.records, from, t.ips);
    lemma_first_update(t.records, from, t.ips);
    let u = t.settle(from);
    let before = eligible_all(t.listings.drop_last(), t.tag);
    let done = before + t.records.take(to);
    assert(u.results.len() == done.len());
    assert forall|p: int| 0 <= p < u.results.len() implies agrees(
        #[trigger] u.results[p],
        done[p],
        t.ips,
    ) by {
        if p < t.results.len() {
            assert(done[p] == (before + t.records.take(from))[p]);
            assert(u.results[p] == t.results[p]);
        } else {
            let i = p - t.results.len();
            assert(done[p] == t.records[from + i]);
            assert(t.records[from + i].decide(t.ips) is Skip);
        }
    }
    if to < t.records.len() {
        assert(u.subjects() == done);
    } else {
        assert(t.records.take(to) == t.records);
        assert(u.subjects() == done);
    }
}

/// Every reply leaves a well-formed state well formed: what
/// [`ReconciliationView::wf`] says holds of every state that a run reaches.
pub proof fn lemma_next_wf(s: ReconciliationView, reply: ReplyView)
    requires
        s.wf(),
    ensures
        s.next(reply).wf(),
{
    match (s.phase, reply) {
        (Phase::Zones, ReplyView::Zones(Ok(zones))) => {
            assert(s.results.len() == 0);
        },
        (Phase::Records, ReplyView::Records(Ok(records))) => {
            let t = ReconciliationView {
                records: eligible(records, s.tag),
                listings: s.listings.push(records),
                ..s
            };
            assert(t.listings.drop_last() == s.listings);
            assert(t.records.take(0) == Seq::<RecordView>::empty());
            assert(eligible_all(s.listings, s.tag) + t.records.take(0) == eligible_all(
                s.listings,
                s.tag,
            ));
            lemma_settle_wf(t, 0);
        },
        (Phase::Update, ReplyView::Updated(answer)) => {
            let outcome = match answer {
                Ok(record) => OutcomeView::Updated(record),
                Err(failure) => OutcomeView::Failed(failure, s.records[s.record]),
            };
            let t = ReconciliationView { results: s.results.push(outcome), ..s };
            let before = eligible_all(s.listings.drop_last(), s.tag);
            assert(s.results.len() == (before + s.records.take(s.record)).len());
            assert(s.records.take(s.record + 1) == s.records.take(s.record).push(
                s.records[s.record],
            ));
            assert forall|p: int| 0 <= p < t.results.len() implies agrees(
                #[trigger] t.results[p],
                (before + t.records.take(s.record + 1))[p],
                t.ips,
            ) by {
                if p < s.results.len() {
                    assert(t.results[p] == s.results[p]);
                    assert((before + t.records.take(s.record + 1))[p] == s.subjects()[p]);
                } else {
                    assert((before + t.records.take(s.record + 1))[p] == s.records[s.record]);
                }
            }
            lemma_settle_wf(t, s.record + 1);
            match answer {
                Ok(record) => {
                    assert(s.next(reply) == t.settle(s.record + 1));
                },
                Err(failure) => {
                    assert(s.next(reply) == t.settle(s.record + 1));
                },
            }
        },
        _ => {},
    }
}

/// The first record to update is the one that follows a run of skipped
/// records.
proof fn lemma_first_update_is(records: Seq<RecordView>, from: int, to: int, ips: IpSetView)
    requires
        0 <= from <= to <= records.len(),
        forall|i: int| from <= i < to ==> (#[trigger] records[i]).decide(ips) is Skip,
        to < records.len() ==> records[to].decide(ips) is Update,
    ensures
        first_update(records, from, ips) == to,
    decreases to - from,
{
    if from < to {
        assert(records[from].decide(ips) is Skip);
        lemma_first_update_is(records, from + 1, to, ips);
    }
}

/// Whether the zone's id or name is among `domains`.
pub fn zone_allowed(zone: &Zone, domains: &Vec<String>) -> (found: bool)
    ensures
        found == allowed(zone@, texts(domains@)),
{
    let mut i: usize = 0;
    while i < domains.len()
        invariant
            i <= domains.len(),
            forall|j: int|
                0 <= j < i ==> (#[trigger] texts(domains@)[j]) != zone@.id && texts(domains@)[j]
                    != zone@.name,
        decreases domains.len() - i,
    {
        if zone.id == domains[i] || zone.name == domains[i] {
            assert(texts(domains@)[i as int] == domains@[i as int]@);
            return true;
        }
        i += 1;
    }
    false
}

/// The zones of `zones` that are on the allow-list, in order.
pub fn filter_zones(zones: &Vec<Zone>, domains: &Vec<String>) -> (kept: Vec<Zone>)
    ensures
        zone_views(kept@) == allowed_zones(zone_views(zones@), texts(domains@)),
{
    let ghost all = zone_views(zones@);
    let ghost on_list = |z: ZoneView| allowed(z, texts(domains@));
    let mut kept: Vec<Zone> = Vec::new();
    let mut i: usize = 0;
    proof {
        reveal(Seq::filter);
        assert(all.take(0).filter(on_list) == Seq::<ZoneView>::empty());
    }
    while i < zones.len()
        invariant
            i <= zones.len(),
            all == zone_views(zones@),
            on_list == |z: ZoneView| allowed(z, texts(domains@)),
            zone_views(kept@) == all.take(i as int).filter(on_list),
        decreases zones.len() - i,
    {
        let ghost before = zone_views(kept@);
        proof {
            reveal(Seq::filter);
            assert(all.take(i + 1).drop_last() == all.take(i as int));
            assert(all.take(i + 1).last() == zones@[i as int]@);
        }
        if zone_allowed(&zones[i], domains) {
            kept.push(zones[i].clone());
            assert(zone_views(kept@) == before.push(zones@[i as int]@));
        }
        i += 1;
    }
    assert(all.take(zones.len() as int) == all);
    kept
}

/// The records of `records` that carry `tag`, in order.
pub fn filter_records(records: &Vec<Record>, tag: &str) -> (kept: Vec<Record>)
    ensures
        record_views(kept@) == eligible(record_views(records@), tag@),
{
    let ghost all = record_views(records@);
    let ghost tagged = |r: RecordView| r.has_tag(tag@);
    let mut kept: Vec<Record> = Vec::new();
    let mut i: usize = 0;
    proof {
        reveal(Seq::filter);
        assert(all.take(0).filter(tagged) == Seq::<RecordView>::empty());
    }
    while i < records.len()
        invariant
            i <= records.len(),
            all == record_views(records@),
            tagged == |r: RecordView| r.has_tag(tag@),
            record_views(kept@) == all.take(i as int).filter(tagged),
        decreases records.len() - i,
    {
        let ghost before = record_views(kept@);
        proof {
            reveal(Seq::filter);
            assert(all.take(i + 1).drop_last() == all.take(i as int));
            assert(all.take(i + 1).last() == records@[i as int]@);
        }
        if records[i].has_tag(tag) {
            kept.push(records[i].clone());
            assert(record_views(kept@) == before.push(records@[i as int]@));
        }
        i += 1;
    }
    assert(all.take(records.len() as int) == all);
    kept
}

/// One reconciliation of an account's records, from the first request to
/// the last result.
pub struct Reconciliation {
    tag: String,
    domains: Vec<String>,
    ips: IpSet,
    phase: Phase,
    zones: Vec<Zone>,
    zone: usize,
    records: Vec<Record>,
    record: usize,
    results: Vec<RecordUpdateResult>,
    failure: Option<ListZonesError>,
    zone_listing: Ghost<Seq<ZoneView>>,
    listings: Ghost<Seq<Seq<RecordView>>>,
}

impl View for Reconciliation {
    type V = ReconciliationView;

    closed spec fn view(&self) -> ReconciliationView {
        ReconciliationView {
            tag: self.tag@,
            domains: texts(self.domains@),
            ips: self.ips@,
            phase: self.phase,
            zones: zone_views(self.zones@),
            zone: self.zone as int,
            records: record_views(self.records@),
            record: self.record as int,
            results: outcome_views(self.results@),
            failure: self.failure,
            zone_listing: self.zone_listing@,
            listings: self.listings@,
        }
    }
}

impl Cloudflare {
    /// The value of the `Authorization` header that opens the account:
    /// `Bearer`, a space, the token.
    pub fn authorization(&self) -> (header: String)
        ensures
            header@ == "Bearer "@ + self.token@,
    {
        let mut header = String::from_str("Bearer ");
        header.append(self.token.as_str());
        header
    }

    /// Begins the reconciliation of the account's tagged records with `ips`.
    /// Nothing has been asked yet; the first request is for the zones.
    pub fn update(&self, ips: IpSet) -> (run: Reconciliation)
        ensures
            run@ == ReconciliationView::initial(self.tag@, texts(self.domains@), ips@),
            run@.wf(),
    {
        let run = Reconciliation {
            tag: self.tag.clone(),
            domains: api::dns::clone_strings(&self.domains),
            ips,
            phase: Phase::Zones,
            zones: Vec::new(),
            zone: 0,
            records: Vec::new(),
            record: 0,
            results: Vec::new(),
            failure: None,
            zone_listing: Ghost(Seq::empty()),
            listings: Ghost(Seq::empty()),
        };
        proof {
            let init = ReconciliationView::initial(self.tag@, texts(self.domains@), ips@);
            assert(run@.zones == init.zones);
            assert(run@.records == init.records);
            assert(run@.results == init.results);
            reveal(Seq::filter);
            assert(init.zones == allowed_zones(init.zone_listing, init.domains));
        }
        run
    }
}

impl Reconciliation {
    /// What the reconciliation waits for.
    pub fn phase(&self) -> (phase: Phase)
        ensures
            phase == self@.phase,
    {
        self.phase
    }

    /// What has to be asked of the provider next; nothing once the run is
    /// over.
    pub fn request(&self) -> (r: Option<Request>)
        requires
            self@.wf(),
        ensures
            match r {
                Some(q) => self@.request() == Some(q@),
                None => self@.request() is None,
            },
    {
        match self.phase {
            Phase::Zones => Some(Request::ListZones),
            Phase::Records => Some(Request::ListRecords { zone_id: self.zones[self.zone].id.clone() }),
            Phase::Update => match self.records[self.record].classify(&self.ips) {
                Decision::Update(patch) => Some(Request::UpdateRecord(patch)),
                Decision::Skip(_) => None,
            },
            Phase::Done => None,
        }
    }

    /// Ends the run with `failure`.
    fn fail(&mut self, failure: ListZonesError)
        ensures
            final(self)@ == old(self)@.fail(failure),
    {
        self.phase = Phase::Done;
        self.results = Vec::new();
        self.failure = Some(failure);
        assert(self@.results == Seq::<OutcomeView>::empty());
    }

    /// Turns to the zone `zone`.
    fn enter(&mut self, zone: usize)
        ensures
            final(self)@ == old(self)@.enter(zone as int),
    {
        self.phase = if zone < self.zones.len() {
            Phase::Records
        } else {
            Phase::Done
        };
        self.zone = zone;
        self.records = Vec::new();
        self.record = 0;
        assert(self@.records == Seq::<RecordView>::empty());
    }

    /// Goes through the records of the zone at work from `from`.
    fn settle(&mut self, from: usize)
        requires
            from <= old(self).records.len(),
            old(self).zone < old(self).zones.len(),
        ensures
            final(self)@ == old(self)@.settle(from as int),
    {
        let ghost start = self@;
        let mut j: usize = from;
        assert(start.results + skips(start.records, from as int, j as int, start.ips)
            == start.results);
        while j < self.records.len()
            invariant
                from <= j <= self.records.len(),
                self.zone < self.zones.len(),
                start == old(self)@,
                self@ == (ReconciliationView {
                    results: start.results + skips(
                        start.records,
                        from as int,
                        j as int,
                        start.ips,
                    ),
                    ..start
                }),
                forall|i: int|
                    from <= i < j ==> (#[trigger] start.records[i]).decide(start.ips) is Skip,
            decreases self.records.len() - j,
        {
            match self.records[j].classify(&self.ips) {
                Decision::Skip(reason) => {
                    let record = self.records[j].clone();
                    let ghost before = outcome_views(self.results@);
                    let result = skipped(reason, record);
                    self.results.push(result);
                    assert(outcome_views(self.results@) == before.push(outcome_view(result)));
                    assert(before.push(outcome_view(result)) == start.results + skips(
                        start.records,
                        from as int,
                        j + 1,
                        start.ips,
                    ));
                    j += 1;
                },
                Decision::Update(_) => {
                    assert(start.records[j as int] == self.records@[j as int]@);
                    self.phase = Phase::Update;
                    self.record = j;
                    proof {
                        lemma_first_update_is(start.records, from as int, j as int, start.ips);
                    }
                    return ;
                },
            }
        }
        proof {
            lemma_first_update_is(start.records, from as int, j as int, start.ips);
        }
        let zones = self.zones.len();
        assert(self.zone < zones);
        self.enter(self.zone + 1);
    }

    /// Takes in the provider's answer to the request. An answer to anything
    /// else changes nothing.
    pub fn supply(&mut self, reply: Reply)
        requires
            old(self)@.wf(),
        ensures
            final(self)@ == old(self)@.next(reply@),
            final(self)@.wf(),
    {
        proof {
            lemma_next_wf(self@, reply@);
        }
        match reply {
            Reply::Zones(answer) => match self.phase {
                Phase::Zones => match answer {
                    Ok(zones) => {
                        self.zones = filter_zones(&zones, &self.domains);
                        self.zone_listing = Ghost(zone_views(zones@));
                        self.enter(0);
                    },
                    Err(failure) => {
                        self.fail(failure);
                    },
                },
                _ => {},
            },
            Reply::Records(answer) => match self.phase {
                Phase::Records => match answer {
                    Ok(records) => {
                        self.records = filter_records(&records, self.tag.as_str());
                        self.listings = Ghost(self.listings@.push(record_views(records@)));
                        self.settle(0);
                    },
                    Err(failure) => {
                        self.fail(failure);
                    },
                },
                _ => {},
            },
            Reply::Updated(answer) => match self.phase {
                Phase::Update => {
                    let ghost before = outcome_views(self.results@);
                    let result: RecordUpdateResult = match answer {
                        Ok(record) => Ok(record),
                        Err(failure) => Err(
                            crate::RecordUpdateError::Cloudflare(
                                failure,
                                self.records[self.record].clone(),
                            ),
                        ),
                    };
                    self.results.push(result);
                    assert(outcome_views(self.results@) == before.push(outcome_view(result)));
                    let records = self.records.len();
                    assert(self.record < records);
                    self.settle(self.record + 1);
                },
                _ => {},
            },
        }
    }

    /// The end of the run: nothing while the run goes on; after it, the
    /// results in the order of the listings, or the failure to list.
    pub fn finish(self) -> (r: Option<Result<Vec<RecordUpdateResult>, RunError>>)
        ensures
            self@.phase != Phase::Done ==> r is None,
            self@.phase == Phase::Done ==> match self@.failure {
                Some(failure) => r == Some(
                    Err::<Vec<RecordUpdateResult>, RunError>(RunError::Cloudflare(failure)),
                ),
                None => r matches Some(Ok(results)) && outcome_views(results@) == self@.results,
            },
    {
        match self.phase {
            Phase::Done => match self.failure {
                Some(failure) => Some(Err(RunError::Cloudflare(failure))),
                None => Some(Ok(self.results)),
            },
            _ => None,
        }
    }
}

} // verus!
