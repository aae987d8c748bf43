//! What holds of every reconciliation, proved from the decision table and
//! from [`ReconciliationView::wf`], which every state of a run satisfies.

use super::api::dns::{DecisionView, RecordType, RecordUpdateError, RecordView, SkipReason};
use super::api::zone::ZoneView;
use super::{
    agrees, allowed, allowed_zones, eligible, eligible_all, lemma_first_update, lemma_next_wf,
    Phase, ReconciliationView, ReplyView, RequestView,
};
use crate::fetchers::IpSetView;
use crate::OutcomeView;
use vstd::prelude::*;

verus! {

/// A locked record is skipped as locked, whatever its type, its content and
/// the addresses found.
pub proof fn locked_is_skipped(record: RecordView, ips: IpSetView)
    requires
        record.locked,
    ensures
        record.decide(ips) == DecisionView::Skip(SkipReason::Locked),
{
}

/// A record that is not locked and whose family has no address is skipped
/// for want of an address: an A record without an IPv4 address, an AAAA
/// record without an IPv6 address.
pub proof fn no_address_is_skipped(record: RecordView, ips: IpSetView)
    requires
        !record.locked,
        (record.record_type == RecordType::A && ips.v4_addr is None) || (record.record_type
            == RecordType::AAAA && ips.v6_addr is None),
    ensures
        record.decide(ips) == DecisionView::Skip(SkipReason::NoApplicableAddress),
{
}

/// A record that is not locked and is neither an A nor an AAAA record is
/// skipped for its type.
pub proof fn other_type_is_skipped(record: RecordView, ips: IpSetView)
    requires
        !record.locked,
        record.record_type != RecordType::A,
        record.record_type != RecordType::AAAA,
    ensures
        record.decide(ips) == DecisionView::Skip(SkipReason::IncompatibleType),
{
}

/// A record that is not locked and whose content is the address of its
/// family, letter for letter, is skipped as up to date.
pub proof fn same_content_is_skipped(record: RecordView, ips: IpSetView)
    requires
        !record.locked,
        record.applicable(ips) == Some(record.content),
    ensures
        record.decide(ips) == DecisionView::Skip(SkipReason::UpToDate),
{
}

/// An update is decided for exactly the records that are not locked, hold
/// an address, have an address of their family found, and differ from it.
/// The update carries that address and the record's own zone, id, name and
/// type.
pub proof fn update_is_justified(record: RecordView, ips: IpSetView)
    ensures
        record.decide(ips) is Update <==> {
            &&& !record.locked
            &&& record.applicable(ips) is Some
            &&& record.applicable(ips) != Some(record.content)
        },
        record.decide(ips) matches DecisionView::Update(patch) ==> patch == record.patch(
            record.applicable(ips)->Some_0,
        ),
{
}

/// Once an update has succeeded, a second run with the same addresses skips
/// the record as up to date: the provider's new record has the content that
/// was sent, and the type and lock of the old one.
pub proof fn second_run_is_up_to_date(record: RecordView, updated: RecordView, ips: IpSetView)
    requires
        record.decide(ips) matches DecisionView::Update(patch) && updated.content
            == patch.content,
        updated.record_type == record.record_type,
        updated.locked == record.locked,
    ensures
        updated.decide(ips) == DecisionView::Skip(SkipReason::UpToDate),
{
}

/// The tagged records of a listing are the records of the listing that
/// carry the tag, and no others.
pub proof fn eligible_is_tagged(records: Seq<RecordView>, tag: Seq<char>, record: RecordView)
    ensures
        eligible(records, tag).contains(record) <==> records.contains(record) && record.has_tag(
            tag,
        ),
{
    let tagged = |r: RecordView| r.has_tag(tag);
    if eligible(records, tag).contains(record) {
        let i = choose|i: int|
            0 <= i < eligible(records, tag).len() && eligible(records, tag)[i] == record;
        records.lemma_filter_pred(tagged, i);
        lemma_filter_source(records, tagged, i);
    }
    if records.contains(record) && record.has_tag(tag) {
        let i = choose|i: int| 0 <= i < records.len() && records[i] == record;
        records.lemma_filter_contains(tagged, i);
    }
}

/// Every item of a filtered sequence is an item of the sequence.
proof fn lemma_filter_source<A>(s: Seq<A>, pred: spec_fn(A) -> bool, i: int)
    requires
        0 <= i < s.filter(pred).len(),
    ensures
        s.contains(s.filter(pred)[i]),
    decreases s.len(),
{
    reveal(Seq::filter);
    if s.len() > 0 {
        let rest = s.drop_last().filter(pred);
        if i < rest.len() {
            lemma_filter_source(s.drop_last(), pred, i);
            let k = choose|k: int| 0 <= k < s.drop_last().len() && s.drop_last()[k] == rest[i];
            assert(s[k] == rest[i]);
        } else {
            assert(s[s.len() - 1] == s.last());
        }
    }
}

/// Filtering keeps the order: of two items of the filtered sequence, the
/// earlier one stands earlier in the sequence too.
pub proof fn filter_keeps_order<A>(s: Seq<A>, pred: spec_fn(A) -> bool, i: int, j: int)
    requires
        0 <= i < j < s.filter(pred).len(),
    ensures
        exists|a: int, b: int|
            0 <= a < b < s.len() && s[a] == s.filter(pred)[i] && s[b] == s.filter(pred)[j],
    decreases s.len(),
{
    reveal(Seq::filter);
    if s.len() > 0 {
        let rest = s.drop_last().filter(pred);
        if j < rest.len() {
            filter_keeps_order(s.drop_last(), pred, i, j);
            let (a, b) = choose|a: int, b: int|
                0 <= a < b < s.drop_last().len() && s.drop_last()[a] == rest[i] && s.drop_last()[b]
                    == rest[j];
            assert(0 <= a < b < s.len() && s[a] == s.filter(pred)[i] && s[b] == s.filter(pred)[j]);
        } else {
            lemma_filter_source(s.drop_last(), pred, i);
            let a = choose|a: int| 0 <= a < s.drop_last().len() && s.drop_last()[a] == rest[i];
            let b = s.len() - 1;
            assert(0 <= a < b < s.len() && s[a] == s.filter(pred)[i] && s[b] == s.filter(pred)[j]);
        }
    }
}

/// Whatever the provider answers, and in whatever order the answers come, a
/// run is in a well-formed state after each of them.
pub proof fn every_state_is_well_formed(
    tag: Seq<char>,
    domains: Seq<Seq<char>>,
    ips: IpSetView,
    replies: Seq<ReplyView>,
)
    ensures
        ReconciliationView::initial(tag, domains, ips).after(replies).wf(),
    decreases replies.len(),
{
    let start = ReconciliationView::initial(tag, domains, ips);
    if replies.len() == 0 {
        reveal(Seq::filter);
        assert(start.zones == allowed_zones(start.zone_listing, start.domains));
    } else {
        every_state_is_well_formed(tag, domains, ips, replies.drop_last());
        lemma_next_wf(start.after(replies.drop_last()), replies.last());
    }
}

/// Results are only ever added at the end: unless a listing fails, an
/// answer leaves every result that stood before it in its place.
pub proof fn results_only_grow(s: ReconciliationView, reply: ReplyView)
    requires
        s.wf(),
        s.next(reply).failure is None,
    ensures
        s.results.len() <= s.next(reply).results.len(),
        s.next(reply).results.take(s.results.len() as int) == s.results,
{
    let t = s.next(reply);
    match (s.phase, reply) {
        (Phase::Records, ReplyView::Records(Ok(records))) => {
            lemma_first_update(eligible(records, s.tag), 0, s.ips);
        },
        (Phase::Update, ReplyView::Updated(_)) => {
            lemma_first_update(s.records, s.record + 1, s.ips);
        },
        _ => {},
    }
    assert(t.results.take(s.results.len() as int) == s.results);
}

/// The answer to an update is the result of the record at work, and of no
/// other: it stands right after the results that were there, and the run
/// moves on to a later record or to the next zone.
pub proof fn an_update_is_asked_once(
    s: ReconciliationView,
    answer: Result<RecordView, RecordUpdateError>,
)
    requires
        s.wf(),
        s.phase == Phase::Update,
    ensures
        ({
            let t = s.next(ReplyView::Updated(answer));
            &&& t.results.len() > s.results.len()
            &&& t.results[s.results.len() as int] == match answer {
                Ok(record) => OutcomeView::Updated(record),
                Err(failure) => OutcomeView::Failed(failure, s.records[s.record]),
            }
            &&& t.phase == Phase::Update ==> t.zone == s.zone && t.records == s.records
                && t.record > s.record
            &&& t.phase != Phase::Update ==> t.zone == s.zone + 1
        }),
{
    lemma_first_update(s.records, s.record + 1, s.ips);
}

/// Each result is that of the record in its place: the results of a run
/// that has not failed stand in the order of the tagged records, and each
/// agrees with the decision table for its record.
pub proof fn results_follow_the_records(s: ReconciliationView, p: int)
    requires
        s.wf(),
        s.failure is None,
        0 <= p < s.results.len(),
    ensures
        s.results.len() == s.subjects().len(),
        agrees(s.results[p], s.subjects()[p], s.ips),
        s.subjects()[p].locked ==> s.results[p] == OutcomeView::Skipped(
            SkipReason::Locked,
            s.subjects()[p],
        ),
        s.results[p] is Updated || s.results[p] is Failed ==> s.subjects()[p].decide(s.ips)
            is Update,
{
}

/// A run that ends without a failure has asked for the records of each zone
/// of the allow-list once, in the order of the zone listing, and of no other
/// zone; its results are those of the tagged records of the first listing,
/// then of the second, and so on.
pub proof fn finished_run(s: ReconciliationView)
    requires
        s.wf(),
        s.phase == Phase::Done,
        s.failure is None,
    ensures
        s.zones == allowed_zones(s.zone_listing, s.domains),
        s.listings.len() == s.zones.len(),
        s.results.len() == eligible_all(s.listings, s.tag).len(),
        forall|p: int|
            0 <= p < s.results.len() ==> agrees(
                #[trigger] s.results[p],
                eligible_all(s.listings, s.tag)[p],
                s.ips,
            ),
{
}

/// A run that a failed listing ended has no results.
pub proof fn failed_run(s: ReconciliationView)
    requires
        s.wf(),
        s.failure is Some,
    ensures
        s.phase == Phase::Done,
        s.results.len() == 0,
        s.request() is None,
{
}

/// The records of a zone are asked for only if the zone is on the
/// allow-list, and the zones are taken in the order of their listing: the
/// zone asked for is the first of the allowed zones that has no listing yet.
pub proof fn records_are_asked_of_allowed_zones(s: ReconciliationView)
    requires
        s.wf(),
        s.phase == Phase::Records,
    ensures
        0 <= s.zone < s.zones.len(),
        s.zone == s.listings.len(),
        s.request() == Some(RequestView::ListRecords { zone_id: s.zones[s.zone].id }),
        allowed(s.zones[s.zone], s.domains),
        s.zone_listing.contains(s.zones[s.zone]),
{
    let on_list = |z: ZoneView| allowed(z, s.domains);
    s.zone_listing.lemma_filter_pred(on_list, s.zone);
    lemma_filter_source(s.zone_listing, on_list, s.zone);
}

/// An update is asked for only of a record that carries the tag, is not
/// locked, is an A or an AAAA record, and does not yet hold the address of
/// its family; what is asked is to give it that address.
pub proof fn updates_are_asked_of_stale_records(s: ReconciliationView)
    requires
        s.wf(),
        s.phase == Phase::Update,
    ensures
        ({
            let record = s.records[s.record];
            &&& record.has_tag(s.tag)
            &&& !record.locked
            &&& record.record_type == RecordType::A || record.record_type == RecordType::AAAA
            &&& record.applicable(s.ips) is Some
            &&& record.applicable(s.ips) != Some(record.content)
            &&& s.request() == Some(
                RequestView::UpdateRecord(record.patch(record.applicable(s.ips)->Some_0)),
            )
        }),
{
    let tagged = |r: RecordView| r.has_tag(s.tag);
    s.listings.last().lemma_filter_pred(tagged, s.record);
}

} // verus!
