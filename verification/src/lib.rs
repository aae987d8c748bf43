//! Dynamic DNS reconciliation: decide, for every tagged DNS record of a
//! Cloudflare account, whether it has to be pointed at the host's current
//! public address, and say so one request at a time.
//!
//! The library decides and never sends. [`run`] fetches the addresses and
//! begins a [`cloudflare::Reconciliation`]; whoever drives it puts each
//! [`cloudflare::Request`] to the provider and hands the
//! [`cloudflare::Reply`] back, until nothing is left to ask. The results
//! then stand in the order of the listings, one for every tagged record.

pub mod cloudflare;
pub mod fetchers;

use cloudflare::api::dns::{texts, Record, RecordView, SkipReason};
use cloudflare::api::ListZonesError;
use cloudflare::{Cloudflare, Reconciliation, ReconciliationView};
use fetchers::{Fetch, FetchError, IpSet, IpSetView};
use vstd::prelude::*;

verus! {

/// Why a record was not updated. Each variant holds the record as it was
/// listed.
#[derive(Debug)]
pub enum RecordUpdateError {
    /// The record already holds the address.
    UpToDate(Record),
    /// The provider forbids changes to the record.
    Locked(Record),
    /// No address of the record's family was found.
    NoNewAddr(Record),
    /// The record holds no address at all.
    IncompatibleType(Record),
    /// The update was asked for and failed; the failure is the provider's.
    Cloudflare(cloudflare::api::dns::RecordUpdateError, Record),
}

/// What became of one record: the record as the provider holds it after its
/// update, or why there was none.
pub type RecordUpdateResult = Result<Record, RecordUpdateError>;

/// The mathematical value of a [`RecordUpdateResult`].
pub enum OutcomeView {
    /// The record was updated; the provider's new record.
    Updated(RecordView),
    /// The record was left as it is.
    Skipped(SkipReason, RecordView),
    /// The update of the record failed.
    Failed(cloudflare::api::dns::RecordUpdateError, RecordView),
}

/// The value of one result.
pub open spec fn outcome_view(r: RecordUpdateResult) -> OutcomeView {
    match r {
        Ok(record) => OutcomeView::Updated(record@),
        Err(RecordUpdateError::UpToDate(record)) => OutcomeView::Skipped(
            SkipReason::UpToDate,
            record@,
        ),
        Err(RecordUpdateError::Locked(record)) => OutcomeView::Skipped(SkipReason::Locked, record@),
        Err(RecordUpdateError::NoNewAddr(record)) => OutcomeView::Skipped(
            SkipReason::NoApplicableAddress,
            record@,
        ),
        Err(RecordUpdateError::IncompatibleType(record)) => OutcomeView::Skipped(
            SkipReason::IncompatibleType,
            record@,
        ),
        Err(RecordUpdateError::Cloudflare(failure, record)) => OutcomeView::Failed(
            failure,
            record@,
        ),
    }
}

/// The values of a list of results, in order.
pub open spec fn outcome_views(v: Seq<RecordUpdateResult>) -> Seq<OutcomeView> {
    Seq::new(v.len(), |i: int| outcome_view(v[i]))
}

/// The result for a record that is skipped for `reason`.
pub fn skipped(reason: SkipReason, record: Record) -> (r: RecordUpdateResult)
    ensures
        outcome_view(r) == OutcomeView::Skipped(reason, record@),
{
    match reason {
        SkipReason::UpToDate => Err(RecordUpdateError::UpToDate(record)),
        SkipReason::Locked => Err(RecordUpdateError::Locked(record)),
        SkipReason::NoApplicableAddress => Err(RecordUpdateError::NoNewAddr(record)),
        SkipReason::IncompatibleType => Err(RecordUpdateError::IncompatibleType(record)),
    }
}

/// The record that a result is about: the provider's new record after an
/// update, else the record as it was listed.
pub open spec fn subject_spec(outcome: OutcomeView) -> RecordView {
    match outcome {
        OutcomeView::Updated(record) => record,
        OutcomeView::Skipped(_, record) => record,
        OutcomeView::Failed(_, record) => record,
    }
}

/// The record that `result` is about.
pub fn subject(result: &RecordUpdateResult) -> (record: &Record)
    ensures
        record@ == subject_spec(outcome_view(*result)),
{
    match result {
        Ok(record) => record,
        Err(RecordUpdateError::UpToDate(record)) => record,
        Err(RecordUpdateError::Locked(record)) => record,
        Err(RecordUpdateError::NoNewAddr(record)) => record,
        Err(RecordUpdateError::IncompatibleType(record)) => record,
        Err(RecordUpdateError::Cloudflare(_, record)) => record,
    }
}

/// What is said of a result in a report: that the record was updated, why
/// it was skipped, or that its update failed.
pub open spec fn status_spec(outcome: OutcomeView) -> Seq<char> {
    match outcome {
        OutcomeView::Updated(_) => "Updated"@,
        OutcomeView::Skipped(SkipReason::UpToDate, _) => "Skipped: Up to date"@,
        OutcomeView::Skipped(SkipReason::Locked, _) => "Skipped: Record locked, cannot update"@,
        OutcomeView::Skipped(SkipReason::NoApplicableAddress, _) =>
            "Skipped: No fetched ip coresponds to record type"@,
        OutcomeView::Skipped(SkipReason::IncompatibleType, _) =>
            "Skipped: Cannot update this type of record"@,
        OutcomeView::Failed(_, _) => "Failed"@,
    }
}

/// What is said of `result` in a report.
pub fn status(result: &RecordUpdateResult) -> (text: &'static str)
    ensures
        text@ == status_spec(outcome_view(*result)),
{
    match result {
        Ok(_) => "Updated",
        Err(RecordUpdateError::UpToDate(_)) => "Skipped: Up to date",
        Err(RecordUpdateError::Locked(_)) => "Skipped: Record locked, cannot update",
        Err(RecordUpdateError::NoNewAddr(_)) => "Skipped: No fetched ip coresponds to record type",
        Err(RecordUpdateError::IncompatibleType(_)) => "Skipped: Cannot update this type of record",
        Err(RecordUpdateError::Cloudflare(_, _)) => "Failed",
    }
}

/// Why a run came to nothing.
#[derive(Debug)]
pub enum RunError {
    /// The zones, or the records of a zone, could not be listed.
    Cloudflare(ListZonesError),
    /// The host's address could not be fetched.
    FetchFailure(FetchError),
    /// The client for the provider's API could not be built.
    BuildApiClient(reqwest::Error),
}

/// What a run needs: the account to reconcile, and where the host's address
/// comes from.
#[derive(Debug)]
pub struct Config<F> {
    pub cloudflare: Cloudflare,
    pub fetcher: F,
}

/// The beginning of a run, once the fetch of the addresses has ended: with
/// addresses, the reconciliation of the account with them, nothing asked
/// yet; with a failure, that failure.
pub fn begin(cloudflare: &Cloudflare, fetched: Result<IpSet, FetchError>) -> (r: Result<
    Reconciliation,
    RunError,
>)
    ensures
        match fetched {
            Ok(ips) => r matches Ok(run) && run@.wf() && run@ == ReconciliationView::initial(
                cloudflare.tag@,
                texts(cloudflare.domains@),
                ips@,
            ),
            Err(failure) => r matches Err(RunError::FetchFailure(e)) && e == failure,
        },
{
    match fetched {
        Ok(ips) => Ok(cloudflare.update(ips)),
        Err(failure) => Err(RunError::FetchFailure(failure)),
    }
}

/// Fetches the host's addresses and begins the reconciliation of the account
/// with them. Whether the fetch succeeds is the fetcher's matter; when it
/// does not, the run ends there, with the fetcher's failure.
pub fn run<F: Fetch>(cfg: Config<F>) -> (r: Result<Reconciliation, RunError>)
    ensures
        match r {
            Ok(run) => run@.wf() && exists|ips: IpSetView|
                run@ == ReconciliationView::initial(
                    cfg.cloudflare.tag@,
                    texts(cfg.cloudflare.domains@),
                    ips,
                ),
            Err(failure) => failure is FetchFailure,
        },
{
    let fetched = cfg.fetcher.fetch();
    begin(&cfg.cloudflare, fetched)
}

/// A failed listing fails the run.
impl From<ListZonesError> for RunError {
    fn from(source: ListZonesError) -> (e: RunError) {
        RunError::Cloudflare(source)
    }
}

impl vstd::std_specs::convert::FromSpecImpl<ListZonesError> for RunError {
    open spec fn obeys_from_spec() -> bool {
        true
    }

    open spec fn from_spec(source: ListZonesError) -> RunError {
        RunError::Cloudflare(source)
    }
}

/// A failed fetch fails the run.
impl From<FetchError> for RunError {
    fn from(source: FetchError) -> (e: RunError) {
        RunError::FetchFailure(source)
    }
}

impl vstd::std_specs::convert::FromSpecImpl<FetchError> for RunError {
    open spec fn obeys_from_spec() -> bool {
        true
    }

    open spec fn from_spec(source: FetchError) -> RunError {
        RunError::FetchFailure(source)
    }
}

} // verus!
