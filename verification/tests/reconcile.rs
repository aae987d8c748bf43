use ddns_client::cloudflare::api::dns::{Patch, Record, RecordType, RecordUpdateError as UpdateFailure};
use ddns_client::cloudflare::api::zone::Zone;
use ddns_client::cloudflare::api::{CloudflareError, ListZonesError};
use ddns_client::cloudflare::{Cloudflare, Phase, Reconciliation, Reply, Request};
use ddns_client::fetchers::IpSet;
use ddns_client::{RecordUpdateError, RecordUpdateResult, RunError};

fn record(zone_id: &str, name: &str, record_type: RecordType, content: &str, tags: &[&str]) -> Record {
    Record {
        id: format!("id-{name}"),
        zone_id: zone_id.to_string(),
        name: name.to_string(),
        record_type,
        content: content.to_string(),
        locked: false,
        comment: None,
        tags: tags.iter().map(|t| t.to_string()).collect(),
    }
}

fn zone(id: &str, name: &str) -> Zone {
    Zone { id: id.to_string(), name: name.to_string() }
}

fn account(domains: &[&str]) -> Cloudflare {
    Cloudflare {
        token: "SECRET-REDACTED".to_string(),
        tag: "ddns".to_string(),
        domains: domains.iter().map(|d| d.to_string()).collect(),
    }
}

fn only_v4(addr: &str) -> IpSet {
    IpSet { v4_addr: Some(addr.to_string()), v6_addr: None }
}

fn provider_error(code: i32, message: &str) -> Vec<CloudflareError> {
    vec![CloudflareError { code, message: message.to_string() }]
}

/// A provider that answers from memory and remembers what it was asked.
struct Provider {
    zones: Option<Vec<Zone>>,
    records: Vec<(String, Option<Vec<Record>>)>,
    refused: Vec<String>,
    asked: Vec<String>,
    patches: Vec<Patch>,
}

impl Provider {
    fn new(zones: Option<Vec<Zone>>, records: Vec<(&str, Option<Vec<Record>>)>) -> Provider {
        Provider {
            zones,
            records: records.into_iter().map(|(z, r)| (z.to_string(), r)).collect(),
            refused: Vec::new(),
            asked: Vec::new(),
            patches: Vec::new(),
        }
    }

    fn answer(&mut self, request: Request) -> Reply {
        match request {
            Request::ListZones => {
                self.asked.push("zones".to_string());
                match &self.zones {
                    Some(zones) => Reply::Zones(Ok(zones.clone())),
                    None => Reply::Zones(Err(ListZonesError::Cloudflare(provider_error(
                        10000,
                        "Authentication error",
                    )))),
                }
            }
            Request::ListRecords { zone_id } => {
                self.asked.push(format!("records {zone_id}"));
                let listing = self.records.iter().find(|(z, _)| *z == zone_id).map(|(_, r)| r.clone());
                match listing {
                    Some(Some(records)) => Reply::Records(Ok(records)),
                    _ => Reply::Records(Err(ListZonesError::Cloudflare(provider_error(
                        7003,
                        "No route for that zone",
                    )))),
                }
            }
            Request::UpdateRecord(patch) => {
                self.asked.push(format!("update {}", patch.name));
                let reply = if self.refused.contains(&patch.name) {
                    Reply::Updated(Err(UpdateFailure::Cloudflare(provider_error(
                        9000,
                        "DNS validation error",
                    ))))
                } else {
                    Reply::Updated(Ok(Record {
                        id: patch.record_id.clone(),
                        zone_id: patch.zone_id.clone(),
                        name: patch.name.clone(),
                        record_type: patch.record_type,
                        content: patch.content.clone(),
                        locked: false,
                        comment: None,
                        tags: vec!["ddns".to_string()],
                    }))
                };
                self.patches.push(patch);
                reply
            }
        }
    }
}

fn drive(run: &mut Reconciliation, provider: &mut Provider) {
    let mut steps = 0;
    while let Some(request) = run.request() {
        let reply = provider.answer(request);
        run.supply(reply);
        steps += 1;
        assert!(steps < 1000);
    }
}

fn reconcile(
    account: &Cloudflare,
    ips: IpSet,
    provider: &mut Provider,
) -> Result<Vec<RecordUpdateResult>, RunError> {
    let mut run = account.update(ips);
    drive(&mut run, provider);
    assert_eq!(run.phase(), Phase::Done);
    run.finish().expect("the run is over")
}

fn home_zone(home_content: &str) -> Provider {
    Provider::new(
        Some(vec![zone("z1", "example.com")]),
        vec![(
            "z1",
            Some(vec![
                record("z1", "home", RecordType::A, home_content, &["ddns"]),
                record("z1", "home6", RecordType::AAAA, "2001:db8::1", &["ddns"]),
                record("z1", "other", RecordType::A, "9.9.9.9", &[]),
            ]),
        )],
    )
}

#[test]
fn tagged_records_are_updated_or_skipped_and_others_left_out() {
    let mut provider = home_zone("9.9.9.9");
    let results = reconcile(&account(&["example.com"]), only_v4("1.2.3.4"), &mut provider).unwrap();
    assert_eq!(results.len(), 2);
    match &results[0] {
        Ok(updated) => {
            assert_eq!(updated.name, "home");
            assert_eq!(updated.content, "1.2.3.4");
        }
        other => panic!("expected an update, got {other:?}"),
    }
    match &results[1] {
        Err(RecordUpdateError::NoNewAddr(skipped)) => assert_eq!(skipped.name, "home6"),
        other => panic!("expected a skip for want of an address, got {other:?}"),
    }
    assert_eq!(provider.patches.len(), 1);
    assert_eq!(
        provider.patches[0],
        Patch {
            zone_id: "z1".to_string(),
            record_id: "id-home".to_string(),
            content: "1.2.3.4".to_string(),
            name: "home".to_string(),
            record_type: RecordType::A,
        }
    );
    assert_eq!(provider.asked, vec!["zones", "records z1", "update home"]);
}

#[test]
fn a_record_that_holds_the_address_is_not_updated() {
    let mut provider = home_zone("1.2.3.4");
    let results = reconcile(&account(&["example.com"]), only_v4("1.2.3.4"), &mut provider).unwrap();
    assert_eq!(results.len(), 2);
    match &results[0] {
        Err(RecordUpdateError::UpToDate(skipped)) => assert_eq!(skipped.name, "home"),
        other => panic!("expected a skip as up to date, got {other:?}"),
    }
    assert!(matches!(&results[1], Err(RecordUpdateError::NoNewAddr(_))));
    assert!(provider.patches.is_empty());
    assert_eq!(provider.asked, vec!["zones", "records z1"]);
}

#[test]
fn a_failed_zone_listing_fails_the_run() {
    let mut provider = Provider::new(None, vec![]);
    let outcome = reconcile(&account(&["example.com"]), only_v4("1.2.3.4"), &mut provider);
    match outcome {
        Err(RunError::Cloudflare(ListZonesError::Cloudflare(errors))) => {
            assert_eq!(errors, provider_error(10000, "Authentication error"));
        }
        other => panic!("expected the listing failure, got {other:?}"),
    }
    assert_eq!(provider.asked, vec!["zones"]);
    assert!(provider.patches.is_empty());
}

fn names(results: &[RecordUpdateResult]) -> Vec<String> {
    results
        .iter()
        .map(|r| match r {
            Ok(rec) => format!("updated {}", rec.name),
            Err(RecordUpdateError::UpToDate(rec)) => format!("current {}", rec.name),
            Err(RecordUpdateError::Locked(rec)) => format!("locked {}", rec.name),
            Err(RecordUpdateError::NoNewAddr(rec)) => format!("no address {}", rec.name),
            Err(RecordUpdateError::IncompatibleType(rec)) => format!("other type {}", rec.name),
            Err(RecordUpdateError::Cloudflare(_, rec)) => format!("failed {}", rec.name),
        })
        .collect()
}

fn locked(mut record: Record) -> Record {
    record.locked = true;
    record
}

fn commented(mut record: Record, comment: &str) -> Record {
    record.comment = Some(comment.to_string());
    record
}

fn two_zones() -> Provider {
    Provider::new(
        Some(vec![zone("z1", "example.com"), zone("z2", "example.org"), zone("z3", "example.net")]),
        vec![
            (
                "z1",
                Some(vec![
                    record("z1", "b", RecordType::A, "9.9.9.9", &["ddns"]),
                    record("z1", "a", RecordType::TXT, "text", &["ddns"]),
                    record("z1", "c", RecordType::A, "1.2.3.4", &["ddns"]),
                ]),
            ),
            ("z2", Some(vec![record("z2", "hidden", RecordType::A, "9.9.9.9", &["ddns"])])),
            (
                "z3",
                Some(vec![
                    locked(record("z3", "z", RecordType::A, "9.9.9.9", &["ddns"])),
                    commented(record("z3", "y", RecordType::AAAA, "::1", &[]), "kept by ddns"),
                    record("z3", "x", RecordType::A, "8.8.8.8", &["ddns", "x"]),
                ]),
            ),
        ],
    )
}

#[test]
fn results_keep_the_order_of_zones_and_records() {
    let mut provider = two_zones();
    let results =
        reconcile(&account(&["example.net", "z1"]), only_v4("1.2.3.4"), &mut provider).unwrap();
    assert_eq!(
        names(&results),
        vec![
            "updated b",
            "other type a",
            "current c",
            "locked z",
            "no address y",
            "updated x",
        ]
    );
    assert_eq!(
        provider.asked,
        vec!["zones", "records z1", "update b", "records z3", "update x"]
    );
}

#[test]
fn zones_off_the_allow_list_are_never_asked_for() {
    let mut provider = two_zones();
    let results = reconcile(&account(&["example.org"]), only_v4("1.2.3.4"), &mut provider).unwrap();
    assert_eq!(names(&results), vec!["updated hidden"]);
    assert_eq!(provider.asked, vec!["zones", "records z2", "update hidden"]);
}

#[test]
fn a_zone_is_allowed_by_id_or_by_name() {
    let mut by_id = two_zones();
    let results = reconcile(&account(&["z2"]), only_v4("1.2.3.4"), &mut by_id).unwrap();
    assert_eq!(names(&results), vec!["updated hidden"]);
    let mut by_name = two_zones();
    let results = reconcile(&account(&["example.org"]), only_v4("1.2.3.4"), &mut by_name).unwrap();
    assert_eq!(names(&results), vec!["updated hidden"]);
    let mut by_part = two_zones();
    let results = reconcile(&account(&["example"]), only_v4("1.2.3.4"), &mut by_part).unwrap();
    assert!(results.is_empty());
}

#[test]
fn no_allowed_zone_is_no_work_and_no_error() {
    let mut provider = two_zones();
    let results = reconcile(&account(&["elsewhere.com"]), only_v4("1.2.3.4"), &mut provider).unwrap();
    assert!(results.is_empty());
    assert_eq!(provider.asked, vec!["zones"]);
    let mut nothing_allowed = two_zones();
    let results = reconcile(&account(&[]), only_v4("1.2.3.4"), &mut nothing_allowed).unwrap();
    assert!(results.is_empty());
    let mut no_zones = Provider::new(Some(vec![]), vec![]);
    let results = reconcile(&account(&["example.com"]), only_v4("1.2.3.4"), &mut no_zones).unwrap();
    assert!(results.is_empty());
    assert_eq!(no_zones.asked, vec!["zones"]);
}

#[test]
fn a_zone_without_tagged_records_gives_no_results() {
    let mut provider = Provider::new(
        Some(vec![zone("z1", "example.com"), zone("z2", "example.org")]),
        vec![
            ("z1", Some(vec![record("z1", "plain", RecordType::A, "9.9.9.9", &["web"])])),
            ("z2", Some(vec![])),
        ],
    );
    let results =
        reconcile(&account(&["example.com", "example.org"]), only_v4("1.2.3.4"), &mut provider)
            .unwrap();
    assert!(results.is_empty());
    assert_eq!(provider.asked, vec!["zones", "records z1", "records z2"]);
}

#[test]
fn a_failed_record_listing_fails_the_run_and_drops_the_results() {
    let mut provider = Provider::new(
        Some(vec![zone("z1", "example.com"), zone("z2", "example.org"), zone("z3", "example.net")]),
        vec![
            ("z1", Some(vec![record("z1", "home", RecordType::A, "9.9.9.9", &["ddns"])])),
            ("z2", None),
            ("z3", Some(vec![record("z3", "late", RecordType::A, "9.9.9.9", &["ddns"])])),
        ],
    );
    let outcome = reconcile(
        &account(&["example.com", "example.org", "example.net"]),
        only_v4("1.2.3.4"),
        &mut provider,
    );
    match outcome {
        Err(RunError::Cloudflare(ListZonesError::Cloudflare(errors))) => {
            assert_eq!(errors, provider_error(7003, "No route for that zone"));
        }
        other => panic!("expected the listing failure, got {other:?}"),
    }
    assert_eq!(provider.asked, vec!["zones", "records z1", "update home", "records z2"]);
}

#[test]
fn a_failed_update_is_a_result_and_the_run_goes_on() {
    let mut provider = Provider::new(
        Some(vec![zone("z1", "example.com")]),
        vec![(
            "z1",
            Some(vec![
                record("z1", "first", RecordType::A, "9.9.9.9", &["ddns"]),
                record("z1", "second", RecordType::A, "9.9.9.9", &["ddns"]),
            ]),
        )],
    );
    provider.refused.push("first".to_string());
    let results = reconcile(&account(&["example.com"]), only_v4("1.2.3.4"), &mut provider).unwrap();
    assert_eq!(names(&results), vec!["failed first", "updated second"]);
    match &results[0] {
        Err(RecordUpdateError::Cloudflare(UpdateFailure::Cloudflare(errors), subject)) => {
            assert_eq!(*errors, provider_error(9000, "DNS validation error"));
            assert_eq!(*subject, record("z1", "first", RecordType::A, "9.9.9.9", &["ddns"]));
        }
        other => panic!("expected the provider's failure, got {other:?}"),
    }
    assert_eq!(provider.asked, vec!["zones", "records z1", "update first", "update second"]);
}

#[test]
fn a_second_run_finds_the_updated_records_up_to_date() {
    let mut provider = home_zone("9.9.9.9");
    let first = reconcile(&account(&["example.com"]), only_v4("1.2.3.4"), &mut provider).unwrap();
    assert_eq!(names(&first), vec!["updated home", "no address home6"]);
    let sent = provider.patches[0].content.clone();
    let mut after = home_zone(&sent);
    let second = reconcile(&account(&["example.com"]), only_v4("1.2.3.4"), &mut after).unwrap();
    assert_eq!(names(&second), vec!["current home", "no address home6"]);
    assert!(after.patches.is_empty());
}

#[test]
fn both_families_are_served_in_the_order_of_the_listing() {
    let mut provider = Provider::new(
        Some(vec![zone("z1", "example.com")]),
        vec![(
            "z1",
            Some(vec![
                record("z1", "six", RecordType::AAAA, "2001:db8::2", &["ddns"]),
                record("z1", "four", RecordType::A, "9.9.9.9", &["ddns"]),
            ]),
        )],
    );
    let ips = IpSet { v4_addr: Some("1.2.3.4".to_string()), v6_addr: Some("2001:db8::1".to_string()) };
    let results = reconcile(&account(&["example.com"]), ips, &mut provider).unwrap();
    assert_eq!(names(&results), vec!["updated six", "updated four"]);
    assert_eq!(provider.patches[0].content, "2001:db8::1");
    assert_eq!(provider.patches[0].record_type, RecordType::AAAA);
    assert_eq!(provider.patches[1].content, "1.2.3.4");
    assert_eq!(provider.patches[1].record_type, RecordType::A);
}

#[test]
fn without_any_address_nothing_is_updated() {
    let mut provider = two_zones();
    let none = IpSet { v4_addr: None, v6_addr: None };
    let results = reconcile(&account(&["z1", "z2", "z3"]), none, &mut provider).unwrap();
    assert_eq!(
        names(&results),
        vec![
            "no address b",
            "other type a",
            "no address c",
            "no address hidden",
            "locked z",
            "no address y",
            "no address x",
        ]
    );
    assert!(provider.patches.is_empty());
}

#[test]
fn a_run_begins_by_asking_for_the_zones() {
    let run = account(&["example.com"]).update(only_v4("1.2.3.4"));
    assert_eq!(run.phase(), Phase::Zones);
    assert_eq!(run.request(), Some(Request::ListZones));
    assert!(run.finish().is_none());
}

#[test]
fn a_reply_that_answers_nothing_asked_is_ignored() {
    let mut run = account(&["example.com"]).update(only_v4("1.2.3.4"));
    run.supply(Reply::Records(Ok(vec![record("z1", "home", RecordType::A, "9.9.9.9", &["ddns"])])));
    assert_eq!(run.phase(), Phase::Zones);
    run.supply(Reply::Updated(Ok(record("z1", "home", RecordType::A, "1.2.3.4", &["ddns"]))));
    assert_eq!(run.phase(), Phase::Zones);
    assert_eq!(run.request(), Some(Request::ListZones));

    run.supply(Reply::Zones(Ok(vec![zone("z1", "example.com")])));
    assert_eq!(run.phase(), Phase::Records);
    assert_eq!(run.request(), Some(Request::ListRecords { zone_id: "z1".to_string() }));
    run.supply(Reply::Zones(Ok(vec![zone("z9", "example.com")])));
    run.supply(Reply::Updated(Err(UpdateFailure::Locked)));
    assert_eq!(run.request(), Some(Request::ListRecords { zone_id: "z1".to_string() }));

    run.supply(Reply::Records(Ok(vec![record("z1", "home", RecordType::A, "9.9.9.9", &["ddns"])])));
    assert_eq!(run.phase(), Phase::Update);
    run.supply(Reply::Records(Ok(vec![])));
    run.supply(Reply::Zones(Err(ListZonesError::Cloudflare(vec![]))));
    assert_eq!(run.phase(), Phase::Update);

    run.supply(Reply::Updated(Ok(record("z1", "home", RecordType::A, "1.2.3.4", &["ddns"]))));
    assert_eq!(run.phase(), Phase::Done);
    assert_eq!(run.request(), None);
    run.supply(Reply::Zones(Ok(vec![zone("z1", "example.com")])));
    run.supply(Reply::Records(Err(ListZonesError::Cloudflare(vec![]))));
    assert_eq!(run.phase(), Phase::Done);
    let results = run.finish().unwrap().unwrap();
    assert_eq!(names(&results), vec!["updated home"]);
}

#[test]
fn the_result_of_an_update_is_the_record_that_the_provider_returns() {
    let mut run = account(&["example.com"]).update(only_v4("1.2.3.4"));
    run.supply(Reply::Zones(Ok(vec![zone("z1", "example.com")])));
    run.supply(Reply::Records(Ok(vec![record("z1", "home", RecordType::A, "9.9.9.9", &["ddns"])])));
    let returned = commented(record("z1", "home", RecordType::A, "1.2.3.4", &["ddns", "new"]), "now");
    run.supply(Reply::Updated(Ok(returned.clone())));
    let results = run.finish().unwrap().unwrap();
    assert_eq!(results.len(), 1);
    assert_eq!(*results[0].as_ref().unwrap(), returned);
}

#[test]
fn the_bearer_token_opens_the_account() {
    assert_eq!(account(&[]).authorization(), "Bearer SECRET-REDACTED");
}
