use ddns_client::cloudflare::api::dns::{
    Decision, Patch, Record, RecordType, RecordUpdateError, SkipReason,
};
use ddns_client::fetchers::IpSet;

fn record(record_type: RecordType, content: &str) -> Record {
    Record {
        id: "r1".to_string(),
        zone_id: "z1".to_string(),
        name: "home.example.com".to_string(),
        record_type,
        content: content.to_string(),
        locked: false,
        comment: None,
        tags: Vec::new(),
    }
}

fn ips(v4: Option<&str>, v6: Option<&str>) -> IpSet {
    IpSet { v4_addr: v4.map(str::to_string), v6_addr: v6.map(str::to_string) }
}

fn patch(record_type: RecordType, content: &str) -> Patch {
    Patch {
        zone_id: "z1".to_string(),
        record_id: "r1".to_string(),
        content: content.to_string(),
        name: "home.example.com".to_string(),
        record_type,
    }
}

#[test]
fn a_tag_among_the_tags_marks_the_record() {
    let mut r = record(RecordType::A, "9.9.9.9");
    r.tags = vec!["other".to_string(), "ddns".to_string()];
    assert!(r.has_tag("ddns"));
}

#[test]
fn a_tag_must_equal_the_whole_tag() {
    let mut r = record(RecordType::A, "9.9.9.9");
    r.tags = vec!["ddns-home".to_string(), "xddns".to_string()];
    assert!(!r.has_tag("ddns"));
}

#[test]
fn a_tag_anywhere_in_the_comment_marks_the_record() {
    let mut r = record(RecordType::A, "9.9.9.9");
    r.comment = Some("managed by ddns, do not edit".to_string());
    assert!(r.has_tag("ddns"));
    r.comment = Some("ddns".to_string());
    assert!(r.has_tag("ddns"));
    r.comment = Some("set by hand; noddnshere".to_string());
    assert!(r.has_tag("ddns"));
}

#[test]
fn a_comment_without_the_tag_does_not_mark_the_record() {
    let mut r = record(RecordType::A, "9.9.9.9");
    r.comment = Some("managed by hand".to_string());
    assert!(!r.has_tag("ddns"));
    r.comment = Some("dd ns".to_string());
    assert!(!r.has_tag("ddns"));
    r.comment = Some("ddn".to_string());
    assert!(!r.has_tag("ddns"));
}

#[test]
fn a_record_without_comment_and_tags_is_not_marked() {
    let r = record(RecordType::A, "9.9.9.9");
    assert!(!r.has_tag("ddns"));
}

#[test]
fn the_empty_tag_is_in_every_comment_but_in_no_list_of_tags() {
    let mut r = record(RecordType::A, "9.9.9.9");
    assert!(!r.has_tag(""));
    r.tags = vec!["ddns".to_string()];
    assert!(!r.has_tag(""));
    r.comment = Some("anything".to_string());
    assert!(r.has_tag(""));
}

#[test]
fn a_tag_with_letters_outside_ascii_is_found() {
    let mut r = record(RecordType::A, "9.9.9.9");
    r.comment = Some("für dynüpdate gedacht".to_string());
    assert!(r.has_tag("dynüpdate"));
    assert!(!r.has_tag("dynupdate"));
}

#[test]
fn a_locked_record_is_skipped_before_anything_else() {
    let mut r = record(RecordType::A, "9.9.9.9");
    r.locked = true;
    assert_eq!(r.classify(&ips(Some("1.2.3.4"), None)), Decision::Skip(SkipReason::Locked));
    assert_eq!(r.classify(&ips(None, None)), Decision::Skip(SkipReason::Locked));
    let mut txt = record(RecordType::TXT, "v=spf1 -all");
    txt.locked = true;
    assert_eq!(txt.classify(&ips(Some("1.2.3.4"), None)), Decision::Skip(SkipReason::Locked));
    let mut same = record(RecordType::A, "1.2.3.4");
    same.locked = true;
    assert_eq!(same.classify(&ips(Some("1.2.3.4"), None)), Decision::Skip(SkipReason::Locked));
}

#[test]
fn an_a_record_without_an_ipv4_address_is_skipped() {
    let r = record(RecordType::A, "9.9.9.9");
    assert_eq!(
        r.classify(&ips(None, Some("2001:db8::1"))),
        Decision::Skip(SkipReason::NoApplicableAddress)
    );
    assert_eq!(r.classify(&ips(None, None)), Decision::Skip(SkipReason::NoApplicableAddress));
}

#[test]
fn an_aaaa_record_without_an_ipv6_address_is_skipped() {
    let r = record(RecordType::AAAA, "2001:db8::1");
    assert_eq!(
        r.classify(&ips(Some("1.2.3.4"), None)),
        Decision::Skip(SkipReason::NoApplicableAddress)
    );
}

#[test]
fn a_record_of_another_type_is_skipped() {
    for record_type in [
        RecordType::CAA,
        RecordType::CERT,
        RecordType::CNAME,
        RecordType::DNSKEY,
        RecordType::DS,
        RecordType::HTTPS,
        RecordType::LOC,
        RecordType::MX,
        RecordType::NAPTR,
        RecordType::NS,
        RecordType::PTR,
        RecordType::SMIMEA,
        RecordType::SRV,
        RecordType::SSHFP,
        RecordType::SVCB,
        RecordType::TLSA,
        RecordType::TXT,
        RecordType::URI,
    ] {
        let r = record(record_type, "1.2.3.4");
        assert_eq!(
            r.classify(&ips(Some("1.2.3.4"), Some("2001:db8::1"))),
            Decision::Skip(SkipReason::IncompatibleType)
        );
        assert_eq!(r.classify(&ips(None, None)), Decision::Skip(SkipReason::IncompatibleType));
    }
}

#[test]
fn a_record_that_holds_the_address_is_up_to_date() {
    let a = record(RecordType::A, "1.2.3.4");
    assert_eq!(
        a.classify(&ips(Some("1.2.3.4"), Some("2001:db8::1"))),
        Decision::Skip(SkipReason::UpToDate)
    );
    let aaaa = record(RecordType::AAAA, "2001:db8::1");
    assert_eq!(
        aaaa.classify(&ips(Some("1.2.3.4"), Some("2001:db8::1"))),
        Decision::Skip(SkipReason::UpToDate)
    );
}

#[test]
fn the_comparison_is_of_the_text_not_of_the_address() {
    let aaaa = record(RecordType::AAAA, "2001:0db8:0000:0000:0000:0000:0000:0001");
    assert_eq!(
        aaaa.classify(&ips(None, Some("2001:db8::1"))),
        Decision::Update(patch(RecordType::AAAA, "2001:db8::1"))
    );
    let a = record(RecordType::A, "001.002.003.004");
    assert_eq!(
        a.classify(&ips(Some("1.2.3.4"), None)),
        Decision::Update(patch(RecordType::A, "1.2.3.4"))
    );
}

#[test]
fn a_stale_record_gets_the_address_of_its_family() {
    let both = ips(Some("1.2.3.4"), Some("2001:db8::1"));
    let a = record(RecordType::A, "9.9.9.9");
    assert_eq!(a.classify(&both), Decision::Update(patch(RecordType::A, "1.2.3.4")));
    let aaaa = record(RecordType::AAAA, "2001:db8::2");
    assert_eq!(aaaa.classify(&both), Decision::Update(patch(RecordType::AAAA, "2001:db8::1")));
}

#[test]
fn after_its_update_a_record_is_up_to_date() {
    let found = ips(Some("1.2.3.4"), None);
    let before = record(RecordType::A, "9.9.9.9");
    let sent = match before.classify(&found) {
        Decision::Update(patch) => patch,
        other => panic!("expected an update, got {other:?}"),
    };
    let mut after = record(RecordType::A, "9.9.9.9");
    after.content = sent.content;
    assert_eq!(after.classify(&found), Decision::Skip(SkipReason::UpToDate));
}

#[test]
fn update_refuses_a_locked_record() {
    let mut r = record(RecordType::A, "9.9.9.9");
    r.locked = true;
    assert!(matches!(r.update("1.2.3.4"), Err(RecordUpdateError::Locked)));
    r.content = "1.2.3.4".to_string();
    assert!(matches!(r.update("1.2.3.4"), Err(RecordUpdateError::Locked)));
}

#[test]
fn update_refuses_a_record_that_holds_the_address() {
    let r = record(RecordType::A, "1.2.3.4");
    assert!(matches!(r.update("1.2.3.4"), Err(RecordUpdateError::UpToDate)));
}

#[test]
fn update_names_the_record_and_the_new_content() {
    let r = record(RecordType::A, "9.9.9.9");
    assert_eq!(r.update("1.2.3.4").unwrap(), patch(RecordType::A, "1.2.3.4"));
    let txt = record(RecordType::TXT, "hello");
    assert_eq!(txt.update("1.2.3.4").unwrap(), patch(RecordType::TXT, "1.2.3.4"));
}

#[test]
fn an_update_is_sent_to_the_record_below_its_zone() {
    assert_eq!(
        patch(RecordType::A, "1.2.3.4").url(),
        "https://api.cloudflare.com/client/v4/zones/z1/dns_records/r1"
    );
}

#[test]
fn the_default_record_type_is_a() {
    assert_eq!(RecordType::default(), RecordType::A);
}

#[test]
fn a_copy_of_a_record_equals_the_record() {
    let mut r = record(RecordType::AAAA, "2001:db8::1");
    r.comment = Some("ddns".to_string());
    r.tags = vec!["a".to_string(), "b".to_string()];
    r.locked = true;
    assert_eq!(r.clone(), r);
}
