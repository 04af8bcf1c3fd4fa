use pis_aller::item::PisAller;
use pis_aller::layout::{base_directory, collection_name, file_path, tag_directory};
use pis_aller::record::{PisAllerRecord, RETRY_LIMIT};
use pis_aller::shutdown::{termination, Termination, GRACE_PERIOD_SECS};
use pis_aller::tier::Tier;
use pis_aller::worker::POLL_INTERVAL_MILLIS;

fn record(retries: usize) -> PisAllerRecord {
    PisAllerRecord {
        tag: "orders",
        error: String::from("db timeout"),
        data: PisAller::String(String::from("payload")),
        retries,
    }
}

#[test]
fn format_of_binary_is_bin() {
    assert_eq!(PisAller::Bin(Box::new(vec![1, 2, 3])).format(), "bin");
    assert_eq!(PisAller::Bin(Box::new(Vec::new())).format(), "bin");
}

#[test]
fn format_of_structured_text_is_json() {
    assert_eq!(PisAller::Json(String::from("{\"a\":1}")).format(), "json");
}

#[test]
fn format_of_text_is_txt() {
    assert_eq!(PisAller::String(String::from("hello")).format(), "txt");
}

#[test]
fn format_of_native_text_is_rson() {
    assert_eq!(PisAller::RustString(String::from("Point { x: 1 }")).format(), "rson");
}

#[test]
fn format_does_not_depend_on_content() {
    let a = PisAller::Json(String::from("[]"));
    let b = PisAller::Json(String::from("{\"k\": [1, 2, 3]}"));
    assert_eq!(a.format(), b.format());
    assert_eq!(a.format(), a.format());
    let tags = [
        PisAller::Bin(Box::new(vec![0])).format(),
        PisAller::Json(String::new()).format(),
        PisAller::String(String::new()).format(),
        PisAller::RustString(String::new()).format(),
    ];
    for i in 0..tags.len() {
        for j in 0..tags.len() {
            assert_eq!(tags[i] == tags[j], i == j);
        }
    }
}

#[test]
fn bytes_convert_into_a_binary_payload() {
    let raw: &[u8] = &[0, 159, 146, 150];
    match PisAller::from(raw) {
        PisAller::Bin(bytes) => assert_eq!(*bytes, vec![0, 159, 146, 150]),
        other => panic!("not binary: {:?}", other),
    }
}

#[test]
fn owned_text_converts_into_a_text_payload() {
    match PisAller::from(String::from("hello")) {
        PisAller::String(text) => assert_eq!(text, "hello"),
        other => panic!("not text: {:?}", other),
    }
}

#[test]
fn borrowed_text_converts_into_a_text_payload() {
    let payload: PisAller = "hello".into();
    match payload {
        PisAller::String(text) => assert_eq!(text, "hello"),
        other => panic!("not text: {:?}", other),
    }
}

#[test]
fn raw_bytes_of_each_variant() {
    assert_eq!(PisAller::Bin(Box::new(vec![7, 0, 255])).bytes(), &[7, 0, 255]);
    assert_eq!(PisAller::Json(String::from("{}")).bytes(), b"{}");
    assert_eq!(PisAller::String(String::from("abc")).bytes(), b"abc");
    assert_eq!(PisAller::RustString(String::from("()")).bytes(), b"()");
    assert_eq!(PisAller::Bin(Box::new(Vec::new())).bytes(), b"");
}

#[test]
fn raw_bytes_of_text_are_its_utf8_encoding() {
    assert_eq!(PisAller::String(String::from("é€")).bytes(), &[0xC3, 0xA9, 0xE2, 0x82, 0xAC]);
}

#[test]
fn a_failure_is_counted_and_appended() {
    let mut r = record(0);
    let escalate = r.fail("connection refused");
    assert!(!escalate);
    assert_eq!(r.retries, 1);
    assert_eq!(r.error, "db timeout\nconnection refused");
    assert_eq!(r.tag, "orders");
    assert_eq!(r.data.bytes(), b"payload");
}

#[test]
fn the_fifth_failure_escalates_and_resets() {
    let mut r = record(0);
    for attempt in 1..RETRY_LIMIT {
        assert!(!r.fail("e"));
        assert_eq!(r.retries, attempt);
    }
    assert!(r.fail("last"));
    assert_eq!(r.retries, 0);
    assert_eq!(r.error, "db timeout\ne\ne\ne\ne\nlast");
}

#[test]
fn the_limit_is_five() {
    assert_eq!(RETRY_LIMIT, 5);
    let mut r = record(4);
    assert!(r.fail("x"));
    assert_eq!(r.retries, 0);
    let mut r = record(3);
    assert!(!r.fail("x"));
    assert_eq!(r.retries, 4);
}

#[test]
fn a_counter_beyond_the_limit_escalates_at_once() {
    let mut r = record(7);
    assert!(r.fail("x"));
    assert_eq!(r.retries, 0);
    let mut r = record(usize::MAX);
    assert!(r.fail("x"));
    assert_eq!(r.retries, 0);
    assert_eq!(r.error, "db timeout\nx");
}

#[test]
fn an_empty_detail_still_adds_a_line() {
    let mut r = record(0);
    r.fail("");
    assert_eq!(r.error, "db timeout\n");
}

#[test]
fn tiers_follow_each_other() {
    assert_eq!(Tier::Primary.next(), Some(Tier::Secondary));
    assert_eq!(Tier::Secondary.next(), Some(Tier::Terminal));
    assert_eq!(Tier::Terminal.next(), None);
}

#[test]
fn names_of_collections_and_directories() {
    assert_eq!(collection_name("orders"), "pis-aller-orders");
    assert_eq!(collection_name(""), "pis-aller-");
    assert_eq!(base_directory("shop"), "pis-aller/shop");
    assert_eq!(tag_directory("shop", "orders"), "pis-aller/shop/orders");
}

#[test]
fn path_of_a_file() {
    assert_eq!(
        file_path("pis-aller/shop/orders", "0190a1b2", "txt"),
        "pis-aller/shop/orders/0190a1b2.txt"
    );
    assert_eq!(file_path("", "", ""), "/.");
}

#[test]
fn a_worker_ends_gracefully_or_by_force() {
    assert_eq!(termination(true), Termination::Graceful);
    assert_eq!(termination(false), Termination::Forced);
}

#[test]
fn timing_constants() {
    assert_eq!(POLL_INTERVAL_MILLIS, 100);
    assert_eq!(GRACE_PERIOD_SECS, 5);
}
