use pis_aller::item::PisAller;
use pis_aller::persistent::PersistentPisAller;
use pis_aller::tier::Tier;
use pis_aller::worker::{Action, Report};

fn queued(pipeline: &PersistentPisAller) -> usize {
    pipeline.pending(Tier::Primary)
        + pipeline.pending(Tier::Secondary)
        + pipeline.pending(Tier::Terminal)
}

#[test]
fn text_falls_back_to_a_file_when_the_database_is_down() {
    let mut pipeline = PersistentPisAller::const_new("shop");
    assert_eq!(pipeline.initiate(true), Ok(()));
    pipeline.process("orders", "order #17: 3 widgets", "db timeout");

    let mut report = Report::Idle;
    let mut inserts = 0;
    loop {
        match pipeline.mongo_thread(report) {
            Action::Insert { database, collection, record } => {
                assert_eq!(database, "shop");
                assert_eq!(collection, "pis-aller-orders");
                inserts += 1;
                report = Report::Failed { record, detail: format!("refused #{}", inserts) };
            }
            Action::Wait { .. } => break,
            other => panic!("unexpected: {:?}", other),
        }
    }
    assert_eq!(inserts, 5);
    assert_eq!(pipeline.pending(Tier::Secondary), 1);

    match pipeline.file_thread(Report::Idle) {
        Action::Write { folder, identifier, path, record } => {
            assert_eq!(folder, "pis-aller/shop/orders");
            assert_eq!(identifier.len(), 36);
            assert_eq!(path, format!("{}/{}.txt", folder, identifier));
            assert!(path.ends_with(&format!("shop/orders/{}.txt", identifier)));
            assert_eq!(record.data.bytes(), "order #17: 3 widgets".as_bytes());
            assert_eq!(record.retries, 0);
        }
        other => panic!("unexpected: {:?}", other),
    }
    assert!(matches!(pipeline.file_thread(Report::Stored), Action::Wait { .. }));
    assert_eq!(queued(&pipeline), 0);
    assert!(matches!(pipeline.log_thread(), Action::Wait { .. }));
}

#[test]
fn binary_reaches_the_console_when_both_stores_are_down() {
    let mut pipeline = PersistentPisAller::const_new("shop");
    assert_eq!(pipeline.initiate(true), Ok(()));
    let raw: &[u8] = &[0xDE, 0xAD, 0xBE, 0xEF];
    pipeline.process("blobs", raw, "db timeout");

    let mut report = Report::Idle;
    let mut failures = 0;
    loop {
        match pipeline.mongo_thread(report) {
            Action::Insert { record, .. } => {
                failures += 1;
                report = Report::Failed { record, detail: format!("primary {}", failures) };
            }
            Action::Wait { .. } => break,
            other => panic!("unexpected: {:?}", other),
        }
    }
    assert_eq!(failures, 5);
    let mut report = Report::Idle;
    loop {
        match pipeline.file_thread(report) {
            Action::Write { path, record, .. } => {
                assert!(path.ends_with(".bin"));
                failures += 1;
                report = Report::Failed { record, detail: format!("secondary {}", failures) };
            }
            Action::Wait { .. } => break,
            other => panic!("unexpected: {:?}", other),
        }
    }
    assert_eq!(failures, 10);
    assert_eq!(pipeline.pending(Tier::Terminal), 1);

    match pipeline.log_thread() {
        Action::Emit { record } => {
            assert_eq!(record.tag, "blobs");
            assert_eq!(record.retries, 0);
            assert_eq!(
                record.error,
                "db timeout\nprimary 1\nprimary 2\nprimary 3\nprimary 4\nprimary 5\
                 \nsecondary 6\nsecondary 7\nsecondary 8\nsecondary 9\nsecondary 10"
            );
            assert_eq!(record.error.lines().count(), 11);
            assert_eq!(record.data.bytes(), &[0xDE, 0xAD, 0xBE, 0xEF]);
        }
        other => panic!("unexpected: {:?}", other),
    }
    assert_eq!(queued(&pipeline), 0);
    assert!(matches!(pipeline.log_thread(), Action::Wait { .. }));
}

#[test]
fn a_record_passes_the_tiers_in_order_and_never_goes_back() {
    let mut pipeline = PersistentPisAller::const_new("shop");
    assert_eq!(pipeline.initiate(true), Ok(()));
    pipeline.process("orders", "text", "db timeout");
    let mut seen: Vec<Tier> = Vec::new();
    let mut primary = Report::Idle;
    let mut secondary = Report::Idle;
    for _ in 0..40 {
        match pipeline.mongo_thread(primary) {
            Action::Insert { record, .. } => {
                seen.push(Tier::Primary);
                primary = Report::Failed { record, detail: String::from("p") };
            }
            _ => primary = Report::Idle,
        }
        match pipeline.file_thread(secondary) {
            Action::Write { record, .. } => {
                seen.push(Tier::Secondary);
                secondary = Report::Failed { record, detail: String::from("s") };
            }
            _ => secondary = Report::Idle,
        }
        if let Action::Emit { .. } = pipeline.log_thread() {
            seen.push(Tier::Terminal);
        }
    }
    let mut expected = vec![Tier::Primary; 5];
    expected.extend(vec![Tier::Secondary; 5]);
    expected.push(Tier::Terminal);
    assert_eq!(seen, expected);
    assert_eq!(queued(&pipeline), 0);
}
