use solagg::batch::ColumnarBatch;
use solagg::loader::{
    collect_window, load_start_slot, pacing_sleep_ms, slot_windows, window_slots, EpochCursor,
    LoadConfig, LoadError, SlotWindow, BOOTSTRAP_LEN, RPS_LIMIT,
};
use solagg::record::TransactionRecord;
use solagg::retry::{FetchError, RetryDecision, RetryPolicy};
use solagg::store::StoreState;

fn delay(d: RetryDecision) -> u64 {
    match d {
        RetryDecision::Retry { delay_ms } => delay_ms,
        RetryDecision::Fail { error } => panic!("unexpected failure: {:?}", error),
    }
}

fn rows(n: usize, slot: u64) -> ColumnarBatch {
    let recs: Vec<TransactionRecord> = (0..n)
        .map(|i| TransactionRecord {
            signature: format!("sig{}", i),
            slot,
            err: None,
            block_time: Some(1_720_353_600),
            fee: 5000,
            sender: "a".to_string(),
            receiver: "b".to_string(),
            amount: i as i64,
        })
        .collect();
    ColumnarBatch::from_records(&recs)
}

#[test]
fn backoff_doubles_from_fifty_ms() {
    let p = RetryPolicy::new_default();
    assert_eq!(p.max_attempts, 5);
    let delays: Vec<u64> = (1..5).map(|k| delay(p.after_failure(true, k, "e".to_string()))).collect();
    assert_eq!(delays, vec![50, 100, 200, 400]);
    for n in 0..5usize {
        let total: u64 = delays[..n].iter().sum();
        assert!(total >= 50 * ((1u64 << n) - 1));
    }
}

#[test]
fn fifth_failure_exhausts_the_fetch() {
    let p = RetryPolicy::new_default();
    match p.after_failure(true, 5, "timeout".to_string()) {
        RetryDecision::Fail { error: FetchError::Exhausted { attempts, cause } } => {
            assert_eq!(attempts, 5);
            assert_eq!(cause, "timeout");
        }
        other => panic!("expected exhaustion, got {:?}", other),
    }
}

#[test]
fn non_retrying_fetch_fails_at_once() {
    let p = RetryPolicy::new_default();
    match p.after_failure(false, 1, "refused".to_string()) {
        RetryDecision::Fail { error: FetchError::Remote { cause } } => assert_eq!(cause, "refused"),
        other => panic!("expected a remote error, got {:?}", other),
    }
}

#[test]
fn sixty_slots_make_three_windows() {
    let w = slot_windows(1000, 1059, RPS_LIMIT);
    assert_eq!(
        w,
        vec![
            SlotWindow { first: 1000, last: 1024 },
            SlotWindow { first: 1025, last: 1049 },
            SlotWindow { first: 1050, last: 1059 },
        ]
    );
    let lens: Vec<usize> = w.iter().map(|x| window_slots(*x).len()).collect();
    assert_eq!(lens, vec![25, 25, 10]);
    assert_eq!(window_slots(w[2]), (1050..=1059).collect::<Vec<u64>>());
}

#[test]
fn single_slot_and_exact_multiple_ranges() {
    assert_eq!(slot_windows(5, 5, 25), vec![SlotWindow { first: 5, last: 5 }]);
    assert_eq!(slot_windows(0, 49, 25).len(), 2);
    assert_eq!(slot_windows(0, 50, 25).len(), 3);
    assert_eq!(slot_windows(u64::MAX - 1, u64::MAX, 25), vec![SlotWindow { first: u64::MAX - 1, last: u64::MAX }]);
}

#[test]
fn pacing_never_goes_negative() {
    assert_eq!(pacing_sleep_ms(0), 1000);
    assert_eq!(pacing_sleep_ms(300), 700);
    assert_eq!(pacing_sleep_ms(999), 1);
    assert_eq!(pacing_sleep_ms(1000), 0);
    assert_eq!(pacing_sleep_ms(5000), 0);
}

#[test]
fn epoch_cursor_and_load_start() {
    let c = EpochCursor::from_info(720, 311_516_666, 116_666, 432_000).unwrap();
    assert_eq!(c.epoch(), 720);
    assert_eq!(c.start_slot(), 311_400_000);
    assert_eq!(c.current_slot(), 311_516_666);
    assert_eq!(c.start_slot_next_epoch(), 311_832_000);
    let cfg = LoadConfig::new_default();
    assert_eq!(cfg.bootstrap_len, BOOTSTRAP_LEN);
    assert_eq!(load_start_slot(&c, true, &cfg), 311_516_641);
    assert_eq!(load_start_slot(&c, false, &cfg), 311_400_000);
    let young = EpochCursor::from_info(0, 10, 10, 100).unwrap();
    assert_eq!(load_start_slot(&young, true, &cfg), 0);
    assert!(EpochCursor::from_info(1, 5, 6, 10).is_none());
    assert!(EpochCursor::from_info(1, u64::MAX, 0, 1).is_none());
}

#[test]
fn window_collection_is_all_or_nothing() {
    let ok = collect_window(vec![Ok(rows(1, 1)), Ok(rows(0, 2)), Ok(rows(3, 3))]).unwrap();
    let counts: Vec<usize> = ok.iter().map(|b| b.num_rows()).collect();
    assert_eq!(counts, vec![1, 0, 3]);
    let failed = collect_window(vec![
        Ok(rows(1, 1)),
        Err(FetchError::Remote { cause: "first".to_string() }),
        Err(FetchError::Remote { cause: "second".to_string() }),
    ]);
    match failed {
        Err(LoadError::LoadFailed { cause: FetchError::Remote { cause } }) => assert_eq!(cause, "first"),
        other => panic!("expected a load failure, got {:?}", other.map(|v| v.len())),
    }
    assert!(collect_window(vec![]).unwrap().is_empty());
}

#[test]
fn gap_is_backfilled_once() {
    let s: u64 = 500;
    let mut store = StoreState::new(vec![], s, true);
    let gap = store.backfill_slots(s + 3);
    assert_eq!(gap, vec![s + 1, s + 2]);
    let backfill: Vec<ColumnarBatch> = gap.iter().map(|slot| rows(1, *slot)).collect();
    store.apply_notification(s + 3, backfill, rows(1, s + 3));
    assert_eq!(store.current_slot(), s + 3);
    assert_eq!(store.init_slot(), s);
    let slots: Vec<u64> = store.batches().iter().map(|b| b.row(0).slot).collect();
    assert_eq!(slots, vec![s + 1, s + 2, s + 3]);
    assert!(store.backfill_slots(s + 5).is_empty());
    store.apply_notification(s + 5, vec![], rows(1, s + 5));
    let slots: Vec<u64> = store.batches().iter().map(|b| b.row(0).slot).collect();
    assert_eq!(slots, vec![s + 1, s + 2, s + 3, s + 5]);
    assert_eq!(store.current_slot(), s + 5);
}

#[test]
fn next_slot_needs_no_backfill() {
    let store = StoreState::new(vec![], 9, false);
    assert!(store.backfill_slots(10).is_empty());
    assert!(store.backfill_slots(9).is_empty());
    assert!(!store.mocked());
}

#[test]
fn row_count_only_grows_with_appends() {
    let mut store = StoreState::new(vec![rows(2, 1)], 1, true);
    let before = store.size();
    store.append_batch(rows(3, 2));
    let after = store.size();
    assert_eq!(before, 2);
    assert_eq!(after, 5);
    assert!(before <= after);
}

#[test]
fn seeded_mocked_store_counts_fifteen_rows() {
    let mut batches: Vec<ColumnarBatch> = (0..25).map(|i| rows(0, 100 + i)).collect();
    batches.push(rows(15, 125));
    let store = StoreState::new(batches, 125, true);
    assert_eq!(store.batches().len(), 26);
    assert_eq!(store.size(), 15);
    assert!(store.mocked());
}
