use std::collections::HashMap;
use typing_tutor::logic::PracticeSession;
use typing_tutor::storage::{HistoryManager, SessionRecord, Statistics, StoreOp};

const LIST_KEY: &str = "_array30_sessions_list";

fn record(wpm: u64, accuracy: u64, elapsed_seconds: u64) -> SessionRecord {
    SessionRecord {
        wpm,
        accuracy,
        timestamp: "2026-01-01 10:00:00".to_string(),
        elapsed_seconds,
        exercise_text: "練習".to_string(),
    }
}

fn apply(store: &mut HashMap<String, String>, ops: Vec<StoreOp>) {
    for op in ops {
        match op {
            StoreOp::Put { key, value } => {
                store.insert(key, value);
            }
            StoreOp::Remove { key } => {
                store.remove(&key);
            }
        }
    }
}

#[test]
fn statistics_empty_records_returns_default() {
    let stats = Statistics::from_records(vec![]);
    assert_eq!(stats, Statistics::default());
}

#[test]
fn statistics_from_records_aggregates_fields() {
    // Speeds and accuracies are in hundredths: 2000 is 20.00.
    let records = vec![
        SessionRecord {
            wpm: 2000,
            accuracy: 9500,
            timestamp: "2026-01-01 10:00:00".to_string(),
            elapsed_seconds: 30,
            exercise_text: "練習一".to_string(),
        },
        SessionRecord {
            wpm: 4000,
            accuracy: 9000,
            timestamp: "2026-01-01 10:05:00".to_string(),
            elapsed_seconds: 45,
            exercise_text: "練習二".to_string(),
        },
    ];

    let stats = Statistics::from_records(records);

    assert_eq!(stats.total_sessions, 2);
    assert_eq!(stats.best_wpm, 4000);
    assert_eq!(stats.best_accuracy, 9500);
    assert_eq!(stats.total_practice_time, 75);
    assert_eq!(stats.average_wpm, 3000);
    assert_eq!(stats.average_accuracy, 9250);
}

#[test]
fn statistics_mean_rounds_down() {
    let stats = Statistics::from_records(vec![record(1, 2, 1), record(2, 2, 2), record(2, 3, 3)]);
    assert_eq!(stats.total_sessions, 3);
    assert_eq!(stats.average_wpm, 1);
    assert_eq!(stats.average_accuracy, 2);
    assert_eq!(stats.best_wpm, 2);
    assert_eq!(stats.best_accuracy, 3);
    assert_eq!(stats.total_practice_time, 6);
}

#[test]
fn statistics_handle_largest_values() {
    let stats = Statistics::from_records(vec![
        record(u64::MAX, u64::MAX, u64::MAX),
        record(u64::MAX, u64::MAX, u64::MAX),
    ]);
    assert_eq!(stats.average_wpm, u64::MAX);
    assert_eq!(stats.best_wpm, u64::MAX);
    assert_eq!(stats.total_practice_time, 2 * (u64::MAX as u128));
}

#[test]
fn record_from_session_freezes_metrics() {
    let mut session = PracticeSession::new();
    session.target_text = "abcdefghij".to_string();
    session.update_input("abcdefghix", 60_000);
    let r = SessionRecord::from_session(&session, "2026-02-03 04:05:06".to_string());
    // 9 correct characters in one minute: 1.8 words per minute.
    assert_eq!(r.wpm, 180);
    assert_eq!(r.accuracy, 9000);
    assert_eq!(r.elapsed_seconds, 60);
    assert_eq!(r.timestamp, "2026-02-03 04:05:06");
    assert_eq!(r.exercise_text, "abcdefghij");
}

#[test]
fn get_sessions_list_reads_stored_list() {
    let list = Some("[\"session_1\",\"session_2\"]".to_string());
    assert_eq!(HistoryManager::get_sessions_list(&list), vec!["session_1", "session_2"]);
    assert!(HistoryManager::get_sessions_list(&None).is_empty());
    assert!(HistoryManager::get_sessions_list(&Some("not json".to_string())).is_empty());
    assert!(HistoryManager::get_sessions_list(&Some("[1,2]".to_string())).is_empty());
}

#[test]
fn save_session_writes_record_then_list() {
    let ops = HistoryManager::save_session("{}".to_string(), 1700000000123, &None);
    assert_eq!(ops.len(), 2);
    match &ops[0] {
        StoreOp::Put { key, value } => {
            assert_eq!(key, "session_1700000000123");
            assert_eq!(value, "{}");
        }
        StoreOp::Remove { .. } => panic!("expected a write of the record"),
    }
    match &ops[1] {
        StoreOp::Put { key, value } => {
            assert_eq!(key, LIST_KEY);
            assert_eq!(value, "[\"session_1700000000123\"]");
        }
        StoreOp::Remove { .. } => panic!("expected a write of the list"),
    }
}

#[test]
fn save_session_appends_to_existing_list() {
    let list = Some("[\"session_5\"]".to_string());
    let ops = HistoryManager::save_session("x".to_string(), 7, &list);
    match &ops[1] {
        StoreOp::Put { value, .. } => assert_eq!(value, "[\"session_5\",\"session_7\"]"),
        StoreOp::Remove { .. } => panic!("expected a write of the list"),
    }
}

#[test]
fn saved_text_reads_back_unchanged() {
    let mut store: HashMap<String, String> = HashMap::new();
    let text = "{\"wpm\":20.0,\"exerciseText\":\"練習\"}".to_string();
    let ops = HistoryManager::save_session(text.clone(), 42, &store.get(LIST_KEY).cloned());
    apply(&mut store, ops);
    let keys = HistoryManager::get_sessions_list(&store.get(LIST_KEY).cloned());
    assert_eq!(keys, vec!["session_42"]);
    assert_eq!(store.get(&keys[0]), Some(&text));
}

#[test]
fn clear_history_removes_records_then_list() {
    let list = Some("[\"session_1\",\"session_2\"]".to_string());
    let ops = HistoryManager::clear_history(&list);
    let keys: Vec<String> = ops
        .into_iter()
        .map(|op| match op {
            StoreOp::Remove { key } => key,
            StoreOp::Put { .. } => panic!("clearing only removes"),
        })
        .collect();
    assert_eq!(keys, vec!["session_1", "session_2", LIST_KEY]);
}

#[test]
fn clear_history_twice_equals_once() {
    let mut store: HashMap<String, String> = HashMap::new();
    store.insert("unrelated".to_string(), "kept".to_string());
    for now in [1u64, 2, 3] {
        let ops = HistoryManager::save_session(format!("r{}", now), now, &store.get(LIST_KEY).cloned());
        apply(&mut store, ops);
    }
    assert_eq!(store.len(), 5);
    let ops = HistoryManager::clear_history(&store.get(LIST_KEY).cloned());
    apply(&mut store, ops);
    let once = store.clone();
    let ops = HistoryManager::clear_history(&store.get(LIST_KEY).cloned());
    apply(&mut store, ops);
    assert_eq!(store, once);
    assert_eq!(store.len(), 1);
    assert_eq!(store.get("unrelated"), Some(&"kept".to_string()));
}

#[test]
fn get_statistics_skips_unreadable_records() {
    let stats = HistoryManager::get_statistics(vec![
        Some(record(2000, 9500, 30)),
        None,
        Some(record(4000, 9000, 45)),
    ]);
    assert_eq!(stats.total_sessions, 2);
    assert_eq!(stats.average_wpm, 3000);
    assert_eq!(stats.total_practice_time, 75);
    assert_eq!(HistoryManager::get_statistics(vec![None, None]), Statistics::default());
}

#[test]
fn save_writes_skips_list_without_text() {
    let ops = HistoryManager::save_writes("session_9".to_string(), "r".to_string(), None);
    assert_eq!(ops.len(), 1);
    let ops = HistoryManager::save_writes(
        "session_9".to_string(),
        "r".to_string(),
        Some("[\"session_9\"]".to_string()),
    );
    assert_eq!(ops.len(), 2);
    match &ops[1] {
        StoreOp::Put { key, value } => {
            assert_eq!(key, LIST_KEY);
            assert_eq!(value, "[\"session_9\"]");
        }
        StoreOp::Remove { .. } => panic!("expected a write of the list"),
    }
}
