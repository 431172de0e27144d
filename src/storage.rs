use vstd::prelude::*;
use crate::logic::PracticeSession;
use crate::text::{decimal, decimal_string};
use vstd::string::StringExecFns;

verus! {

/// A completed attempt as it is kept in history.
#[derive(Clone, Debug)]
pub struct SessionRecord {
    /// Speed at completion, in hundredths of a word per minute.
    pub wpm: u64,
    /// Accuracy at completion, in hundredths of a percent.
    pub accuracy: u64,
    /// Capture time, `YYYY-MM-DD HH:MM:SS`.
    pub timestamp: String,
    /// Whole seconds the attempt took.
    pub elapsed_seconds: u64,
    /// The prompt that was typed.
    pub exercise_text: String,
}

impl SessionRecord {
    /// The record of a finished session: its metrics are computed once here
    /// and kept as they are.
    pub fn from_session(session: &PracticeSession, timestamp: String) -> (r: SessionRecord)
        requires
            session.stats.errors <= session.stats.total_typed,
        ensures
            r.wpm as int == session.stats.wpm_capped(),
            r.accuracy as int == session.stats.accuracy_hundredths(),
            r.timestamp == timestamp,
            r.elapsed_seconds == session.stats.elapsed_seconds,
            r.exercise_text@ == session.target_text@,
    {
        SessionRecord {
            wpm: session.stats.wpm(),
            accuracy: session.stats.accuracy(),
            timestamp,
            elapsed_seconds: session.stats.elapsed_seconds,
            exercise_text: session.target_text.clone(),
        }
    }
}

/// Sum of `f` over the records.
pub open spec fn sum_by(rs: Seq<SessionRecord>, f: spec_fn(SessionRecord) -> int) -> int
    decreases rs.len(),
{
    if rs.len() == 0 {
        0
    } else {
        sum_by(rs.drop_last(), f) + f(rs.last())
    }
}

/// Largest value of `f` over the records; zero for none.
pub open spec fn max_by(rs: Seq<SessionRecord>, f: spec_fn(SessionRecord) -> int) -> int
    decreases rs.len(),
{
    if rs.len() == 0 {
        0
    } else {
        let m = max_by(rs.drop_last(), f);
        if f(rs.last()) > m {
            f(rs.last())
        } else {
            m
        }
    }
}

/// Arithmetic mean of `f` over the records, rounded down; zero for none.
pub open spec fn mean_by(rs: Seq<SessionRecord>, f: spec_fn(SessionRecord) -> int) -> int {
    if rs.len() == 0 {
        0
    } else {
        sum_by(rs, f) / (rs.len() as int)
    }
}

/// A record's speed.
pub open spec fn wpm_of() -> spec_fn(SessionRecord) -> int {
    |r: SessionRecord| r.wpm as int
}

/// A record's accuracy.
pub open spec fn accuracy_of() -> spec_fn(SessionRecord) -> int {
    |r: SessionRecord| r.accuracy as int
}

/// A record's duration.
pub open spec fn seconds_of() -> spec_fn(SessionRecord) -> int {
    |r: SessionRecord| r.elapsed_seconds as int
}

/// Summary of a history of records.
#[derive(Clone, Copy, Debug, PartialEq, Eq, Structural)]
pub struct Statistics {
    pub total_sessions: usize,
    /// Hundredths of a word per minute.
    pub best_wpm: u64,
    /// Hundredths of a word per minute, rounded down.
    pub average_wpm: u64,
    /// Hundredths of a percent.
    pub best_accuracy: u64,
    /// Hundredths of a percent, rounded down.
    pub average_accuracy: u64,
    /// Seconds.
    pub total_practice_time: u128,
}

impl Statistics {
    /// All fields zero: the summary of an empty history.
    pub open spec fn is_zero(self) -> bool {
        &&& self.total_sessions == 0
        &&& self.best_wpm == 0
        &&& self.average_wpm == 0
        &&& self.best_accuracy == 0
        &&& self.average_accuracy == 0
        &&& self.total_practice_time == 0
    }

    /// The summary of `rs`: count, best and mean speed and accuracy, and the
    /// total time.
    pub open spec fn summarizes(self, rs: Seq<SessionRecord>) -> bool {
        &&& self.total_sessions == rs.len()
        &&& self.best_wpm == max_by(rs, wpm_of())
        &&& self.average_wpm == mean_by(rs, wpm_of())
        &&& self.best_accuracy == max_by(rs, accuracy_of())
        &&& self.average_accuracy == mean_by(rs, accuracy_of())
        &&& self.total_practice_time == sum_by(rs, seconds_of())
    }

    /// Folds the records into a summary; all zero where there are none.
    pub fn from_records(records: Vec<SessionRecord>) -> (r: Statistics)
        ensures
            r.summarizes(records@),
            records@.len() == 0 ==> r.is_zero(),
    {
        let n = records.len();
        let mut sum_wpm: u128 = 0;
        let mut sum_accuracy: u128 = 0;
        let mut sum_seconds: u128 = 0;
        let mut best_wpm: u64 = 0;
        let mut best_accuracy: u64 = 0;
        let mut i: usize = 0;
        while i < n
            invariant
                n == records@.len(),
                i <= n,
                sum_wpm == sum_by(records@.take(i as int), wpm_of()),
                sum_accuracy == sum_by(records@.take(i as int), accuracy_of()),
                sum_seconds == sum_by(records@.take(i as int), seconds_of()),
                best_wpm == max_by(records@.take(i as int), wpm_of()),
                best_accuracy == max_by(records@.take(i as int), accuracy_of()),
                sum_wpm <= i * 0xffff_ffff_ffff_ffffu128,
                sum_accuracy <= i * 0xffff_ffff_ffff_ffffu128,
                sum_seconds <= i * 0xffff_ffff_ffff_ffffu128,
            decreases n - i,
        {
            let w = records[i].wpm;
            let a = records[i].accuracy;
            let e = records[i].elapsed_seconds;
            proof {
                let next = records@.take(i + 1);
                assert(next.drop_last() =~= records@.take(i as int));
                assert(next.last() == records@[i as int]);
                assert(sum_by(next, wpm_of()) == sum_by(records@.take(i as int), wpm_of()) + wpm_of()(records@[i as int]));
                assert(sum_by(next, accuracy_of()) == sum_by(records@.take(i as int), accuracy_of()) + accuracy_of()(records@[i as int]));
                assert(sum_by(next, seconds_of()) == sum_by(records@.take(i as int), seconds_of()) + seconds_of()(records@[i as int]));
            }
            sum_wpm = sum_wpm + w as u128;
            sum_accuracy = sum_accuracy + a as u128;
            sum_seconds = sum_seconds + e as u128;
            if w > best_wpm {
                best_wpm = w;
            }
            if a > best_accuracy {
                best_accuracy = a;
            }
            i = i + 1;
        }
        proof {
            assert(records@.take(n as int) =~= records@);
        }
        if n == 0 {
            return Statistics {
                total_sessions: 0,
                best_wpm: 0,
                average_wpm: 0,
                best_accuracy: 0,
                average_accuracy: 0,
                total_practice_time: 0,
            };
        }
        let count = n as u128;
        proof {
            lemma_mean_fits(sum_wpm as int, count as int);
            lemma_mean_fits(sum_accuracy as int, count as int);
        }
        Statistics {
            total_sessions: n,
            best_wpm,
            average_wpm: (sum_wpm / count) as u64,
            best_accuracy,
            average_accuracy: (sum_accuracy / count) as u64,
            total_practice_time: sum_seconds,
        }
    }
}

/// The mean of `n` values that each fit in a `u64` fits in a `u64`.
proof fn lemma_mean_fits(sum: int, n: int)
    requires
        0 < n,
        0 <= sum <= n * 0xffff_ffff_ffff_ffff,
    ensures
        sum / n <= 0xffff_ffff_ffff_ffff,
{
    vstd::arithmetic::div_mod::lemma_div_is_ordered(sum, n * 0xffff_ffff_ffff_ffff, n);
    vstd::arithmetic::div_mod::lemma_div_multiples_vanish(0xffff_ffff_ffff_ffff, n);
    assert(n * 0xffff_ffff_ffff_ffff == 0xffff_ffff_ffff_ffff * n) by (nonlinear_arith);
}

impl Default for Statistics {
    fn default() -> (r: Statistics)
        ensures
            r.is_zero(),
    {
        Statistics {
            total_sessions: 0,
            best_wpm: 0,
            average_wpm: 0,
            best_accuracy: 0,
            average_accuracy: 0,
            total_practice_time: 0,
        }
    }
}

#[verifier::external_type_specification]
#[verifier::external_body]
pub struct ExJsonError(serde_json::Error);

/// The JSON text that `serde_json::to_string` gives for a list of strings.
pub uninterp spec fn key_list_json(keys: Seq<Seq<char>>) -> Seq<char>;

/// What `serde_json::from_str` reads from `text` as a list of strings, if
/// `text` is one.
pub uninterp spec fn key_list_from_json(text: Seq<char>) -> Option<Seq<Seq<char>>>;

/// Relies on `serde_json::to_string` for `Vec<String>`: on success its text
/// depends on the strings alone.
#[verifier::external_body]
fn encode_key_list(keys: &Vec<String>) -> (r: Result<String, serde_json::Error>)
    ensures
        r matches Ok(text) ==> text@ == key_list_json(keys.deep_view()),
{
    serde_json::to_string(keys)
}

/// Relies on `serde_json::from_str` for `Vec<String>`: whether it succeeds,
/// and the strings it reads, depend on the text alone.
#[verifier::external_body]
fn decode_key_list(text: &str) -> (r: Result<Vec<String>, serde_json::Error>)
    ensures
        match r {
            Ok(keys) => key_list_from_json(text@) == Some(keys.deep_view()),
            Err(_) => key_list_from_json(text@) is None,
        },
{
    serde_json::from_str::<Vec<String>>(text)
}

/// One write to the key-value store that holds the history.
#[derive(Clone, Debug)]
pub enum StoreOp {
    /// Store `value` under `key`, replacing what was there.
    Put { key: String, value: String },
    /// Delete the entry under `key`; nothing happens where there is none.
    Remove { key: String },
}

/// A store write over plain sequences.
pub enum StoreEffect {
    Put { key: Seq<char>, value: Seq<char> },
    Remove { key: Seq<char> },
}

impl View for StoreOp {
    type V = StoreEffect;

    open spec fn view(&self) -> StoreEffect {
        match self {
            StoreOp::Put { key, value } => StoreEffect::Put { key: key@, value: value@ },
            StoreOp::Remove { key } => StoreEffect::Remove { key: key@ },
        }
    }
}

/// The effects of a list of writes.
pub open spec fn effects_of(ops: Seq<StoreOp>) -> Seq<StoreEffect> {
    ops.map_values(|op: StoreOp| op@)
}

/// The store after one write.
pub open spec fn apply_effect(
    store: Map<Seq<char>, Seq<char>>,
    e: StoreEffect,
) -> Map<Seq<char>, Seq<char>> {
    match e {
        StoreEffect::Put { key, value } => store.insert(key, value),
        StoreEffect::Remove { key } => store.remove(key),
    }
}

/// The store after the writes, in order.
pub open spec fn apply_effects(
    store: Map<Seq<char>, Seq<char>>,
    es: Seq<StoreEffect>,
) -> Map<Seq<char>, Seq<char>>
    decreases es.len(),
{
    if es.len() == 0 {
        store
    } else {
        apply_effects(apply_effect(store, es[0]), es.drop_first())
    }
}

/// The fixed key under which the list of record keys is kept.
pub open spec fn sessions_list_key() -> Seq<char> {
    "_array30_sessions_list"@
}

/// The key of a record saved at `now_ms` milliseconds.
pub open spec fn session_key(now_ms: nat) -> Seq<char> {
    "session_"@ + decimal(now_ms)
}

/// The record keys that the stored list names: none where the list is
/// absent or is not a JSON list of strings.
pub open spec fn listed_keys(list_entry: Option<Seq<char>>) -> Seq<Seq<char>> {
    match list_entry {
        Some(text) => match key_list_from_json(text) {
            Some(keys) => keys,
            None => Seq::empty(),
        },
        None => Seq::empty(),
    }
}

/// The entry under `key`, if any.
pub open spec fn entry(store: Map<Seq<char>, Seq<char>>, key: Seq<char>) -> Option<Seq<char>> {
    if store.contains_key(key) {
        Some(store[key])
    } else {
        None
    }
}

/// A removal of each key, in order.
pub open spec fn removals(keys: Seq<Seq<char>>) -> Seq<StoreEffect> {
    keys.map_values(|key: Seq<char>| StoreEffect::Remove { key })
}

/// The writes that clear the history: each listed record, then the list.
pub open spec fn clear_effects(keys: Seq<Seq<char>>) -> Seq<StoreEffect> {
    removals(keys).push(StoreEffect::Remove { key: sessions_list_key() })
}

/// The records that could be read back, in the order of their keys; entries
/// that were missing or could not be decoded are `None` and are left out.
pub open spec fn readable(decoded: Seq<Option<SessionRecord>>) -> Seq<SessionRecord>
    decreases decoded.len(),
{
    if decoded.len() == 0 {
        Seq::empty()
    } else {
        let rest = readable(decoded.drop_last());
        match decoded.last() {
            Some(r) => rest.push(r),
            None => rest,
        }
    }
}

fn sessions_list_key_string() -> (r: String)
    ensures
        r@ == sessions_list_key(),
{
    "_array30_sessions_list".to_owned()
}

/// Reads and writes history through a string key-value store (such as a
/// browser's local storage). The store itself is driven by the caller: each
/// operation takes what it needs to have read and returns the writes to make.
pub struct HistoryManager;

impl HistoryManager {
    /// The record keys that the stored list names, given the entry under the
    /// list key; none where it is absent or unreadable.
    pub fn get_sessions_list(list_entry: &Option<String>) -> (r: Vec<String>)
        ensures
            r.deep_view() == listed_keys(list_entry.deep_view()),
    {
        match list_entry {
            Some(text) => match decode_key_list(text.as_str()) {
                Ok(keys) => keys,
                Err(_) => Vec::new(),
            },
            None => {
                let r: Vec<String> = Vec::new();
                assert(r.deep_view() =~= Seq::<Seq<char>>::empty());
                r
            },
        }
    }

    /// The writes that save a record whose serialized text is `record_text`,
    /// at `now_ms` milliseconds, given the entry under the list key: the
    /// record under a key made from the time, then the list with that key
    /// appended. The list is left as it is where it cannot be encoded.
    pub fn save_session(record_text: String, now_ms: u64, list_entry: &Option<String>) -> (ops:
        Vec<StoreOp>)
        ensures
            ops@.len() == 1 || ops@.len() == 2,
            ops@[0]@ == (StoreEffect::Put { key: session_key(now_ms as nat), value: record_text@ }),
            ops@.len() == 2 ==> ops@[1]@ == (StoreEffect::Put {
                key: sessions_list_key(),
                value: key_list_json(
                    listed_keys(list_entry.deep_view()).push(session_key(now_ms as nat)),
                ),
            }),
    {
        let mut key = "session_".to_owned();
        key.append(decimal_string(now_ms as u128).as_str());
        let mut keys = Self::get_sessions_list(list_entry);
        let ghost record_key = key@;
        keys.push(key.clone());
        proof {
            assert(keys.deep_view() =~= listed_keys(list_entry.deep_view()).push(record_key));
        }
        let list_text = match encode_key_list(&keys) {
            Ok(text) => Some(text),
            Err(_) => None,
        };
        Self::save_writes(key, record_text, list_text)
    }

    /// The writes that save a record: `record_text` under `record_key`, then,
    /// where the new list could be encoded, `list_text` under the list key.
    pub fn save_writes(record_key: String, record_text: String, list_text: Option<String>) -> (ops:
        Vec<StoreOp>)
        ensures
            ops@.len() == if list_text is Some { 2int } else { 1int },
            ops@[0]@ == (StoreEffect::Put { key: record_key@, value: record_text@ }),
            list_text matches Some(text) ==> ops@[1]@ == (StoreEffect::Put {
                key: sessions_list_key(),
                value: text@,
            }),
    {
        let mut ops: Vec<StoreOp> = Vec::new();
        ops.push(StoreOp::Put { key: record_key, value: record_text });
        match list_text {
            Some(text) => {
                ops.push(StoreOp::Put { key: sessions_list_key_string(), value: text });
            },
            None => {},
        }
        ops
    }

    /// Folds the records read back into a summary. `decoded` holds, for each
    /// listed key, the record stored there, or `None` where the entry was
    /// missing or could not be decoded; those are skipped.
    pub fn get_statistics(decoded: Vec<Option<SessionRecord>>) -> (r: Statistics)
        ensures
            r.summarizes(readable(decoded@)),
    {
        let ghost all = decoded@;
        let mut records: Vec<SessionRecord> = Vec::new();
        for item in it: decoded
            invariant
                it.seq() == all,
                records@ == readable(all.take(it.index() as int)),
        {
            proof {
                assert(all.take(it.index() + 1).drop_last() =~= all.take(it.index() as int));
            }
            match item {
                Some(r) => records.push(r),
                None => {},
            }
        }
        proof {
            assert(all.take(all.len() as int) =~= all);
        }
        Statistics::from_records(records)
    }

    /// The writes that clear the history, given the entry under the list
    /// key: every listed record, then the list itself.
    pub fn clear_history(list_entry: &Option<String>) -> (ops: Vec<StoreOp>)
        ensures
            effects_of(ops@) == clear_effects(listed_keys(list_entry.deep_view())),
    {
        let keys = Self::get_sessions_list(list_entry);
        let mut ops: Vec<StoreOp> = Vec::new();
        let mut i: usize = 0;
        while i < keys.len()
            invariant
                i <= keys.len(),
                keys.deep_view() == listed_keys(list_entry.deep_view()),
                ops@.len() == i,
                effects_of(ops@) =~= removals(keys.deep_view().take(i as int)),
            decreases keys.len() - i,
        {
            let ghost before = ops@;
            ops.push(StoreOp::Remove { key: keys[i].clone() });
            proof {
                let kv = keys.deep_view();
                assert(kv[i as int] == keys@[i as int]@);
                assert(kv.take(i + 1) =~= kv.take(i as int).push(kv[i as int]));
                assert(effects_of(ops@) =~= effects_of(before).push(ops@[i as int]@));
            }
            i = i + 1;
        }
        ops.push(StoreOp::Remove { key: sessions_list_key_string() });
        proof {
            assert(keys.deep_view().take(keys.len() as int) =~= keys.deep_view());
            assert(effects_of(ops@) =~= clear_effects(listed_keys(list_entry.deep_view())));
        }
        ops
    }
}

/// Writes applied one list after another: the last write comes last.
proof fn lemma_apply_push(store: Map<Seq<char>, Seq<char>>, es: Seq<StoreEffect>, e: StoreEffect)
    ensures
        apply_effects(store, es.push(e)) == apply_effect(apply_effects(store, es), e),
    decreases es.len(),
{
    if es.len() == 0 {
        assert(es.push(e).drop_first() =~= Seq::<StoreEffect>::empty());
        assert(es.push(e)[0] == e);
        assert(apply_effects(store, es) == store);
        assert(apply_effects(apply_effect(store, e), es.push(e).drop_first()) == apply_effect(
            store,
            e,
        ));
    } else {
        assert(es.push(e)[0] == es[0]);
        assert(es.push(e).drop_first() =~= es.drop_first().push(e));
        lemma_apply_push(apply_effect(store, es[0]), es.drop_first(), e);
        assert(apply_effects(store, es.push(e)) == apply_effects(
            apply_effect(store, es[0]),
            es.drop_first().push(e),
        ));
    }
}

/// Removing each of `keys` leaves none of them in the store.
proof fn lemma_removes_all(store: Map<Seq<char>, Seq<char>>, keys: Seq<Seq<char>>)
    ensures
        forall|k: Seq<char>|
            keys.contains(k) ==> !#[trigger] apply_effects(
                store,
                removals(keys),
            ).contains_key(k),
    decreases keys.len(),
{
    if keys.len() > 0 {
        let rest = keys.drop_last();
        let removes = removals(keys);
        let rest_removes = removals(rest);
        assert(removes =~= rest_removes.push(StoreEffect::Remove { key: keys.last() }));
        lemma_removes_all(store, rest);
        lemma_apply_push(store, rest_removes, StoreEffect::Remove { key: keys.last() });
        assert forall|k: Seq<char>| keys.contains(k) implies !#[trigger] apply_effects(
            store,
            removes,
        ).contains_key(k) by {
            let j = choose|j: int| 0 <= j < keys.len() && keys[j] == k;
            if j < keys.len() - 1 {
                assert(rest[j] == k);
                assert(rest.contains(k));
            }
        }
    }
}

/// Clearing the history leaves none of the listed records and no list;
/// clearing it a second time leaves the store exactly as the first did.
pub proof fn lemma_clear_history_idempotent(store: Map<Seq<char>, Seq<char>>)
    ensures
        ({
            let keys = listed_keys(entry(store, sessions_list_key()));
            let once = apply_effects(store, clear_effects(keys));
            let twice = apply_effects(
                once,
                clear_effects(listed_keys(entry(once, sessions_list_key()))),
            );
            &&& !once.contains_key(sessions_list_key())
            &&& forall|k: Seq<char>| keys.contains(k) ==> !#[trigger] once.contains_key(k)
            &&& twice == once
        }),
{
    let keys = listed_keys(entry(store, sessions_list_key()));
    let removes = removals(keys);
    let last = StoreEffect::Remove { key: sessions_list_key() };
    lemma_apply_push(store, removes, last);
    lemma_removes_all(store, keys);
    let once = apply_effects(store, clear_effects(keys));
    assert(entry(once, sessions_list_key()) is None);
    let none: Seq<Seq<char>> = Seq::empty();
    let none_removes = removals(none);
    assert(none_removes =~= Seq::<StoreEffect>::empty());
    lemma_apply_push(once, none_removes, last);
    assert(apply_effects(once, clear_effects(none)) =~= once);
}

/// A record key never collides with the list key.
proof fn lemma_session_key_is_not_list_key(now_ms: nat)
    ensures
        session_key(now_ms) != sessions_list_key(),
{
    reveal_strlit("session_");
    reveal_strlit("_array30_sessions_list");
    assert(session_key(now_ms)[0] == 's');
    assert(sessions_list_key()[0] == '_');
}

/// After the writes of `save_session`, the store holds the record's text,
/// unchanged, under the record's key, and the list, where it was written,
/// is the encoding of the earlier keys followed by the new one.
pub proof fn lemma_saved_text_stored(
    store: Map<Seq<char>, Seq<char>>,
    record_text: Seq<char>,
    now_ms: nat,
    ops: Seq<StoreEffect>,
)
    requires
        ops.len() == 1 || ops.len() == 2,
        ops[0] == (StoreEffect::Put { key: session_key(now_ms), value: record_text }),
        ops.len() == 2 ==> ops[1] == (StoreEffect::Put {
            key: sessions_list_key(),
            value: key_list_json(
                listed_keys(entry(store, sessions_list_key())).push(session_key(now_ms)),
            ),
        }),
    ensures
        entry(apply_effects(store, ops), session_key(now_ms)) == Some(record_text),
        ops.len() == 2 ==> entry(apply_effects(store, ops), sessions_list_key()) == Some(
            key_list_json(
                listed_keys(entry(store, sessions_list_key())).push(session_key(now_ms)),
            ),
        ),
{
    lemma_session_key_is_not_list_key(now_ms);
    lemma_apply_push(store, Seq::empty(), ops[0]);
    assert(Seq::<StoreEffect>::empty().push(ops[0]) =~= ops.take(1));
    if ops.len() == 2 {
        lemma_apply_push(store, ops.take(1), ops[1]);
        assert(ops.take(1).push(ops[1]) =~= ops);
    } else {
        assert(ops.take(1) =~= ops);
    }
}

} // verus!
