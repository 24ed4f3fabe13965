//! Plans and decisions of the durable store for recovery records.
//!
//! A save is planned as: validate the key, serialize, cap the size, then
//! write the full content to a sibling temporary path and atomically rename
//! it over the final path. The embedding application carries the plan out;
//! what it reads back is interpreted here. The retention sweep's per-file
//! decision is also made here.

use vstd::prelude::*;
use vstd::string::StringSliceAdditionalSpecFns;
use crate::errors::RecoveryError;
use crate::jsonio::compact_json_text;
use crate::jsonio::pretty_json_text;
use crate::jsonio::parsed_json;
use crate::jsonio::to_compact_json;
use crate::jsonio::to_pretty_json;
use crate::jsonio::parse_json;
use crate::jsonio::json_error_message;
use crate::validate::is_valid_filename;
use crate::validate::validate_filename;

verus! {

/// Serialized payloads above this many bytes are rejected before any write.
pub const MAX_RECOVERY_DATA_BYTES: usize = 10485760;

/// Recovery files whose age strictly exceeds this many seconds are retired.
pub const SWEEP_MAX_AGE_SECONDS: u64 = 604800;

/// The final on-disk path of a recovery record, relative to the data root.
pub open spec fn recovery_final_path(name: Seq<char>) -> Seq<char> {
    "recovery/"@ + name + ".json"@
}

/// The sibling temporary path a save writes before the atomic rename.
pub open spec fn recovery_temp_path(name: Seq<char>) -> Seq<char> {
    "recovery/"@ + name + ".tmp"@
}

/// One planned atomic write: the full content goes to `temp_path`, which
/// is then renamed over `final_path` in a single step, so a reader never
/// observes a half-written final file.
#[derive(Debug, Clone)]
pub struct SavePlan {
    /// Path the rename installs the record at, relative to the data root.
    pub final_path: String,
    /// Sibling temporary path that receives the full content first.
    pub temp_path: String,
    /// The complete serialized record.
    pub content: String,
}

/// What the application found when asked to read a path.
pub enum ReadOutcome {
    /// No file exists at the path.
    Missing,
    /// The file exists but could not be read; the platform's message.
    Unreadable { message: String },
    /// The full text of the file.
    Content { text: String },
}

fn make_recovery_paths(filename: &str) -> (r: (String, String))
    ensures
        r.0@ == recovery_final_path(filename@),
        r.1@ == recovery_temp_path(filename@),
{
    let mut fin = String::from_str("recovery/");
    fin.append(filename);
    let mut tmp = fin.clone();
    fin.append(".json");
    tmp.append(".tmp");
    (fin, tmp)
}

/// A record's temporary path never collides with its final path, so the
/// final path is only ever touched by the atomic rename.
pub proof fn lemma_recovery_paths_distinct(name: Seq<char>)
    ensures
        recovery_final_path(name) != recovery_temp_path(name),
{
    reveal_strlit("recovery/");
    reveal_strlit(".json");
    reveal_strlit(".tmp");
    assert(recovery_final_path(name).len() == name.len() + 14);
    assert(recovery_temp_path(name).len() == name.len() + 13);
}

/// Records are independent files: distinct keys always map to distinct
/// final paths, so saves of different keys never touch the same file.
pub proof fn lemma_record_paths_injective(a: Seq<char>, b: Seq<char>)
    requires
        recovery_final_path(a) == recovery_final_path(b),
    ensures
        a == b,
{
    reveal_strlit("recovery/");
    reveal_strlit(".json");
    let pa = recovery_final_path(a);
    let pb = recovery_final_path(b);
    assert(pa.len() == a.len() + 14);
    assert(pb.len() == b.len() + 14);
    assert forall|i: int| 0 <= i < a.len() implies a[i] == b[i] by {
        assert(pa[9 + i] == a[i]);
        assert(pb[9 + i] == b[i]);
    }
    assert(a =~= b);
}

/// A temporary path never collides with the final path of any record,
/// whatever the two keys: a temporary write can never clobber a record.
pub proof fn lemma_temp_never_hits_a_record(a: Seq<char>, b: Seq<char>)
    ensures
        recovery_temp_path(a) != recovery_final_path(b),
{
    reveal_strlit("recovery/");
    reveal_strlit(".json");
    reveal_strlit(".tmp");
    let pa = recovery_temp_path(a);
    let pb = recovery_final_path(b);
    assert(pa.len() == a.len() + 13);
    assert(pb.len() == b.len() + 14);
    if pa == pb {
        assert(pa[pa.len() - 1] == 'p');
        assert(pb[pb.len() - 1] == 'n');
    }
}

/// Plans the write of one already-serialized record: the key must pass
/// the allow-list and the compact rendering the size cap, if and only if;
/// the plan then carries the pretty rendering to the record's paths.
pub fn plan_recovery_write(filename: &str, compact: &String, pretty: String) -> (r: Result<
    SavePlan,
    RecoveryError,
>)
    ensures
        r is Ok <==> is_valid_filename(filename@) && vstd::utf8::encode_utf8(compact@).len()
            as usize <= MAX_RECOVERY_DATA_BYTES,
        (r matches Err(e) && e is ValidationError) <==> !is_valid_filename(filename@),
        (r matches Err(e) && e is DataTooLarge) <==> is_valid_filename(filename@)
            && vstd::utf8::encode_utf8(compact@).len() as usize > MAX_RECOVERY_DATA_BYTES,
        r matches Err(e) ==> (e is DataTooLarge ==> e == (RecoveryError::DataTooLarge {
            max_bytes: MAX_RECOVERY_DATA_BYTES as u32,
        })),
        r matches Ok(plan) ==> {
            &&& plan.final_path@ == recovery_final_path(filename@)
            &&& plan.temp_path@ == recovery_temp_path(filename@)
            &&& plan.content@ == pretty@
        },
{
    if let Err(message) = validate_filename(filename) {
        return Err(RecoveryError::ValidationError { message });
    }
    if compact.as_str().len() > MAX_RECOVERY_DATA_BYTES {
        return Err(RecoveryError::DataTooLarge { max_bytes: MAX_RECOVERY_DATA_BYTES as u32 });
    }
    let (final_path, temp_path) = make_recovery_paths(filename);
    Ok(SavePlan { final_path, temp_path, content: pretty })
}

/// Plans the save of one recovery record: validates the key, renders the
/// document, enforces the size cap, and lays out the atomic write. A valid
/// key with a document whose compact rendering fits the cap always yields
/// a plan; the two rejections are the only failures, each if and only if.
pub fn save_recovery_plan(filename: &str, data: &serde_json::Value) -> (r: Result<
    SavePlan,
    RecoveryError,
>)
    ensures
        r is Ok <==> is_valid_filename(filename@) && vstd::utf8::encode_utf8(
            compact_json_text(*data),
        ).len() as usize <= MAX_RECOVERY_DATA_BYTES,
        (r matches Err(e) && e is ValidationError) <==> !is_valid_filename(filename@),
        (r matches Err(e) && e is DataTooLarge) <==> is_valid_filename(filename@)
            && vstd::utf8::encode_utf8(compact_json_text(*data)).len() as usize
            > MAX_RECOVERY_DATA_BYTES,
        r matches Err(e) ==> (e is DataTooLarge ==> e == (RecoveryError::DataTooLarge {
            max_bytes: MAX_RECOVERY_DATA_BYTES as u32,
        })),
        r matches Ok(plan) ==> {
            &&& plan.final_path@ == recovery_final_path(filename@)
            &&& plan.temp_path@ == recovery_temp_path(filename@)
            &&& plan.content@ == pretty_json_text(*data)
        },
{
    // The size cap is measured on the compact rendering, the policy's
    // yardstick; the pretty rendering is what goes to disk.
    let compact = to_compact_json(data);
    let pretty = to_pretty_json(data);
    plan_recovery_write(filename, &compact, pretty)
}

/// Resolves the path a recovery record would be read from, rejecting
/// invalid keys exactly as a save does.
pub fn recovery_read_path(filename: &str) -> (r: Result<String, RecoveryError>)
    ensures
        r is Ok <==> is_valid_filename(filename@),
        r matches Ok(p) ==> p@ == recovery_final_path(filename@),
        r matches Err(e) ==> e is ValidationError,
{
    match validate_filename(filename) {
        Ok(()) => {
            let (final_path, _temp_path) = make_recovery_paths(filename);
            Ok(final_path)
        },
        Err(message) => Err(RecoveryError::ValidationError { message }),
    }
}

/// Interprets what came back from reading a recovery record: absence is
/// reported as `FileNotFound` (the caller branches on it), a platform
/// failure as `IoError`, and content is parsed as a JSON document.
pub fn interpret_recovery_read(outcome: ReadOutcome) -> (r: Result<
    serde_json::Value,
    RecoveryError,
>)
    ensures
        outcome is Missing ==> (r matches Err(e) && e is FileNotFound),
        outcome matches ReadOutcome::Unreadable { message } ==> (r matches Err(e) && e
            == (RecoveryError::IoError { message })),
        outcome matches ReadOutcome::Content { text } ==> (match parsed_json(text@) {
            Some(v) => r matches Ok(w) && w == v,
            None => r matches Err(e) && e is ParseError,
        }),
{
    match outcome {
        ReadOutcome::Missing => Err(RecoveryError::FileNotFound),
        ReadOutcome::Unreadable { message } => Err(RecoveryError::IoError { message }),
        ReadOutcome::Content { text } => {
            match parse_json(text.as_str()) {
                Ok(v) => Ok(v),
                Err(e) => Err(RecoveryError::ParseError { message: json_error_message(&e) }),
            }
        },
    }
}

/// One recovery file as the application enumerated it: its path, whether
/// its extension is `json`, and its modification time in seconds since the
/// epoch.
pub struct RecoveryFileStat {
    /// The file's path, handed back to the application for removal.
    pub path: String,
    /// Whether the file carries the record extension; others are skipped.
    pub is_json: bool,
    /// Modification time, in seconds since the epoch.
    pub modified_secs: u64,
}

/// Age strictly beyond the retention window, measured at `now`.
pub open spec fn is_expired(now_secs: u64, modified_secs: u64) -> bool {
    modified_secs + SWEEP_MAX_AGE_SECONDS < now_secs
}

/// Whether the sweep retires this file: only record files, and only those
/// whose age strictly exceeds the retention window.
pub open spec fn stat_expired(now_secs: u64, stat: RecoveryFileStat) -> bool {
    stat.is_json && is_expired(now_secs, stat.modified_secs)
}

/// The sweep's per-file decision.
pub fn entry_expired(now_secs: u64, stat: &RecoveryFileStat) -> (r: bool)
    ensures
        r == stat_expired(now_secs, *stat),
{
    stat.is_json && now_secs >= SWEEP_MAX_AGE_SECONDS && stat.modified_secs < now_secs
        - SWEEP_MAX_AGE_SECONDS
}

/// Selects, in order, the indices of the files the sweep is to remove:
/// exactly those record files whose age strictly exceeds the retention
/// window.
pub fn select_expired(now_secs: u64, files: &Vec<RecoveryFileStat>) -> (picks: Vec<usize>)
    ensures
        forall|j: int|
            0 <= j < picks@.len() ==> (#[trigger] picks@[j]) < files@.len() && stat_expired(
                now_secs,
                files@[picks@[j] as int],
            ),
        forall|i: int|
            0 <= i < files@.len() && stat_expired(now_secs, #[trigger] files@[i])
                ==> picks@.contains(i as usize),
        forall|j1: int, j2: int| 0 <= j1 < j2 < picks@.len() ==> picks@[j1] < picks@[j2],
{
    let mut picks: Vec<usize> = Vec::new();
    let n = files.len();
    let mut i: usize = 0;
    while i < n
        invariant
            n == files@.len(),
            i <= n,
            forall|j: int|
                0 <= j < picks@.len() ==> (#[trigger] picks@[j]) < i && stat_expired(
                    now_secs,
                    files@[picks@[j] as int],
                ),
            forall|k: int|
                0 <= k < i && stat_expired(now_secs, #[trigger] files@[k]) ==> picks@.contains(
                    k as usize,
                ),
            forall|j1: int, j2: int| 0 <= j1 < j2 < picks@.len() ==> picks@[j1] < picks@[j2],
        decreases n - i,
    {
        if entry_expired(now_secs, &files[i]) {
            let ghost old_picks = picks@;
            picks.push(i);
            proof {
                assert forall|k: int|
                    0 <= k < i + 1 && stat_expired(now_secs, #[trigger] files@[k]) implies picks@
                    .contains(k as usize) by {
                    if k < i {
                        let w = choose|w: int| 0 <= w < old_picks.len() && old_picks[w] == k;
                        assert(picks@[w] == k as usize);
                    } else {
                        assert(picks@[picks@.len() - 1] == i);
                    }
                }
            }
        }
        i += 1;
    }
    picks
}

/// The sweep's partition law: a file is removed exactly when it is a
/// record file whose age strictly exceeds the retention window; every file
/// that remains is younger or not a record file.
pub proof fn lemma_sweep_partition(
    now_secs: u64,
    files: Seq<RecoveryFileStat>,
    picks: Seq<usize>,
)
    requires
        files.len() <= usize::MAX,
        forall|j: int|
            0 <= j < picks.len() ==> (#[trigger] picks[j]) < files.len() && stat_expired(
                now_secs,
                files[picks[j] as int],
            ),
        forall|i: int|
            0 <= i < files.len() && stat_expired(now_secs, #[trigger] files[i]) ==> picks.contains(
                i as usize,
            ),
    ensures
        forall|i: int|
            0 <= i < files.len() ==> (picks.contains(i as usize) <==> stat_expired(
                now_secs,
                #[trigger] files[i],
            )),
{
    assert forall|i: int|
        0 <= i < files.len() && picks.contains(i as usize) implies stat_expired(
        now_secs,
        files[i],
    ) by {
        let w = choose|w: int| 0 <= w < picks.len() && picks[w] == i as usize;
        assert(picks[w] as int == i);
        assert(stat_expired(now_secs, files[picks[w] as int]));
    }
}

} // verus!
