//! Where the SQLite files live: which copy of a database to use, and when a legacy
//! copy is migrated to the canonical location.
//!
//! The file system is read by the caller; these functions decide on what it found.

use vstd::prelude::*;

use crate::text::{chars_of, string_of};

verus! {

/// The first level, counting the start directory as 0 and going up one parent per
/// level, at most `max_up` levels up, whose candidate file exists.
pub open spec fn first_present_level(present: Seq<bool>, max_up: int, r: Option<usize>) -> bool {
    match r {
        Some(i) => i <= max_up && i < present.len() && present[i as int] && forall|j: int|
            0 <= j < i ==> !present[j],
        None => forall|j: int| 0 <= j < present.len() && j <= max_up ==> !present[j],
    }
}

/// Walk the start directory and up to `max_up` parents: `present[i]` tells whether
/// the file exists `i` levels up (the list ends where there is no parent left).
/// The answer is the first level where it does.
pub fn find_in_ancestors(present: &[bool], max_up: usize) -> (r: Option<usize>)
    ensures
        first_present_level(present@, max_up as int, r),
{
    let mut i: usize = 0;
    while i < present.len() && i <= max_up
        invariant
            i <= present@.len(),
            i <= max_up + 1,
            forall|j: int| 0 <= j < i ==> !present@[j],
        decreases present.len() - i,
    {
        if present[i] {
            return Some(i);
        }
        i += 1;
    }
    None
}

/// Every on-disk copy of a database: the canonical file when it exists, then the
/// copy found elsewhere unless it is that same file.
pub open spec fn candidate_list(
    canonical: Seq<char>,
    canonical_is_file: bool,
    found: Option<Seq<char>>,
    found_is_canonical: bool,
) -> Seq<Seq<char>> {
    let first = if canonical_is_file {
        seq![canonical]
    } else {
        Seq::empty()
    };
    match found {
        Some(f) => if canonical_is_file && found_is_canonical {
            first
        } else {
            first.push(f)
        },
        None => first,
    }
}

/// Every on-disk copy of a database we know about (canonical + legacy locations).
///
/// `found_is_canonical` tells whether the copy found by searching is the canonical
/// path itself.
pub fn data_file_candidates(
    canonical: String,
    canonical_is_file: bool,
    found: Option<String>,
    found_is_canonical: bool,
) -> (r: Vec<String>)
    ensures
        r@.map_values(|s: String| s@) == candidate_list(
            canonical@,
            canonical_is_file,
            match found {
                Some(f) => Some(f@),
                None => None,
            },
            found_is_canonical,
        ),
{
    let mut out: Vec<String> = Vec::new();
    let ghost cv = canonical@;
    if canonical_is_file {
        out.push(canonical);
    }
    assert(out@.map_values(|s: String| s@) =~= (if canonical_is_file {
        seq![cv]
    } else {
        Seq::<Seq<char>>::empty()
    }));
    match found {
        Some(f) => {
            if !(canonical_is_file && found_is_canonical) {
                let ghost before = out@;
                out.push(f);
                assert(out@.map_values(|s: String| s@) =~= before.map_values(|s: String| s@).push(
                    out@.last()@,
                ));
            }
        },
        None => {},
    }
    out
}

/// One copy of a database file with what ranks it: modification time (nanoseconds
/// from the Unix epoch, negative before it) and size in bytes.
pub struct FileCopy {
    pub path: String,
    pub modified_nanos: i128,
    pub size: u64,
}

/// `a` ranks at most `b`: older first, then smaller.
pub open spec fn rank_le(a: FileCopy, b: FileCopy) -> bool {
    a.modified_nanos < b.modified_nanos || (a.modified_nanos == b.modified_nanos && a.size
        <= b.size)
}

/// `k` is the last copy of highest rank (newest, then largest).
pub open spec fn is_best_copy(copies: Seq<FileCopy>, k: int) -> bool {
    &&& 0 <= k < copies.len()
    &&& forall|j: int| 0 <= j < copies.len() ==> rank_le(#[trigger] copies[j], copies[k])
    &&& forall|j: int| k < j < copies.len() ==> !rank_le(copies[k], #[trigger] copies[j])
}

/// Prefer the newest, then largest, on-disk copy when several locations exist; among
/// copies that rank the same the last one wins.
pub fn best_existing_data_file(copies: Vec<FileCopy>) -> (r: Option<String>)
    ensures
        copies@.len() == 0 ==> r is None,
        copies@.len() > 0 ==> exists|k: int|
            is_best_copy(copies@, k) && r == Some(copies@[k].path),
{
    if copies.len() == 0 {
        return None;
    }
    let mut best: usize = 0;
    let mut i: usize = 1;
    while i < copies.len()
        invariant
            1 <= i <= copies@.len(),
            best < i,
            forall|j: int| 0 <= j < i ==> rank_le(#[trigger] copies@[j], copies@[best as int]),
            forall|j: int| best < j < i ==> !rank_le(copies@[best as int], #[trigger] copies@[j]),
        decreases copies.len() - i,
    {
        let b = &copies[best];
        let c = &copies[i];
        if b.modified_nanos < c.modified_nanos || (b.modified_nanos == c.modified_nanos && b.size
            <= c.size) {
            best = i;
        }
        i += 1;
    }
    let mut copies = copies;
    let ghost all = copies@;
    let chosen = copies.swap_remove(best);
    assert(is_best_copy(all, best as int));
    Some(chosen.path)
}

/// What to do about one database's path setting.
pub enum PinPlan {
    /// The path is already set in the environment: leave everything alone.
    Leave,
    /// Set the path to the canonical file, first copying the legacy copy there when
    /// one is named.
    Pin { migrate_from: Option<String> },
}

/// The environment already holds a non-empty setting.
pub open spec fn setting_present(env_value: Option<&str>) -> bool {
    match env_value {
        Some(v) => v@.len() > 0,
        None => false,
    }
}

/// Pin a database path: keep a non-empty setting already in the environment;
/// otherwise migrate a legacy copy only when the canonical file does not exist yet,
/// and point the setting at the canonical file. An existing canonical database is
/// never overwritten (it may have been restored from a backup).
pub fn pin_one(env_value: Option<&str>, canonical_is_file: bool, legacy: Option<String>) -> (r:
    PinPlan)
    ensures
        r == (if setting_present(env_value) {
            PinPlan::Leave
        } else if canonical_is_file {
            PinPlan::Pin { migrate_from: None }
        } else {
            PinPlan::Pin { migrate_from: legacy }
        }),
{
    match env_value {
        Some(v) => {
            if chars_of(v).len() > 0 {
                return PinPlan::Leave;
            }
        },
        None => {},
    }
    if canonical_is_file {
        PinPlan::Pin { migrate_from: None }
    } else {
        PinPlan::Pin { migrate_from: legacy }
    }
}

/// The database path: a non-empty setting in the environment wins, then the best
/// existing copy, then the canonical path where a new database is created.
pub fn resolve_data_file_path(
    env_value: Option<&str>,
    best_existing: Option<String>,
    canonical: String,
) -> (r: String)
    ensures
        r@ == (if setting_present(env_value) {
            env_value->0@
        } else {
            match best_existing {
                Some(b) => b@,
                None => canonical@,
            }
        }),
{
    match env_value {
        Some(v) => {
            if chars_of(v).len() > 0 {
                return string_of(v);
            }
        },
        None => {},
    }
    match best_existing {
        Some(b) => b,
        None => canonical,
    }
}

/// What was found for one database before pinning it: its setting in the
/// environment, whether the canonical file exists, and a legacy copy found elsewhere.
pub struct DatabaseFound {
    pub env_value: Option<String>,
    pub canonical_is_file: bool,
    pub legacy: Option<String>,
}

/// One database's setting name, file name and what to do about it.
pub struct PinStep {
    pub env_key: String,
    pub file_name: String,
    pub plan: PinPlan,
}

/// The environment already holds a non-empty setting for this database.
pub open spec fn found_setting_present(found: DatabaseFound) -> bool {
    match found.env_value {
        Some(v) => v@.len() > 0,
        None => false,
    }
}

/// The plan `pin_one` makes for what was found.
pub open spec fn plan_for(found: DatabaseFound) -> PinPlan {
    if found_setting_present(found) {
        PinPlan::Leave
    } else if found.canonical_is_file {
        PinPlan::Pin { migrate_from: None }
    } else {
        PinPlan::Pin { migrate_from: found.legacy }
    }
}

/// The step for one database: its names and the plan for what was found.
pub open spec fn step_is(step: PinStep, env_key: Seq<char>, file_name: Seq<char>, found: DatabaseFound) -> bool {
    step.env_key@ == env_key && step.file_name@ == file_name && step.plan == plan_for(found)
}

fn plan_found(found: DatabaseFound) -> (r: PinPlan)
    ensures
        r == plan_for(found),
{
    let DatabaseFound { env_value, canonical_is_file, legacy } = found;
    match env_value {
        Some(v) => pin_one(Some(v.as_str()), canonical_is_file, legacy),
        None => pin_one(None, canonical_is_file, legacy),
    }
}

/// The databases whose paths are pinned, in order: (setting name, file name).
pub fn pinned_databases() -> (r: Vec<(String, String)>)
    ensures
        r@.len() == 3,
        r@[0].0@ == "STOCKER_PORTFOLIO_DB_PATH"@ && r@[0].1@ == "portfolio.db"@,
        r@[1].0@ == "STOCKER_DB_PATH"@ && r@[1].1@ == "stocker.db"@,
        r@[2].0@ == "STOCKER_MF_DB_PATH"@ && r@[2].1@ == "mf.db"@,
{
    let mut r: Vec<(String, String)> = Vec::new();
    r.push((string_of("STOCKER_PORTFOLIO_DB_PATH"), string_of("portfolio.db")));
    r.push((string_of("STOCKER_DB_PATH"), string_of("stocker.db")));
    r.push((string_of("STOCKER_MF_DB_PATH"), string_of("mf.db")));
    r
}

/// Pin the three database paths once per process, so that every front end agrees
/// on where the files live: the portfolio, the main and the mutual-fund database,
/// each pinned as `pin_one` decides from what was found for it.
pub fn pin_database_paths(portfolio: DatabaseFound, stocker: DatabaseFound, mf: DatabaseFound) -> (r: Vec<PinStep>)
    ensures
        r@.len() == 3,
        step_is(r@[0], "STOCKER_PORTFOLIO_DB_PATH"@, "portfolio.db"@, portfolio),
        step_is(r@[1], "STOCKER_DB_PATH"@, "stocker.db"@, stocker),
        step_is(r@[2], "STOCKER_MF_DB_PATH"@, "mf.db"@, mf),
{
    let mut r: Vec<PinStep> = Vec::new();
    r.push(PinStep {
        env_key: string_of("STOCKER_PORTFOLIO_DB_PATH"),
        file_name: string_of("portfolio.db"),
        plan: plan_found(portfolio),
    });
    r.push(PinStep {
        env_key: string_of("STOCKER_DB_PATH"),
        file_name: string_of("stocker.db"),
        plan: plan_found(stocker),
    });
    r.push(PinStep {
        env_key: string_of("STOCKER_MF_DB_PATH"),
        file_name: string_of("mf.db"),
        plan: plan_found(mf),
    });
    r
}

} // verus!
