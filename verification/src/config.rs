//! The persisted application configuration: the image URL, the set of
//! preserved paths, and the virtual-clock offset. The supervisor writes it
//! on cold start, merges and re-saves it on restore, and advances its clock
//! on checkpoint.

use vstd::prelude::*;
use crate::error::Error;
use crate::error::ErrorKind;

verus! {

/// The record persisted at the well-known config path. `preserved_paths`
/// models a set: it is kept free of duplicates (see [`AppConfig::wf`]);
/// order carries no meaning.
pub struct AppConfig {
    pub image_url: String,
    pub preserved_paths: Vec<String>,
    pub app_clock: i64,
}

/// The set of path strings a sequence of paths denotes.
pub open spec fn paths_set(paths: Seq<String>) -> Set<Seq<char>> {
    Set::new(|p: Seq<char>| exists|i: int| 0 <= i < paths.len() && #[trigger] paths[i]@ == p)
}

/// No two entries denote the same path.
pub open spec fn paths_unique(paths: Seq<String>) -> bool {
    forall|i: int, j: int| 0 <= i < j < paths.len() ==> paths[i]@ != paths[j]@
}

impl AppConfig {
    /// The preserved paths, as the set they stand for.
    pub open spec fn paths(&self) -> Set<Seq<char>> {
        paths_set(self.preserved_paths@)
    }

    /// Well-formed: the path list carries each path once.
    pub open spec fn wf(&self) -> bool {
        paths_unique(self.preserved_paths@)
    }
}

/// Whether the path list holds `p`.
pub fn contains_path(paths: &Vec<String>, p: &String) -> (r: bool)
    ensures
        r == paths_set(paths@).contains(p@),
{
    let n = paths.len();
    let mut i: usize = 0;
    while i < n
        invariant
            i <= n,
            n == paths@.len(),
            forall|j: int| 0 <= j < i ==> #[trigger] paths@[j]@ != p@,
        decreases n - i,
    {
        if paths[i] == *p {
            return true;
        }
        i += 1;
    }
    false
}

/// Adds a path to a duplicate-free list, keeping it duplicate-free: the
/// denoted set gains exactly `p`.
pub fn insert_path(paths: &mut Vec<String>, p: String)
    requires
        paths_unique(old(paths)@),
    ensures
        paths_unique(final(paths)@),
        paths_set(final(paths)@) == paths_set(old(paths)@).insert(p@),
{
    if !contains_path(paths, &p) {
        let ghost before = paths@;
        paths.push(p);
        proof {
            assert forall|q: Seq<char>|
                paths_set(paths@).contains(q) == paths_set(before).insert(p@).contains(
                    q,
                ) by {
                if paths_set(paths@).contains(q) {
                    let i = choose|i: int| 0 <= i < paths@.len() && #[trigger] paths@[i]@ == q;
                    if i < before.len() {
                        assert(before[i]@ == q);
                    }
                }
                if paths_set(before).contains(q) {
                    let i = choose|i: int| 0 <= i < before.len() && #[trigger] before[i]@ == q;
                    assert(paths@[i]@ == q);
                }
                if q == p@ {
                    assert(paths@[before.len() as int]@ == q);
                }
            }
            assert(paths_set(paths@) =~= paths_set(before).insert(p@));
        }
    } else {
        proof {
            assert(paths_set(paths@) =~= paths_set(paths@).insert(p@));
        }
    }
}

/// Extending a path prefix by one entry adds exactly that entry's path to
/// the denoted set.
proof fn lemma_paths_set_prefix_step(paths: Seq<String>, i: int)
    requires
        0 <= i < paths.len(),
    ensures
        paths_set(paths.subrange(0, i + 1)) == paths_set(paths.subrange(0, i)).insert(paths[i]@),
{
    let shorter = paths.subrange(0, i);
    let longer = paths.subrange(0, i + 1);
    assert forall|q: Seq<char>|
        paths_set(longer).contains(q) == paths_set(shorter).insert(paths[i]@).contains(q) by {
        if paths_set(longer).contains(q) {
            let k = choose|k: int| 0 <= k < longer.len() && #[trigger] longer[k]@ == q;
            if k < i {
                assert(shorter[k]@ == q);
            }
        }
        if paths_set(shorter).contains(q) {
            let k = choose|k: int| 0 <= k < shorter.len() && #[trigger] shorter[k]@ == q;
            assert(longer[k]@ == q);
        }
        if q == paths[i]@ {
            assert(longer[i]@ == q);
        }
    }
    assert(paths_set(longer) =~= paths_set(shorter).insert(paths[i]@));
}

/// The restored configuration: the restore-time URL, the image's clock, and
/// the union of the image's preserved paths with the caller's.
pub open spec fn is_merged(
    r: AppConfig,
    image_cfg: AppConfig,
    image_url: String,
    caller_paths: Seq<String>,
) -> bool {
    &&& r.image_url@ == image_url@
    &&& r.app_clock == image_cfg.app_clock
    &&& r.paths() == image_cfg.paths().union(paths_set(caller_paths))
    &&& r.wf()
}

/// After the filesystem is restored, the configuration read back from the
/// image is given the restore-time URL and the caller's preserved paths are
/// unioned in; the image's clock is kept. This is what gets re-saved for
/// the next checkpoint.
pub fn merge_for_restore(config: AppConfig, image_url: String, preserved_paths: &Vec<String>) -> (r:
    AppConfig)
    requires
        config.wf(),
    ensures
        is_merged(r, config, image_url, preserved_paths@),
{
    let ghost orig = config.preserved_paths@;
    let AppConfig { image_url: _, preserved_paths: mut merged, app_clock } = config;
    let n = preserved_paths.len();
    let mut i: usize = 0;
    proof {
        assert(paths_set(merged@) =~= paths_set(orig).union(
            paths_set(preserved_paths@.subrange(0, 0)),
        ));
    }
    while i < n
        invariant
            i <= n,
            n == preserved_paths@.len(),
            paths_unique(merged@),
            paths_set(merged@) == paths_set(orig).union(
                paths_set(preserved_paths@.subrange(0, i as int)),
            ),
        decreases n - i,
    {
        let p = preserved_paths[i].clone();
        insert_path(&mut merged, p);
        proof {
            lemma_paths_set_prefix_step(preserved_paths@, i as int);
            assert(paths_set(merged@) =~= paths_set(orig).union(
                paths_set(preserved_paths@.subrange(0, i as int + 1)),
            ));
        }
        i += 1;
    }
    proof {
        assert(preserved_paths@.subrange(0, n as int) =~= preserved_paths@);
    }
    AppConfig { image_url, preserved_paths: merged, app_clock }
}

/// The configuration a cold start persists: the given URL, the caller's
/// preserved paths, and a zero clock.
pub open spec fn is_cold_start_config(
    r: AppConfig,
    image_url: String,
    caller_paths: Seq<String>,
) -> bool {
    &&& r.image_url@ == image_url@
    &&& r.app_clock == 0
    &&& r.paths() == paths_set(caller_paths)
    &&& r.wf()
}

/// Builds the initial configuration saved on cold start: the application
/// clock starts at zero.
pub fn cold_start_config(image_url: String, preserved_paths: &Vec<String>) -> (r: AppConfig)
    ensures
        is_cold_start_config(r, image_url, preserved_paths@),
{
    let mut unique: Vec<String> = Vec::new();
    let n = preserved_paths.len();
    let mut i: usize = 0;
    while i < n
        invariant
            i <= n,
            n == preserved_paths@.len(),
            paths_unique(unique@),
            paths_set(unique@) == paths_set(preserved_paths@.subrange(0, i as int)),
        decreases n - i,
    {
        let p = preserved_paths[i].clone();
        insert_path(&mut unique, p);
        proof {
            lemma_paths_set_prefix_step(preserved_paths@, i as int);
        }
        i += 1;
    }
    proof {
        assert(preserved_paths@.subrange(0, n as int) =~= preserved_paths@);
    }
    AppConfig { image_url, preserved_paths: unique, app_clock: 0 }
}

/// What a checkpoint re-saves: the same URL and paths, with the clock
/// advanced by the time the application observed since the last save.
pub open spec fn is_checkpointed(r: AppConfig, c: AppConfig, elapsed_ns: i64) -> bool {
    &&& r.image_url@ == c.image_url@
    &&& r.paths() == c.paths()
    &&& r.app_clock == c.app_clock + elapsed_ns
    &&& (c.wf() ==> r.wf())
}

/// Advances the configuration's clock at checkpoint time by the observed
/// elapsed nanoseconds, which never run backwards.
pub fn checkpoint_config(config: AppConfig, elapsed_ns: i64) -> (r: AppConfig)
    requires
        elapsed_ns >= 0,
        config.app_clock + elapsed_ns <= i64::MAX,
    ensures
        is_checkpointed(r, config, elapsed_ns),
{
    let AppConfig { image_url, preserved_paths, app_clock } = config;
    AppConfig { image_url, preserved_paths, app_clock: app_clock + elapsed_ns }
}

/// The configuration file is missing: it is created during the run command,
/// so a restore that cannot read it fails before the application is ready.
pub fn missing_config_error() -> (e: Error)
    ensures
        e.kind == ErrorKind::ConfigError,
        e.exit_code == crate::consts::EXIT_CODE_FAILURE,
{
    Error::pre_ready(ErrorKind::ConfigError)
}

/// Round trip: a cold start followed by a checkpoint followed by a restore
/// yields a configuration whose URL is the restore-time URL and whose clock
/// never decreased across the cycle.
pub proof fn lemma_run_cycle_round_trip(
    c0: AppConfig,
    c1: AppConfig,
    c2: AppConfig,
    start_url: String,
    start_paths: Seq<String>,
    elapsed_ns: i64,
    restore_url: String,
    caller_paths: Seq<String>,
)
    requires
        is_cold_start_config(c0, start_url, start_paths),
        elapsed_ns >= 0,
        is_checkpointed(c1, c0, elapsed_ns),
        is_merged(c2, c1, restore_url, caller_paths),
    ensures
        c2.image_url@ == restore_url@,
        c0.app_clock <= c1.app_clock,
        c1.app_clock <= c2.app_clock,
        c2.app_clock >= 0,
{
}

} // verus!
