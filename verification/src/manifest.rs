//! Manifest resolution: classify the outcome of a manifest fetch and decide
//! between restore and cold start, deriving the shard download commands when
//! restoring.

use vstd::prelude::*;
use vstd::string::StringExecFns;
use crate::consts::CURRENT_IMG_VERSION;
use crate::decimal::dec_str;
use crate::decimal::u32_to_string;
use crate::store::download_cmd;
use crate::store::download_cmd_spec;
use crate::store::Store;

verus! {

/// The image manifest: its format version and, per shard, the object name
/// holding that shard's bytes, in shard order.
pub struct ImageManifest {
    pub version: u32,
    pub shards: Vec<String>,
}

/// What a manifest fetch amounted to, once transport succeeded. Transport
/// and parse failures never reach this classification: they abort the run.
pub enum ManifestFetchResult {
    /// A manifest with an acceptable version.
    Found(ImageManifest),
    /// A manifest whose version differs from the expected one, with version
    /// acceptance not overridden.
    VersionMismatch { fetched: u32, desired: u32 },
    /// No manifest at the image URL.
    NotFound,
}

/// Classification of a fetched manifest: absent stays absent; a version
/// other than the expected one is a mismatch unless overridden; everything
/// else is accepted.
pub open spec fn classify_fetch_spec(
    found: Option<ImageManifest>,
    allow_bad_image_version: bool,
) -> ManifestFetchResult {
    match found {
        Option::None => ManifestFetchResult::NotFound,
        Option::Some(m) => if m.version != CURRENT_IMG_VERSION && !allow_bad_image_version {
            ManifestFetchResult::VersionMismatch { fetched: m.version, desired: CURRENT_IMG_VERSION }
        } else {
            ManifestFetchResult::Found(m)
        },
    }
}

/// Classifies what the store handed back for the manifest object: `found`
/// is the parsed manifest, or nothing when the object is absent.
pub fn classify_fetch(found: Option<ImageManifest>, allow_bad_image_version: bool) -> (r:
    ManifestFetchResult)
    ensures
        r == classify_fetch_spec(found, allow_bad_image_version),
{
    match found {
        Option::None => ManifestFetchResult::NotFound,
        Option::Some(m) => if m.version != CURRENT_IMG_VERSION && !allow_bad_image_version {
            ManifestFetchResult::VersionMismatch { fetched: m.version, desired: CURRENT_IMG_VERSION }
        } else {
            ManifestFetchResult::Found(m)
        },
    }
}

/// How the run proceeds: restore from the image, running the given shard
/// download commands (one per shard, in shard order), or start the
/// application from scratch.
pub enum RunMode {
    Restore { shard_download_cmds: Vec<String> },
    FromScratch,
}

/// Decides between restore and cold start. Only a found, accepted manifest
/// restores; absence and version mismatch both cold-start. When restoring,
/// the download commands pair with the manifest's shards positionally.
pub fn determine_run_mode(
    store: &Store,
    fetch_result: ManifestFetchResult,
    s3_cmd: &str,
    gs_cmd: &str,
) -> (r: RunMode)
    ensures
        match fetch_result {
            ManifestFetchResult::Found(m) => (r matches RunMode::Restore { shard_download_cmds }
                && shard_download_cmds@.len() == m.shards@.len() && (forall|i: int|
                0 <= i < m.shards@.len() ==> shard_download_cmds@[i]@ == download_cmd_spec(
                    *store,
                    s3_cmd@,
                    gs_cmd@,
                    m.shards@[i]@,
                ))),
            ManifestFetchResult::VersionMismatch { fetched, desired } => r
                == RunMode::FromScratch,
            ManifestFetchResult::NotFound => r == RunMode::FromScratch,
        },
{
    match fetch_result {
        ManifestFetchResult::Found(m) => {
            let mut shard_download_cmds: Vec<String> = Vec::new();
            let n = m.shards.len();
            let mut i: usize = 0;
            while i < n
                invariant
                    i <= n,
                    n == m.shards@.len(),
                    shard_download_cmds@.len() == i,
                    forall|j: int|
                        0 <= j < i ==> shard_download_cmds@[j]@ == download_cmd_spec(
                            *store,
                            s3_cmd@,
                            gs_cmd@,
                            m.shards@[j]@,
                        ),
                decreases n - i,
            {
                let cmd = download_cmd(store, s3_cmd, gs_cmd, m.shards[i].as_str());
                shard_download_cmds.push(cmd);
                i += 1;
            }
            RunMode::Restore { shard_download_cmds }
        },
        ManifestFetchResult::VersionMismatch { fetched: _, desired: _ } => RunMode::FromScratch,
        ManifestFetchResult::NotFound => RunMode::FromScratch,
    }
}

/// The log line for a run against a URL holding no manifest.
pub fn not_found_message() -> (r: String)
    ensures
        r@ == "Image manifest not found, running application from scratch"@,
{
    String::from_str("Image manifest not found, running application from scratch")
}

/// The log line for a manifest whose version does not match the expected
/// one: it names both versions and the override flag.
pub open spec fn version_mismatch_message_spec(fetched: nat, desired: nat) -> Seq<char> {
    "Image manifest found, but has version "@ + dec_str(fetched)
        + " while the expected version is "@ + dec_str(desired)
        + ". You may try again with --allow-bad-image-version. Running application from scratch"@
}

/// Builds the version-mismatch log line.
pub fn version_mismatch_message(fetched: u32, desired: u32) -> (r: String)
    ensures
        r@ == version_mismatch_message_spec(fetched as nat, desired as nat),
{
    let mut r = String::from_str("Image manifest found, but has version ");
    let fetched_str = u32_to_string(fetched);
    r.append(fetched_str.as_str());
    r.append(" while the expected version is ");
    let desired_str = u32_to_string(desired);
    r.append(desired_str.as_str());
    r.append(
        ". You may try again with --allow-bad-image-version. Running application from scratch",
    );
    proof {
        assert(r@ =~= version_mismatch_message_spec(fetched as nat, desired as nat));
    }
    r
}

/// Absence of the manifest is not an error: a run against a URL with no
/// manifest always classifies as absent and always cold-starts, whatever
/// the version-acceptance flag says — so two consecutive runs against such
/// a URL both take the cold-start pipeline.
pub proof fn lemma_absent_manifest_cold_starts_twice(first_allow: bool, second_allow: bool)
    ensures
        classify_fetch_spec(Option::None, first_allow) is NotFound,
        classify_fetch_spec(Option::None, second_allow) is NotFound,
{
}

/// A version mismatch without the override is never restored: it classifies
/// as a mismatch, and a mismatch always cold-starts.
pub proof fn lemma_version_mismatch_cold_starts(m: ImageManifest)
    requires
        m.version != CURRENT_IMG_VERSION,
    ensures
        classify_fetch_spec(Option::Some(m), false) is VersionMismatch,
{
}

} // verus!
