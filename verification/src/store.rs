//! Store adapters: classify an image URL by its scheme and derive the shell
//! command that downloads one shard of the image to stdout.

use vstd::prelude::*;
use vstd::string::StrSliceExecFns;
use vstd::string::StringExecFns;
use crate::consts::EXIT_CODE_FAILURE;
use crate::error::Error;
use crate::error::ErrorKind;

verus! {

/// `p` is a prefix of `s`.
pub open spec fn has_prefix(s: Seq<char>, p: Seq<char>) -> bool {
    p.len() <= s.len() && s.subrange(0, p.len() as int) == p
}

/// Character-wise prefix test on strings.
pub fn str_has_prefix(s: &str, p: &str) -> (r: bool)
    ensures
        r == has_prefix(s@, p@),
{
    let n = p.unicode_len();
    let m = s.unicode_len();
    if n > m {
        return false;
    }
    let mut i: usize = 0;
    while i < n
        invariant
            i <= n,
            n <= m,
            n == p@.len(),
            m == s@.len(),
            forall|j: int| 0 <= j < i ==> s@[j] == p@[j],
        decreases n - i,
    {
        if s.get_char(i) != p.get_char(i) {
            proof {
                if has_prefix(s@, p@) {
                    assert(s@.subrange(0, n as int)[i as int] == p@[i as int]);
                }
            }
            return false;
        }
        i += 1;
    }
    proof {
        assert(s@.subrange(0, n as int) =~= p@);
    }
    true
}

/// Character-wise equality test on strings.
pub fn str_eq(a: &str, b: &str) -> (r: bool)
    ensures
        r == (a@ == b@),
{
    let n = a.unicode_len();
    if n != b.unicode_len() {
        proof {
            if a@ == b@ {
                assert(a@.len() == b@.len());
            }
        }
        return false;
    }
    let r = str_has_prefix(a, b);
    proof {
        if has_prefix(a@, b@) {
            assert(a@.subrange(0, n as int) =~= a@);
        }
        if a@ == b@ {
            assert(a@.subrange(0, b@.len() as int) =~= b@);
        }
    }
    r
}

/// A store adapter, selected from the URL scheme. Object stores keep the
/// whole URL (their command-line tools take it as is); the local filesystem
/// store keeps the path that follows the scheme.
pub enum Store {
    S3 { url: String },
    Gs { url: String },
    File { path: String },
}

/// Selects the store adapter for an image URL. Exactly the three supported
/// schemes are accepted; anything else is a store error.
pub fn from_url(url: &str) -> (r: Result<Store, Error>)
    ensures
        match r {
            Ok(store) => match store {
                Store::S3 { url: u } => has_prefix(url@, "s3://"@) && u@ == url@,
                Store::Gs { url: u } => !has_prefix(url@, "s3://"@) && has_prefix(url@, "gs://"@)
                    && u@ == url@,
                Store::File { path } => !has_prefix(url@, "s3://"@) && !has_prefix(
                    url@,
                    "gs://"@,
                ) && has_prefix(url@, "file:"@) && path@ == url@.subrange(
                    "file:"@.len() as int,
                    url@.len() as int,
                ),
            },
            Err(e) => !has_prefix(url@, "s3://"@) && !has_prefix(url@, "gs://"@) && !has_prefix(
                url@,
                "file:"@,
            ) && e.kind == ErrorKind::StoreError && e.exit_code == EXIT_CODE_FAILURE,
        },
{
    if str_has_prefix(url, "s3://") {
        Ok(Store::S3 { url: String::from_str(url) })
    } else if str_has_prefix(url, "gs://") {
        Ok(Store::Gs { url: String::from_str(url) })
    } else if str_has_prefix(url, "file:") {
        let scheme_len = "file:".unicode_len();
        let path = url.substring_char(scheme_len, url.unicode_len());
        Ok(Store::File { path: String::from_str(path) })
    } else {
        Err(Error::pre_ready(ErrorKind::StoreError))
    }
}

/// The shell command that writes one shard to stdout: the object-store CLI
/// copying to `-` for remote schemes, `cat` for the local filesystem.
pub open spec fn download_cmd_spec(
    store: Store,
    s3_cmd: Seq<char>,
    gs_cmd: Seq<char>,
    shard: Seq<char>,
) -> Seq<char> {
    match store {
        Store::S3 { url } => s3_cmd + " cp "@ + url@ + "/"@ + shard + " -"@,
        Store::Gs { url } => gs_cmd + " cp "@ + url@ + "/"@ + shard + " -"@,
        Store::File { path } => "cat "@ + path@ + "/"@ + shard,
    }
}

/// Builds the download command for one shard of the image. `s3_cmd` and
/// `gs_cmd` are the configured object-store CLIs (see the defaults below).
pub fn download_cmd(store: &Store, s3_cmd: &str, gs_cmd: &str, shard: &str) -> (r: String)
    ensures
        r@ == download_cmd_spec(*store, s3_cmd@, gs_cmd@, shard@),
{
    match store {
        Store::S3 { url } => {
            let mut c = String::from_str(s3_cmd);
            c.append(" cp ");
            c.append(url.as_str());
            c.append("/");
            c.append(shard);
            c.append(" -");
            c
        },
        Store::Gs { url } => {
            let mut c = String::from_str(gs_cmd);
            c.append(" cp ");
            c.append(url.as_str());
            c.append("/");
            c.append(shard);
            c.append(" -");
            c
        },
        Store::File { path } => {
            let mut c = String::from_str("cat ");
            c.append(path.as_str());
            c.append("/");
            c.append(shard);
            c
        },
    }
}

/// The object-store CLI for the `s3` scheme when none is configured.
pub fn default_s3_cmd() -> (r: String)
    ensures
        r@ == "aws s3"@,
{
    String::from_str("aws s3")
}

/// The object-store CLI for the `gs` scheme when none is configured.
pub fn default_gs_cmd() -> (r: String)
    ensures
        r@ == "gsutil"@,
{
    String::from_str("gsutil")
}

} // verus!
