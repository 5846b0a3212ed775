//! The pure locating decision: which file to read, given what the caller
//! found on disk.
//!
//! The caller (which alone touches the filesystem) probes the target path —
//! the explicit one, or the current working directory when none was given —
//! and hands over what it saw: whether the target exists, whether it is a
//! directory, the canonicalized directory path, and whether the directory
//! holds the default-named manifest. The decision itself is verified.

use vstd::prelude::*;
use vstd::string::StringExecFns;
use crate::config::view_opt;
use crate::error::{ConfigError, ErrorView};

verus! {

/// The file a manifest resolution must read, per the locating rules: an
/// explicit path that is a file is used directly; an explicit directory, or
/// no explicit path at all, means the default filename inside it. A missing
/// explicit path is reported verbatim; a directory without the default file
/// is reported by its canonicalized path.
pub open spec fn spec_locate(
    explicit: Option<Seq<char>>,
    target_exists: bool,
    target_is_dir: bool,
    dir_canonical: Seq<char>,
    has_manifest: bool,
) -> Result<Seq<char>, ErrorView> {
    match explicit {
        None => if has_manifest {
            Ok("wasmcloud.toml"@)
        } else {
            Err(ErrorView::NoManifestInDirectory(dir_canonical))
        },
        Some(p) => if !target_exists {
            Err(ErrorView::PathNotFound(p))
        } else if !target_is_dir {
            Ok(p)
        } else if has_manifest {
            Ok(p + "/wasmcloud.toml"@)
        } else {
            Err(ErrorView::NoManifestInDirectory(dir_canonical))
        },
    }
}

pub open spec fn locate_result_view(r: Result<String, ConfigError>) -> Result<
    Seq<char>,
    ErrorView,
> {
    match r {
        Ok(p) => Ok(p@),
        Err(e) => Err(e@),
    }
}

/// Decides which file to read. `explicit` is the caller-supplied path, if
/// any; `target_exists` and `target_is_dir` describe it (and are ignored
/// when it is absent: the working directory is a directory that exists);
/// `dir_canonical` is the canonicalized path of the directory that would be
/// searched; `has_manifest` says whether `wasmcloud.toml` is inside it.
pub fn locate_manifest(
    explicit: Option<String>,
    target_exists: bool,
    target_is_dir: bool,
    dir_canonical: String,
    has_manifest: bool,
) -> (r: Result<String, ConfigError>)
    ensures
        locate_result_view(r) == spec_locate(
            view_opt(explicit),
            target_exists,
            target_is_dir,
            dir_canonical@,
            has_manifest,
        ),
{
    match explicit {
        None => if has_manifest {
            Ok("wasmcloud.toml".to_owned())
        } else {
            Err(ConfigError::NoManifestInDirectory(dir_canonical))
        },
        Some(p) => if !target_exists {
            Err(ConfigError::PathNotFound(p))
        } else if !target_is_dir {
            Ok(p)
        } else if has_manifest {
            Ok(p.concat("/wasmcloud.toml"))
        } else {
            Err(ConfigError::NoManifestInDirectory(dir_canonical))
        },
    }
}

} // verus!
