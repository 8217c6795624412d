//! Where the application keeps its files: one directory for each storage
//! role, below the base directory that the platform reports for that role.

use crate::error::{Error, ErrorView};
use std::path::PathBuf;
use vstd::prelude::*;

verus! {

/// The path segment under which all of the application's directories live.
pub const APP_NAME: &'static str = "kade-ide";

/// `std::path::PathBuf`, carried through unread: nothing is known of a value
/// but its identity.
#[verifier::external_type_specification]
#[verifier::external_body]
pub struct ExPathBuf(PathBuf);

/// `dirs::config_dir`: the user's configuration directory, as the
/// environment of the process gives it at the time of the call, or `None`.
/// Nothing is claimed of the result.
pub assume_specification[ dirs::config_dir ]() -> (r: Option<PathBuf>)
;

/// `dirs::data_dir`: the user's data directory, as the environment of the
/// process gives it at the time of the call, or `None`. Nothing is claimed of
/// the result.
pub assume_specification[ dirs::data_dir ]() -> (r: Option<PathBuf>)
;

/// `dirs::cache_dir`: the user's cache directory, as the environment of the
/// process gives it at the time of the call, or `None`. Nothing is claimed of
/// the result.
pub assume_specification[ dirs::cache_dir ]() -> (r: Option<PathBuf>)
;

/// `dirs::data_local_dir`: the user's local data directory, as the
/// environment of the process gives it at the time of the call, or `None`.
/// Nothing is claimed of the result.
pub assume_specification[ dirs::data_local_dir ]() -> (r: Option<PathBuf>)
;

/// `PathBuf::clone`: the copy is the same path.
pub assume_specification[ <PathBuf as Clone>::clone ](path: &PathBuf) -> (r: PathBuf)
    ensures
        r == *path,
;

/// The path that `Path::join` makes of `path` and the text `segment`.
pub uninterp spec fn path_joined(path: PathBuf, segment: Seq<char>) -> PathBuf;

/// The path that `Path::parent` gives for `path`: the path without its last
/// component, or `None` where it has none.
pub uninterp spec fn path_parent(path: PathBuf) -> Option<PathBuf>;

/// `Path::join` with a text segment. The result is a function of the path
/// and of the segment alone; what the platform's joining rules make of them
/// is not spelled out here, only named.
#[verifier::external_body]
fn extended(path: &PathBuf, segment: &str) -> (r: PathBuf)
    ensures
        r == path_joined(*path, segment@),
{
    path.join(segment)
}

/// `Path::parent`, as an owned path. The result is a function of the path
/// alone; which component counts as the last is the platform's rule and is
/// not spelled out here, only named.
#[verifier::external_body]
pub(crate) fn parent_of(path: &PathBuf) -> (r: Option<PathBuf>)
    ensures
        r == path_parent(*path),
{
    match path.parent() {
        Some(parent) => Some(parent.to_path_buf()),
        None => None,
    }
}

/// The path that comes of `base` when each of `segments` is joined to it in
/// turn.
pub open spec fn joined_all(base: PathBuf, segments: Seq<Seq<char>>) -> PathBuf
    decreases segments.len(),
{
    if segments.len() == 0 {
        base
    } else {
        path_joined(joined_all(base, segments.drop_last()), segments.last())
    }
}

/// A purpose for which the application keeps a directory of its own.
#[derive(Clone, Copy, Debug, PartialEq, Eq, Structural)]
pub enum StorageRole {
    Config,
    Data,
    Cache,
    LocalData,
}

/// A directory of the application: a base directory reported by the
/// platform, and the segments added below it, outermost first.
#[derive(Debug)]
pub struct ResolvedPath {
    pub base: PathBuf,
    pub segments: Vec<String>,
}

/// What a [`ResolvedPath`] is in contracts.
pub struct ResolvedPathView {
    pub base: PathBuf,
    pub segments: Seq<Seq<char>>,
}

impl ResolvedPathView {
    /// The path in the platform's own form: the base with each segment
    /// joined to it in turn.
    pub open spec fn path(self) -> PathBuf {
        joined_all(self.base, self.segments)
    }
}

impl View for ResolvedPath {
    type V = ResolvedPathView;

    open spec fn view(&self) -> ResolvedPathView {
        ResolvedPathView { base: self.base, segments: self.segments@.map_values(|s: String| s@) }
    }
}

impl Clone for ResolvedPath {
    fn clone(&self) -> (r: ResolvedPath)
        ensures
            r@ == self@,
    {
        let mut segments: Vec<String> = Vec::new();
        let mut i: usize = 0;
        while i < self.segments.len()
            invariant
                i <= self.segments.len(),
                segments@.len() == i,
                forall|k: int| 0 <= k < i ==> segments@[k]@ == self.segments@[k]@,
            decreases self.segments.len() - i,
        {
            segments.push(self.segments[i].clone());
            i += 1;
        }
        let r = ResolvedPath { base: self.base.clone(), segments };
        assert(r@.segments =~= self@.segments);
        r
    }
}

impl ResolvedPath {
    /// The directory `segment` below this one.
    pub fn join(self, segment: &str) -> (r: ResolvedPath)
        ensures
            r@.base == self@.base,
            r@.segments == self@.segments.push(segment@),
    {
        let mut segments = self.segments;
        segments.push(segment.to_owned());
        let r = ResolvedPath { base: self.base, segments };
        assert(r@.segments =~= self@.segments.push(segment@));
        r
    }

    /// The path in the platform's own form: the base with each segment
    /// joined to it in turn.
    pub fn to_path_buf(&self) -> (path: PathBuf)
        ensures
            path == self@.path(),
    {
        let mut path = self.base.clone();
        let mut i: usize = 0;
        while i < self.segments.len()
            invariant
                i <= self.segments.len(),
                path == joined_all(self.base, self@.segments.take(i as int)),
            decreases self.segments.len() - i,
        {
            let ghost before = self@.segments.take(i as int);
            path = extended(&path, self.segments[i].as_str());
            i += 1;
            proof {
                let now = self@.segments.take(i as int);
                assert(now.drop_last() =~= before);
                assert(now.last() == self.segments@[i - 1]@);
            }
        }
        assert(self@.segments.take(i as int) =~= self@.segments);
        path
    }
}

/// The message of the failure reported when the platform names no base
/// directory for `role`.
pub open spec fn unresolved_message(role: StorageRole) -> Seq<char> {
    match role {
        StorageRole::Config => "Failed to get config directory"@,
        StorageRole::Data => "Failed to get data directory"@,
        StorageRole::Cache => "Failed to get cache directory"@,
        StorageRole::LocalData => "Failed to get local data directory"@,
    }
}

/// The directory of `role`, given the base directory that the platform
/// reported (`None`: it reported none): the base with the application's name
/// below it, or a configuration failure.
pub open spec fn resolved(role: StorageRole, base: Option<PathBuf>) -> Result<
    ResolvedPathView,
    ErrorView,
> {
    match base {
        Some(b) => Ok(ResolvedPathView { base: b, segments: seq![APP_NAME@] }),
        None => Err(ErrorView::Config(unresolved_message(role))),
    }
}

/// A resolution's outcome as contracts see it.
pub open spec fn resolution_view(r: Result<ResolvedPath, Error>) -> Result<
    ResolvedPathView,
    ErrorView,
> {
    match r {
        Ok(p) => Ok(p@),
        Err(e) => Err(e@),
    }
}

/// The base directory that the platform reports for `role` at this moment.
/// It depends on the environment of the process, so two calls may differ.
pub fn platform_dir(role: StorageRole) -> Option<PathBuf> {
    match role {
        StorageRole::Config => dirs::config_dir(),
        StorageRole::Data => dirs::data_dir(),
        StorageRole::Cache => dirs::cache_dir(),
        StorageRole::LocalData => dirs::data_local_dir(),
    }
}

/// The directory of `role` below the base directory `base` that the platform
/// reported. No file system is touched.
pub fn resolve_from(role: StorageRole, base: Option<PathBuf>) -> (r: Result<ResolvedPath, Error>)
    ensures
        resolution_view(r) == resolved(role, base),
{
    match base {
        Some(b) => {
            let mut segments: Vec<String> = Vec::new();
            segments.push(APP_NAME.to_owned());
            let p = ResolvedPath { base: b, segments };
            assert(p@.segments =~= seq![APP_NAME@]);
            Ok(p)
        },
        None => {
            let e = match role {
                StorageRole::Config => Error::config("Failed to get config directory"),
                StorageRole::Data => Error::config("Failed to get data directory"),
                StorageRole::Cache => Error::config("Failed to get cache directory"),
                StorageRole::LocalData => Error::config("Failed to get local data directory"),
            };
            Err(e)
        },
    }
}

/// The directory of `role`: the platform is asked for its base directory,
/// and the application's name is put below it. Fails with a configuration
/// failure exactly when the platform reports no base directory.
pub fn resolve(role: StorageRole) -> (r: Result<ResolvedPath, Error>)
    ensures
        exists|base: Option<PathBuf>| resolution_view(r) == resolved(role, base),
{
    let base = platform_dir(role);
    resolve_from(role, base)
}

/// The application's configuration directory.
pub fn get_config_dir() -> (r: Result<ResolvedPath, Error>)
    ensures
        exists|base: Option<PathBuf>| resolution_view(r) == resolved(StorageRole::Config, base),
{
    resolve(StorageRole::Config)
}

/// The application's data directory.
pub fn get_data_dir() -> (r: Result<ResolvedPath, Error>)
    ensures
        exists|base: Option<PathBuf>| resolution_view(r) == resolved(StorageRole::Data, base),
{
    resolve(StorageRole::Data)
}

/// The application's cache directory.
pub fn get_cache_dir() -> (r: Result<ResolvedPath, Error>)
    ensures
        exists|base: Option<PathBuf>| resolution_view(r) == resolved(StorageRole::Cache, base),
{
    resolve(StorageRole::Cache)
}

/// The application's local data directory, below which the logs are kept.
pub fn get_local_data_dir() -> (r: Result<ResolvedPath, Error>)
    ensures
        exists|base: Option<PathBuf>| resolution_view(r) == resolved(StorageRole::LocalData, base),
{
    resolve(StorageRole::LocalData)
}

/// Resolution is a function of the role and of what the platform reports:
/// two resolutions of one role for which the platform reports the same base
/// directory give the same outcome, the same path or the same failure.
pub proof fn lemma_resolution_deterministic(
    role: StorageRole,
    base: Option<PathBuf>,
    first: Result<ResolvedPath, Error>,
    second: Result<ResolvedPath, Error>,
)
    requires
        resolution_view(first) == resolved(role, base),
        resolution_view(second) == resolved(role, base),
    ensures
        resolution_view(first) == resolution_view(second),
{
}

/// Every resolved directory lies directly below the base directory that the
/// platform reported, under the application's name and nothing else.
pub proof fn lemma_resolved_is_namespaced(role: StorageRole, base: PathBuf)
    ensures
        resolved(role, Some(base)) matches Ok(p) && p.base == base && p.segments == seq![
            APP_NAME@,
        ],
        resolved(role, None) is Err,
{
}

/// The path of a resolved directory is the platform's base directory with
/// the application's name joined to it, and the path of a directory one
/// segment below is that path with the segment joined to it.
pub proof fn lemma_resolved_path(role: StorageRole, base: PathBuf, below: Seq<char>)
    ensures
        resolved(role, Some(base)) matches Ok(p) && p.path() == path_joined(base, APP_NAME@) && (
        ResolvedPathView { base: p.base, segments: p.segments.push(below) }).path() == path_joined(
            path_joined(base, APP_NAME@),
            below,
        ),
{
    let one = seq![APP_NAME@];
    assert(one.drop_last() =~= Seq::<Seq<char>>::empty());
    assert(joined_all(base, one.drop_last()) == base);
    assert(one.last() == APP_NAME@);
    assert(joined_all(base, one) == path_joined(base, APP_NAME@));
    let two = one.push(below);
    assert(two.drop_last() =~= one);
    assert(two.last() == below);
    assert(joined_all(base, two) == path_joined(joined_all(base, one), below));
}

} // verus!
