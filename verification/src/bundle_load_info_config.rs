use vstd::prelude::*;
use vstd::string::StringExecFns;
use crate::abs_path::AbsPath;
use crate::fs_view::FsView;
use crate::find_bundle_root::find_bundle_root;
use crate::is_bundle_at_path::spec_is_bundle_at_path;
use crate::bundle_info_config_file::BundleInfoConfigFile;
use crate::errors::BundleError;

verus! {

/// Where the currently launched bundle was found — or why it was not.
pub enum BundleLocation {
    /// The outermost bundle root containing the running executable.
    Found(AbsPath),
    /// The walk completed and no ancestor directory is a bundle.
    NoBundle,
    /// The executable's own path could not be determined.
    Failed(String),
}

/// The two locations describe the same outcome.
pub open spec fn loc_eq(a: BundleLocation, b: BundleLocation) -> bool {
    match (a, b) {
        (BundleLocation::Found(x), BundleLocation::Found(y)) => x@ == y@,
        (BundleLocation::NoBundle, BundleLocation::NoBundle) => true,
        (BundleLocation::Failed(m), BundleLocation::Failed(n)) => m@ == n@,
        _ => false,
    }
}

/// `loc` is a correct fresh resolution for the executable path `exe` in the
/// snapshot `fs`: `Found` carries the outermost bundle ancestor, `NoBundle`
/// means no ancestor qualifies, and `Failed` never arises from a resolvable
/// executable path.
pub open spec fn spec_resolution_of(fs: FsView, exe: Seq<Seq<char>>, loc: BundleLocation) -> bool {
    match loc {
        BundleLocation::Failed(_) => false,
        BundleLocation::NoBundle => exe.len() == 0 || (forall|k: int|
            1 <= k <= exe.drop_last().len()
                ==> !spec_is_bundle_at_path(fs, exe.drop_last().take(k))),
        BundleLocation::Found(b) => {
            let start = exe.drop_last();
            &&& exe.len() > 0
            &&& 1 <= b@.len() <= start.len()
            &&& b@ == start.take(b@.len() as int)
            &&& spec_is_bundle_at_path(fs, b@)
            &&& forall|k: int|
                1 <= k < b@.len() ==> !spec_is_bundle_at_path(fs, start.take(k))
        },
    }
}

/// The process-wide cache of the launched bundle's location: written at most
/// once, then read on every later call whatever the filesystem does.
pub struct PathCache {
    pub resolved: Option<BundleLocation>,
}

impl PathCache {
    /// A cache that has not resolved anything yet.
    pub fn new() -> (r: PathCache)
        ensures
            r.resolved is None,
    {
        PathCache { resolved: None }
    }

    /// Has a resolution already been cached?
    pub fn is_resolved(&self) -> (r: bool)
        ensures
            r == (self.resolved is Some),
    {
        self.resolved.is_some()
    }
}

/// An identical copy of a location.
fn clone_loc(l: &BundleLocation) -> (r: BundleLocation)
    ensures
        loc_eq(r, *l),
{
    match l {
        BundleLocation::Found(p) => BundleLocation::Found(p.clone_path()),
        BundleLocation::NoBundle => BundleLocation::NoBundle,
        BundleLocation::Failed(m) => BundleLocation::Failed(m.clone()),
    }
}

/// The location of the bundle the current program was launched from.
///
/// The first call resolves against the executable path `exe` (or records its
/// failure) using the snapshot `fs`, and caches the outcome; every later
/// call returns the cached outcome unchanged, regardless of `fs` and `exe`.
pub fn get_current_launched_bundle_path(
    cache: &mut PathCache,
    fs: &FsView,
    exe: &Result<AbsPath, String>,
) -> (r: BundleLocation)
    ensures
        old(cache).resolved matches Some(l) ==> (*final(cache) == *old(cache) && loc_eq(r, l)),
        old(cache).resolved is None ==> ({
            &&& final(cache).resolved matches Some(l2) && loc_eq(r, l2)
            &&& match exe {
                Err(m) => (r matches BundleLocation::Failed(m2) && m2@ == m@),
                Ok(p) => spec_resolution_of(*fs, p@, r),
            }
        }),
{
    match &cache.resolved {
        Some(l) => {
            return clone_loc(l);
        },
        None => {},
    }
    let loc = match exe {
        Err(m) => BundleLocation::Failed(m.clone()),
        Ok(p) => match find_bundle_root(fs, p) {
            Some(b) => BundleLocation::Found(b),
            None => BundleLocation::NoBundle,
        },
    };
    let r = clone_loc(&loc);
    cache.resolved = Some(loc);
    r
}

/// What the caller found at `<root>/Content/Info.json` when it tried to read
/// and decode the metadata descriptor.
pub enum InfoFileOutcome {
    /// The file is absent.
    Missing,
    /// The file exists but reading it failed with the given cause.
    ReadFailed(String),
    /// The bytes were read but do not decode as a descriptor.
    ParseFailed(String),
    /// The decoded descriptor.
    Parsed(BundleInfoConfigFile),
}

/// The process-wide metadata cache: loaded at most once per process.
pub struct ConfigCache {
    pub loaded: Option<BundleInfoConfigFile>,
}

impl ConfigCache {
    /// A cache holding nothing yet.
    pub fn new() -> (r: ConfigCache)
        ensures
            r.loaded is None,
    {
        ConfigCache { loaded: None }
    }

    /// Has a descriptor been loaded already?
    pub fn is_loaded(&self) -> (r: bool)
        ensures
            r == (self.loaded is Some),
    {
        self.loaded.is_some()
    }
}

/// The exact contract of a one-shot load attempt: what the cache holds
/// afterwards and which result comes back, for every combination of prior
/// cache state, resolved location and file outcome.
pub open spec fn load_once_post(
    pre: ConfigCache,
    post: ConfigCache,
    loc: BundleLocation,
    file: InfoFileOutcome,
    r: Result<&BundleInfoConfigFile, BundleError>,
) -> bool {
    if pre.loaded is Some {
        post == pre && r matches Err(BundleError::AlreadyLoaded)
    } else {
        match loc {
            BundleLocation::NoBundle => post == pre && (r matches Err(
                BundleError::InvalidFormat(m),
            ) && m@ == "bundle root could not be determined"@),
            BundleLocation::Failed(cause) => post == pre && (r matches Err(
                BundleError::InvalidFormat(m),
            ) && m@ == "failed to resolve bundle root: "@ + cause@),
            BundleLocation::Found(_) => match file {
                InfoFileOutcome::Missing => post == pre && (r matches Err(
                    BundleError::NotFound(m),
                ) && m@ == "Info.json file not found"@),
                InfoFileOutcome::ReadFailed(io) => post == pre && (r matches Err(
                    BundleError::IoError(m),
                ) && m@ == io@),
                InfoFileOutcome::ParseFailed(p) => post == pre && (r matches Err(
                    BundleError::InvalidFormat(m),
                ) && m@ == "failed to parse Info.json: "@ + p@),
                InfoFileOutcome::Parsed(cfg) => post.loaded == Some(cfg) && (r matches Ok(c)
                    && *c == cfg),
            },
        }
    }
}

/// Loads the metadata descriptor into the cache, exactly once per process.
///
/// A second call fails with `AlreadyLoaded`. With an empty cache, the
/// resolved `location` decides: a missing or failed root is an
/// `InvalidFormat` error, and otherwise the `file` outcome for
/// `<root>/Content/Info.json` is stored on success or reported as
/// `NotFound` / `IoError` / `InvalidFormat`.
pub fn bundle_load_info_config<'a>(
    cache: &'a mut ConfigCache,
    location: &BundleLocation,
    file: InfoFileOutcome,
) -> (r: Result<&'a BundleInfoConfigFile, BundleError>)
    ensures
        load_once_post(*old(cache), *final(cache), *location, file, r),
{
    if cache.is_loaded() {
        return Err(BundleError::AlreadyLoaded);
    }
    match location {
        BundleLocation::NoBundle => {
            return Err(
                BundleError::InvalidFormat(
                    String::from_str("bundle root could not be determined"),
                ),
            );
        },
        BundleLocation::Failed(cause) => {
            let mut m = String::from_str("failed to resolve bundle root: ");
            m.append(cause.as_str());
            return Err(BundleError::InvalidFormat(m));
        },
        BundleLocation::Found(_) => {},
    }
    match file {
        InfoFileOutcome::Missing => Err(
            BundleError::NotFound(String::from_str("Info.json file not found")),
        ),
        InfoFileOutcome::ReadFailed(io) => Err(BundleError::IoError(io)),
        InfoFileOutcome::ParseFailed(p) => {
            let mut m = String::from_str("failed to parse Info.json: ");
            m.append(p.as_str());
            Err(BundleError::InvalidFormat(m))
        },
        InfoFileOutcome::Parsed(cfg) => {
            cache.loaded = Some(cfg);
            match &cache.loaded {
                Some(c) => Ok(c),
                None => unreached(),
            }
        },
    }
}

/// The exact contract of a cache read: the loaded descriptor, or `NotLoaded`.
pub open spec fn get_loaded_post(
    cache: ConfigCache,
    r: Result<&BundleInfoConfigFile, BundleError>,
) -> bool {
    match cache.loaded {
        Some(c) => r matches Ok(x) && *x == c,
        None => r matches Err(BundleError::NotLoaded),
    }
}

/// Returns the already-loaded metadata descriptor, and never triggers a
/// load: before any successful load it fails with `NotLoaded`.
pub fn get_loaded_bundle_info_config(cache: &ConfigCache) -> (r: Result<
    &BundleInfoConfigFile,
    BundleError,
>)
    ensures
        get_loaded_post(*cache, r),
{
    match &cache.loaded {
        Some(c) => Ok(c),
        None => Err(BundleError::NotLoaded),
    }
}

/// Law: loading is one-shot. After a first load succeeds, the cache holds
/// the parsed descriptor; a second load attempt is refused with
/// `AlreadyLoaded` and leaves the cache unchanged; and a read afterwards
/// returns exactly the value the first load stored and returned.
pub proof fn lemma_load_is_one_shot(
    c0: ConfigCache,
    c1: ConfigCache,
    c2: ConfigCache,
    loc1: BundleLocation,
    file1: InfoFileOutcome,
    loc2: BundleLocation,
    file2: InfoFileOutcome,
    r1: Result<&BundleInfoConfigFile, BundleError>,
    r2: Result<&BundleInfoConfigFile, BundleError>,
    g: Result<&BundleInfoConfigFile, BundleError>,
)
    requires
        load_once_post(c0, c1, loc1, file1, r1),
        r1 is Ok,
        load_once_post(c1, c2, loc2, file2, r2),
        get_loaded_post(c2, g),
    ensures
        r2 matches Err(BundleError::AlreadyLoaded),
        c2 == c1,
        (file1 matches InfoFileOutcome::Parsed(cfg) && c1.loaded == Some(cfg)),
        (g matches Ok(x) && r1 matches Ok(y) && *x == *y),
{
}

} // verus!
