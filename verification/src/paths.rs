//! Where the backend binary and its optional environment file live.
//!
//! A location is described, not spelled: a directory that the host looked up,
//! an optional step to its parent, and the names appended below it. The host
//! turns a description into a path of its own platform. Resolution is a
//! function of the run mode, the platform and the looked-up directory, and
//! nothing else.
use vstd::prelude::*;
use vstd::string::*;

verus! {

/// How the application is being run.
#[derive(Clone, Copy, Debug, PartialEq, Eq, Structural)]
pub enum Mode {
    /// A developer's local run: the backend lives beside the working directory.
    Development,
    /// An installed application: the backend ships in the resource directory.
    Packaged,
}

/// The family of the platform the application runs on.
#[derive(Clone, Copy, Debug, PartialEq, Eq, Structural)]
pub enum Platform {
    Windows,
    Other,
}

/// Which directory the host has to look up before paths can be resolved.
#[derive(Clone, Copy, Debug, PartialEq, Eq, Structural)]
pub enum DirectorySource {
    WorkingDirectory,
    ResourceDirectory,
}

/// A described filesystem location.
#[derive(Clone, Debug, PartialEq, Eq)]
pub struct FilePath {
    /// The directory the host looked up.
    pub base: String,
    /// Whether the location starts at the parent of `base` (at `base` itself
    /// when it has no parent).
    pub from_parent: bool,
    /// The names appended below the starting directory, outermost first.
    pub segments: Vec<String>,
}

/// The mathematical content of a [`FilePath`].
pub struct FilePathView {
    pub base: Seq<char>,
    pub from_parent: bool,
    pub segments: Seq<Seq<char>>,
}

impl View for FilePath {
    type V = FilePathView;

    open spec fn view(&self) -> FilePathView {
        FilePathView {
            base: self.base@,
            from_parent: self.from_parent,
            segments: self.segments@.map_values(|segment: String| segment@),
        }
    }
}

impl FilePath {
    /// Writes the location out for a message.
    pub fn rendered(&self) -> (text: String)
        ensures
            text@ == rendered_path(self@),
    {
        let mut text = self.base.clone();
        if self.from_parent {
            text.append("/..");
        }
        let ghost start = text@;
        let mut done: usize = 0;
        while done < self.segments.len()
            invariant
                done <= self.segments.len(),
                text@ == below(start, self@.segments.subrange(0, done as int)),
            decreases self.segments.len() - done,
        {
            text.append("/");
            text.append(self.segments[done].as_str());
            proof {
                let grown = self@.segments.subrange(0, done + 1);
                assert(grown.drop_last() =~= self@.segments.subrange(0, done as int));
                assert(grown.last() == self.segments@[done as int]@);
            }
            done += 1;
        }
        assert(self@.segments.subrange(0, done as int) =~= self@.segments);
        text
    }
}

/// Both locations of one resolution, with the mode they were resolved for.
#[derive(Clone, Debug, PartialEq, Eq)]
pub struct ResolvedPaths {
    pub binary_path: FilePath,
    pub config_path: FilePath,
    pub mode: Mode,
}

/// Resolution failed because the directory lookup failed; carries the reason
/// the host gave.
#[derive(Clone, Debug, PartialEq, Eq)]
pub enum PathError {
    NotResolvable(String),
}

/// The directory under which the backend is kept in a development checkout.
pub open spec fn development_directory() -> Seq<char> {
    "bin"@
}

/// The file name of the optional environment file.
pub open spec fn config_file_name() -> Seq<char> {
    ".env.hyper"@
}

/// The file name of the backend binary on `platform`.
pub open spec fn binary_file_name(platform: Platform) -> Seq<char> {
    match platform {
        Platform::Windows => "hyper.exe"@,
        Platform::Other => "hyper"@,
    }
}

/// The location of the file called `file_name` in `mode`, given the directory
/// that was looked up: in development `bin/<file_name>` under the parent of
/// the working directory, packaged `<file_name>` in the resource directory.
pub open spec fn location_in(mode: Mode, directory: Seq<char>, file_name: Seq<char>) -> FilePathView {
    match mode {
        Mode::Development => FilePathView {
            base: directory,
            from_parent: true,
            segments: seq![development_directory(), file_name],
        },
        Mode::Packaged => FilePathView {
            base: directory,
            from_parent: false,
            segments: seq![file_name],
        },
    }
}

/// The location of the backend binary.
pub open spec fn binary_location(mode: Mode, platform: Platform, directory: Seq<char>) -> FilePathView {
    location_in(mode, directory, binary_file_name(platform))
}

/// The location of the environment file.
pub open spec fn config_location(mode: Mode, directory: Seq<char>) -> FilePathView {
    location_in(mode, directory, config_file_name())
}

/// `start` with each of `segments` appended in turn, a `/` before each.
pub open spec fn below(start: Seq<char>, segments: Seq<Seq<char>>) -> Seq<char>
    decreases segments.len(),
{
    if segments.len() == 0 {
        start
    } else {
        below(start, segments.drop_last()) + "/"@ + segments.last()
    }
}

/// A location written out for a message: the base, `/..` where the location
/// starts at the parent, then each segment after a `/`.
pub open spec fn rendered_path(path: FilePathView) -> Seq<char> {
    below(
        if path.from_parent {
            path.base + "/.."@
        } else {
            path.base
        },
        path.segments,
    )
}

/// Whether `resolved` is the resolution to `location` of a lookup that ended
/// as `directory` did: the location under the directory that was found, or
/// the lookup's own reason as the error.
pub open spec fn resolution(
    directory: Result<String, String>,
    location: spec_fn(Seq<char>) -> FilePathView,
    resolved: Result<FilePath, PathError>,
) -> bool {
    match directory {
        Ok(found) => resolved matches Ok(path) && path@ == location(found@),
        Err(reason) => resolved == Err::<FilePath, PathError>(PathError::NotResolvable(reason)),
    }
}

/// Whether `resolved` resolves the backend binary.
pub open spec fn binary_resolution(
    mode: Mode,
    platform: Platform,
    directory: Result<String, String>,
    resolved: Result<FilePath, PathError>,
) -> bool {
    resolution(directory, |found: Seq<char>| binary_location(mode, platform, found), resolved)
}

/// Whether `resolved` resolves the environment file.
pub open spec fn config_resolution(
    mode: Mode,
    directory: Result<String, String>,
    resolved: Result<FilePath, PathError>,
) -> bool {
    resolution(directory, |found: Seq<char>| config_location(mode, found), resolved)
}

/// Whether two resolutions agree: both found the same location, or both
/// failed with the same error.
pub open spec fn same_resolution(
    first: Result<FilePath, PathError>,
    second: Result<FilePath, PathError>,
) -> bool {
    match (first, second) {
        (Ok(one), Ok(other)) => one@ == other@,
        (Err(one), Err(other)) => one == other,
        _ => false,
    }
}

/// Resolving the binary is deterministic: whatever two resolutions from the
/// same mode, platform and lookup outcome return, they agree.
pub proof fn lemma_binary_resolution_is_deterministic(
    mode: Mode,
    platform: Platform,
    directory: Result<String, String>,
    first: Result<FilePath, PathError>,
    second: Result<FilePath, PathError>,
)
    requires
        binary_resolution(mode, platform, directory, first),
        binary_resolution(mode, platform, directory, second),
    ensures
        same_resolution(first, second),
{
}

/// Resolving the environment file is deterministic in the same way.
pub proof fn lemma_config_resolution_is_deterministic(
    mode: Mode,
    directory: Result<String, String>,
    first: Result<FilePath, PathError>,
    second: Result<FilePath, PathError>,
)
    requires
        config_resolution(mode, directory, first),
        config_resolution(mode, directory, second),
    ensures
        same_resolution(first, second),
{
}

/// The directory the host has to look up in `mode`.
pub fn directory_source(mode: Mode) -> (source: DirectorySource)
    ensures
        source == match mode {
            Mode::Development => DirectorySource::WorkingDirectory,
            Mode::Packaged => DirectorySource::ResourceDirectory,
        },
{
    match mode {
        Mode::Development => DirectorySource::WorkingDirectory,
        Mode::Packaged => DirectorySource::ResourceDirectory,
    }
}

/// Whether the application starts the backend itself in `mode`: only when
/// packaged. In development the backend is expected to be running already.
pub fn starts_backend(mode: Mode) -> (starts: bool)
    ensures
        starts == (mode == Mode::Packaged),
{
    match mode {
        Mode::Development => false,
        Mode::Packaged => true,
    }
}

/// The file name of the backend binary on `platform`.
pub fn binary_name(platform: Platform) -> (name: String)
    ensures
        name@ == binary_file_name(platform),
{
    match platform {
        Platform::Windows => "hyper.exe".to_owned(),
        Platform::Other => "hyper".to_owned(),
    }
}

/// Describes the file called `file_name` for `mode` under `directory`.
fn locate(mode: Mode, directory: String, file_name: String) -> (path: FilePath)
    ensures
        path@ == location_in(mode, directory@, file_name@),
{
    let mut segments: Vec<String> = Vec::new();
    let from_parent = match mode {
        Mode::Development => {
            segments.push("bin".to_owned());
            true
        },
        Mode::Packaged => false,
    };
    segments.push(file_name);
    let path = FilePath { base: directory, from_parent, segments };
    assert(path@.segments =~= location_in(mode, directory@, file_name@).segments);
    path
}

/// Resolves the backend binary from the outcome of the directory lookup.
///
/// Fails exactly when the lookup failed, with the lookup's reason.
pub fn resolve_binary_path(mode: Mode, platform: Platform, directory: Result<String, String>) -> (resolved:
    Result<FilePath, PathError>)
    ensures
        binary_resolution(mode, platform, directory, resolved),
{
    match directory {
        Ok(found) => Ok(locate(mode, found, binary_name(platform))),
        Err(reason) => Err(PathError::NotResolvable(reason)),
    }
}

/// Resolves the environment file from the outcome of the directory lookup.
///
/// Fails exactly when the lookup failed, with the lookup's reason.
pub fn resolve_config_path(mode: Mode, directory: Result<String, String>) -> (resolved: Result<
    FilePath,
    PathError,
>)
    ensures
        config_resolution(mode, directory, resolved),
{
    match directory {
        Ok(found) => Ok(locate(mode, found, ".env.hyper".to_owned())),
        Err(reason) => Err(PathError::NotResolvable(reason)),
    }
}

/// Resolves both locations from one directory lookup.
///
/// Fails exactly when the lookup failed, with the lookup's reason.
pub fn resolve_paths(mode: Mode, platform: Platform, directory: Result<String, String>) -> (resolved:
    Result<ResolvedPaths, PathError>)
    ensures
        match directory {
            Ok(found) => resolved matches Ok(paths) && paths.mode == mode && paths.binary_path@
                == binary_location(mode, platform, found@) && paths.config_path@
                == config_location(mode, found@),
            Err(reason) => resolved == Err::<ResolvedPaths, PathError>(
                PathError::NotResolvable(reason),
            ),
        },
{
    match directory {
        Ok(found) => {
            let binary_path = locate(mode, found.clone(), binary_name(platform));
            let config_path = locate(mode, found, ".env.hyper".to_owned());
            Ok(ResolvedPaths { binary_path, config_path, mode })
        },
        Err(reason) => Err(PathError::NotResolvable(reason)),
    }
}

} // verus!
