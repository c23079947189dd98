//! The Erlang NIF bridge over the embedding API: it checks the option map
//! handed over by the host and turns it into install options for a resolved
//! project directory.

use vstd::prelude::*;
use vstd::string::*;
use crate::codes::{
    ERR_AUBE_EMBED_INVALID_PROJECT, ERR_AUBE_FFI_INVALID_ARGUMENT, ERR_AUBE_FFI_RUNTIME,
};
use crate::embedded::{duration_ms, saturating_ms};
use crate::native_nif::{count_set_flags, flag_conflict};
use crate::options::{DepSelection, FrozenMode, NetworkMode};
use crate::paths::{lossy_text, path_text};

verus! {

/// The option map that the host hands to the install NIF.
#[derive(Debug, Clone)]
pub struct InstallOpts {
    pub cwd: String,
    pub frozen_lockfile: bool,
    pub no_frozen_lockfile: bool,
    pub prefer_frozen_lockfile: bool,
    pub prod: bool,
    pub dev: bool,
    pub no_optional: bool,
    pub offline: bool,
    pub prefer_offline: bool,
    pub ignore_scripts: bool,
    pub lockfile_only: bool,
    pub force: bool,
}

/// The reply map of an install that succeeded.
#[derive(Debug, Clone, PartialEq, Eq)]
pub struct InstallResult {
    pub project_dir: String,
    pub duration_ms: u64,
}

/// The reply map of an install that failed.
#[derive(Debug, Clone, PartialEq, Eq)]
pub struct InstallFailure {
    pub message: String,
    pub code: Option<String>,
}

/// What the file system said of the directory named by `cwd`; paths are held
/// as the bytes of the operating system's encoding of the path.
#[derive(Debug, Clone)]
pub enum ProjectDir {
    /// It resolved to the canonical `path`, which is a directory when `is_dir`.
    Resolved { path: Vec<u8>, is_dir: bool },
    /// Resolving it failed with `error`.
    Unresolved { error: String },
}

/// The install options handed to the embedding API.
#[derive(Debug, Clone)]
pub struct EmbedOptions {
    pub project_dir: Vec<u8>,
    pub frozen_mode: FrozenMode,
    pub strict_no_lockfile: bool,
    pub dep_selection: DepSelection,
    pub network_mode: NetworkMode,
    pub ignore_scripts: bool,
    pub lockfile_only: bool,
    pub force: bool,
    pub silent: bool,
}

/// The first conflict among the flags of `o`.
pub open spec fn opts_conflict(o: InstallOpts) -> Option<Seq<char>> {
    flag_conflict(
        o.frozen_lockfile,
        o.no_frozen_lockfile,
        o.prefer_frozen_lockfile,
        o.prod,
        o.dev,
        o.offline,
        o.prefer_offline,
    )
}

/// The lockfile mode that the flags of `o` ask for; `Prefer` when none is set.
pub open spec fn opts_mode(o: InstallOpts) -> FrozenMode {
    if o.frozen_lockfile {
        FrozenMode::Frozen
    } else if o.no_frozen_lockfile {
        FrozenMode::No
    } else {
        FrozenMode::Prefer
    }
}

/// The network mode that the flags of `o` ask for: `offline` wins.
pub open spec fn opts_network(o: InstallOpts) -> NetworkMode {
    if o.offline {
        NetworkMode::Offline
    } else if o.prefer_offline {
        NetworkMode::PreferOffline
    } else {
        NetworkMode::Online
    }
}

/// The failure message for the project directory named by `cwd` that cannot
/// be used; `None` when it resolved to a directory.
pub open spec fn project_dir_problem(d: ProjectDir, cwd: Seq<char>) -> Option<Seq<char>> {
    match d {
        ProjectDir::Resolved { path, is_dir } => if is_dir {
            None
        } else {
            Some("project directory is not a directory: "@ + lossy_text(path@))
        },
        ProjectDir::Unresolved { error } => Some(
            "failed to resolve project directory "@ + cwd + ": "@ + error@,
        ),
    }
}

/// `e` are the install options of `o` in the directory `dir`.
pub open spec fn options_of(e: EmbedOptions, o: InstallOpts, dir: Seq<u8>) -> bool {
    &&& e.project_dir@ == dir
    &&& e.frozen_mode == opts_mode(o)
    &&& e.strict_no_lockfile == o.frozen_lockfile
    &&& e.dep_selection.prod == o.prod
    &&& e.dep_selection.dev == o.dev
    &&& e.dep_selection.no_optional == o.no_optional
    &&& e.network_mode == opts_network(o)
    &&& e.ignore_scripts == o.ignore_scripts
    &&& e.lockfile_only == o.lockfile_only
    &&& e.force == o.force
    &&& e.silent
}

/// A failure for an option map that the bridge refuses.
pub fn invalid_argument(message: &str) -> (f: InstallFailure)
    ensures
        f.message@ == message@,
        f.code.deep_view() == Some(ERR_AUBE_FFI_INVALID_ARGUMENT@),
{
    InstallFailure { message: message.to_owned(), code: Some(ERR_AUBE_FFI_INVALID_ARGUMENT.to_owned()) }
}

/// Refuses an option map with two lockfile policies, `prod` with `dev`, or
/// `offline` with `prefer_offline`.
pub fn check_opts(opts: &InstallOpts) -> (res: Result<(), InstallFailure>)
    ensures
        res is Err <==> opts_conflict(*opts) is Some,
        res matches Err(f) ==> {
            &&& opts_conflict(*opts) == Some(f.message@)
            &&& f.code.deep_view() == Some(ERR_AUBE_FFI_INVALID_ARGUMENT@)
        },
{
    let flags = [opts.frozen_lockfile, opts.no_frozen_lockfile, opts.prefer_frozen_lockfile];
    let frozen_count = count_set_flags(flags);
    proof {
        assert(flags@ =~= seq![
            opts.frozen_lockfile,
            opts.no_frozen_lockfile,
            opts.prefer_frozen_lockfile,
        ]);
    }
    if frozen_count > 1 {
        return Err(invalid_argument("frozen lockfile options are mutually exclusive"));
    }
    if opts.prod && opts.dev {
        return Err(invalid_argument("prod and dev install modes are mutually exclusive"));
    }
    if opts.offline && opts.prefer_offline {
        return Err(invalid_argument("offline and prefer_offline are mutually exclusive"));
    }
    Ok(())
}

/// A failure for a project directory that cannot be used.
fn invalid_project(message: String) -> (f: InstallFailure)
    ensures
        f.message@ == message@,
        f.code.deep_view() == Some(ERR_AUBE_EMBED_INVALID_PROJECT@),
{
    InstallFailure { message, code: Some(ERR_AUBE_EMBED_INVALID_PROJECT.to_owned()) }
}

/// The project directory and install options of an option map, given what
/// the file system said of its `cwd`; or the failure that refuses them.
/// A conflict among the flags is reported before any directory problem.
pub fn options_from_nif(opts: InstallOpts, project_dir: ProjectDir) -> (res: Result<
    (Vec<u8>, EmbedOptions),
    InstallFailure,
>)
    ensures
        res is Ok <==> (opts_conflict(opts) is None && project_dir_problem(project_dir, opts.cwd@) is None),
        res matches Err(f) ==> if opts_conflict(opts) is Some {
            &&& opts_conflict(opts) == Some(f.message@)
            &&& f.code.deep_view() == Some(ERR_AUBE_FFI_INVALID_ARGUMENT@)
        } else {
            &&& project_dir_problem(project_dir, opts.cwd@) == Some(f.message@)
            &&& f.code.deep_view() == Some(ERR_AUBE_EMBED_INVALID_PROJECT@)
        },
        res matches Ok((dir, options)) ==> project_dir matches ProjectDir::Resolved { path, .. }
            && dir@ == path@ && options_of(options, opts, path@),
{
    match check_opts(&opts) {
        Ok(()) => {},
        Err(f) => {
            return Err(f);
        },
    }
    let dir = match project_dir {
        ProjectDir::Unresolved { error } => {
            let mut message = "failed to resolve project directory ".to_owned();
            message.append(opts.cwd.as_str());
            message.append(": ");
            message.append(error.as_str());
            return Err(invalid_project(message));
        },
        ProjectDir::Resolved { path, is_dir } => {
            if !is_dir {
                let mut message = "project directory is not a directory: ".to_owned();
                let shown = path_text(path.as_slice());
                message.append(shown.as_str());
                return Err(invalid_project(message));
            }
            path
        },
    };
    let frozen_mode = if opts.frozen_lockfile {
        FrozenMode::Frozen
    } else if opts.no_frozen_lockfile {
        FrozenMode::No
    } else {
        FrozenMode::Prefer
    };
    let network_mode = if opts.offline {
        NetworkMode::Offline
    } else if opts.prefer_offline {
        NetworkMode::PreferOffline
    } else {
        NetworkMode::Online
    };
    let options = EmbedOptions {
        project_dir: dir.clone(),
        frozen_mode,
        strict_no_lockfile: opts.frozen_lockfile,
        dep_selection: DepSelection::from_flags(opts.prod, opts.dev, opts.no_optional),
        network_mode,
        ignore_scripts: opts.ignore_scripts,
        lockfile_only: opts.lockfile_only,
        force: opts.force,
        silent: true,
    };
    Ok((dir, options))
}

/// The reply map of a finished install in `project_dir` that took `elapsed_millis`.
pub fn install_result(project_dir: Vec<u8>, elapsed_millis: u128) -> (r: InstallResult)
    ensures
        r.project_dir@ == lossy_text(project_dir@),
        r.duration_ms == saturating_ms(elapsed_millis as int),
{
    InstallResult {
        project_dir: path_text(project_dir.as_slice()),
        duration_ms: duration_ms(elapsed_millis),
    }
}

/// The failure for a NIF runtime that could not be built, for the reason `message`.
pub fn runtime_failure(message: &str) -> (f: InstallFailure)
    ensures
        f.message@ == "failed to build aube NIF runtime: "@ + message@,
        f.code.deep_view() == Some(ERR_AUBE_FFI_RUNTIME@),
{
    let mut text = "failed to build aube NIF runtime: ".to_owned();
    text.append(message);
    InstallFailure { message: text, code: Some(ERR_AUBE_FFI_RUNTIME.to_owned()) }
}

/// Whether an initialization of the embedding API has completed in this process.
pub struct EmbedderInit {
    initialized: bool,
}

impl EmbedderInit {
    /// Whether an initialization has completed.
    pub closed spec fn is_initialized(self) -> bool {
        self.initialized
    }

    /// No initialization has completed yet.
    pub fn new() -> (s: EmbedderInit)
        ensures
            !s.is_initialized(),
    {
        EmbedderInit { initialized: false }
    }

    /// Whether the embedding API must be initialized now: until an
    /// initialization has completed, every request runs it (one that did not
    /// complete is retried), and after that none does.
    pub fn initialize_embedder(&self) -> (run: bool)
        ensures
            run == !self.is_initialized(),
    {
        !self.initialized
    }

    /// Records that an initialization has completed.
    pub fn initialization_done(&mut self)
        ensures
            final(self).is_initialized(),
    {
        self.initialized = true;
    }
}

} // verus!
