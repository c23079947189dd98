//! The embedded install request: its fields, its validation, and the install
//! plan that a valid request resolves to.

use vstd::prelude::*;
use vstd::string::*;
use crate::options::{
    DepSelection, FrozenOverride, NetworkMode, override_key, override_value,
};
use crate::paths::{lossy_text, path_text};

verus! {

/// The lockfile policy a caller asks for; `Auto` leaves it to the settings files.
#[derive(Debug, Clone, Copy, PartialEq, Eq, Structural)]
pub enum FrozenLockfile {
    Auto,
    Frozen,
    No,
    Prefer,
}

impl Default for FrozenLockfile {
    fn default() -> (d: FrozenLockfile)
        ensures
            d == FrozenLockfile::Auto,
    {
        FrozenLockfile::Auto
    }
}

/// The explicit override that a lockfile policy stands for, if any.
pub open spec fn lockfile_override(f: FrozenLockfile) -> Option<FrozenOverride> {
    match f {
        FrozenLockfile::Auto => None,
        FrozenLockfile::Frozen => Some(FrozenOverride::Frozen),
        FrozenLockfile::No => Some(FrozenOverride::No),
        FrozenLockfile::Prefer => Some(FrozenOverride::Prefer),
    }
}

impl FrozenLockfile {
    /// The override flag passed on to the install: none for `Auto`.
    pub fn override_flag(self) -> (o: Option<FrozenOverride>)
        ensures
            o == lockfile_override(self),
    {
        match self {
            FrozenLockfile::Auto => None,
            FrozenLockfile::Frozen => Some(FrozenOverride::Frozen),
            FrozenLockfile::No => Some(FrozenOverride::No),
            FrozenLockfile::Prefer => Some(FrozenOverride::Prefer),
        }
    }
}

/// What a host asks an embedded install to do. Paths are held as the bytes
/// of the operating system's encoding of the path.
#[derive(Debug, Clone)]
pub struct InstallRequest {
    pub project_dir: Vec<u8>,
    pub frozen_lockfile: FrozenLockfile,
    pub prod: bool,
    pub dev: bool,
    pub no_optional: bool,
    pub offline: bool,
    pub prefer_offline: bool,
    pub ignore_scripts: bool,
    pub lockfile_only: bool,
    pub force: bool,
    pub node_linker: Option<String>,
    pub registry: Option<String>,
}

impl InstallRequest {
    /// A request for `project_dir` with every option at its default.
    pub fn new(project_dir: Vec<u8>) -> (r: InstallRequest)
        ensures
            r.project_dir@ == project_dir@,
            r.frozen_lockfile == FrozenLockfile::Auto,
            !r.prod,
            !r.dev,
            !r.no_optional,
            !r.offline,
            !r.prefer_offline,
            !r.ignore_scripts,
            !r.lockfile_only,
            !r.force,
            r.node_linker is None,
            r.registry is None,
    {
        InstallRequest {
            project_dir,
            frozen_lockfile: FrozenLockfile::Auto,
            prod: false,
            dev: false,
            no_optional: false,
            offline: false,
            prefer_offline: false,
            ignore_scripts: false,
            lockfile_only: false,
            force: false,
            node_linker: None,
            registry: None,
        }
    }
}

/// Where a finished install ran and how long it took.
#[derive(Debug, Clone, PartialEq, Eq)]
pub struct InstallOutcome {
    pub project_dir: Vec<u8>,
    pub duration_ms: u64,
}

/// Why an install failed, with the error code when it has one.
#[derive(Debug, Clone, PartialEq, Eq)]
pub struct InstallError {
    pub message: String,
    pub code: Option<String>,
}

impl InstallError {
    /// The text this error is shown as: its message.
    pub fn display_text(&self) -> (s: String)
        ensures
            s@ == self.message@,
    {
        self.message.clone()
    }
}

/// The exit code of a command run through the embedded CLI.
#[derive(Debug, Clone, PartialEq, Eq)]
pub struct RunOutcome {
    pub exit_code: i32,
}

/// Why a command run through the embedded CLI failed.
#[derive(Debug, Clone, PartialEq, Eq)]
pub struct RunError {
    pub message: String,
    pub code: Option<String>,
    pub exit_code: i32,
}

/// The first rule that a request breaks, by its message; `None` when it breaks none.
pub open spec fn request_problem(r: InstallRequest) -> Option<Seq<char>> {
    if r.project_dir@.len() == 0 {
        Some("project_dir is required"@)
    } else if r.prod && r.dev {
        Some("prod and dev install modes are mutually exclusive"@)
    } else if r.offline && r.prefer_offline {
        Some("offline and prefer_offline are mutually exclusive"@)
    } else {
        None
    }
}

/// Refuses a request with no project directory or with two exclusive modes.
pub fn validate_request(request: &InstallRequest) -> (res: Result<(), InstallError>)
    ensures
        res is Ok <==> request_problem(*request) is None,
        res matches Err(e) ==> {
            &&& request_problem(*request) == Some(e.message@)
            &&& e.code is None
        },
{
    if request.project_dir.len() == 0 {
        return Err(InstallError { message: "project_dir is required".to_owned(), code: None });
    }
    if request.prod && request.dev {
        return Err(
            InstallError {
                message: "prod and dev install modes are mutually exclusive".to_owned(),
                code: None,
            },
        );
    }
    if request.offline && request.prefer_offline {
        return Err(
            InstallError {
                message: "offline and prefer_offline are mutually exclusive".to_owned(),
                code: None,
            },
        );
    }
    Ok(())
}

/// The settings entries that a request adds on top of the settings files:
/// the node linker, then the lockfile override, each where it is given.
pub open spec fn flag_bag(
    node_linker: Option<Seq<char>>,
    frozen_override: Option<FrozenOverride>,
) -> Seq<(Seq<char>, Seq<char>)> {
    let linker = match node_linker {
        Some(l) => seq![("node-linker"@, l)],
        None => Seq::<(Seq<char>, Seq<char>)>::empty(),
    };
    let frozen = match frozen_override {
        Some(o) => seq![(override_key(o), override_value(o))],
        None => Seq::<(Seq<char>, Seq<char>)>::empty(),
    };
    linker + frozen
}

/// The CLI flag bag of a request, as `(key, value)` settings entries.
pub fn cli_flag_bag(request: &InstallRequest, frozen_override: Option<FrozenOverride>) -> (out: Vec<
    (String, String),
>)
    ensures
        out.deep_view() == flag_bag(request.node_linker.deep_view(), frozen_override),
{
    let mut out: Vec<(String, String)> = Vec::new();
    match &request.node_linker {
        Some(linker) => {
            out.push(("node-linker".to_owned(), linker.clone()));
        },
        None => {},
    }
    match frozen_override {
        Some(override_flag) => {
            let (key, value) = override_flag.cli_flag_bag_entry();
            out.push((key.to_owned(), value.to_owned()));
        },
        None => {},
    }
    proof {
        assert(out.deep_view() =~= flag_bag(request.node_linker.deep_view(), frozen_override));
    }
    out
}

/// The network mode of a request: `offline` wins over `prefer_offline`.
pub open spec fn request_network_mode(r: InstallRequest) -> NetworkMode {
    if r.offline {
        NetworkMode::Offline
    } else if r.prefer_offline {
        NetworkMode::PreferOffline
    } else {
        NetworkMode::Online
    }
}

/// The network mode an install of `request` runs with.
pub fn network_mode(request: &InstallRequest) -> (m: NetworkMode)
    ensures
        m == request_network_mode(*request),
{
    if request.offline {
        NetworkMode::Offline
    } else if request.prefer_offline {
        NetworkMode::PreferOffline
    } else {
        NetworkMode::Online
    }
}

/// How the lockfile mode of an install is settled.
#[derive(Debug, Clone, Copy, PartialEq, Eq, Structural)]
pub enum ModeChoice {
    /// A forced install without an explicit override never uses a frozen lockfile.
    ForcedNo,
    /// The mode comes from the override, if any, together with the
    /// `prefer-frozen-lockfile` setting of the project.
    FromSettings(Option<FrozenOverride>),
}

/// How the lockfile mode of `request` is settled.
pub open spec fn request_mode_choice(r: InstallRequest) -> ModeChoice {
    if r.force && lockfile_override(r.frozen_lockfile) is None {
        ModeChoice::ForcedNo
    } else {
        ModeChoice::FromSettings(lockfile_override(r.frozen_lockfile))
    }
}

/// Everything that an install of a request is run with, apart from what is
/// read from disk.
#[derive(Debug, Clone)]
pub struct InstallPlan {
    pub project_dir: Vec<u8>,
    pub frozen_override: Option<FrozenOverride>,
    pub mode: ModeChoice,
    pub dep_selection: DepSelection,
    pub ignore_scripts: bool,
    pub lockfile_only: bool,
    pub force: bool,
    pub network_mode: NetworkMode,
    pub strict_no_lockfile: bool,
    pub cli_flags: Vec<(String, String)>,
    pub registry_override: Option<String>,
    pub skip_root_lifecycle: bool,
    /// The per-invocation state is reset before the install and again after it.
    pub reset_invocation_state: bool,
    /// The fetch overrides given on a command line; an embedded install has none.
    pub fetch_cli_overrides: Vec<String>,
    /// The virtual-store flags are left at their defaults.
    pub default_virtual_store_flags: bool,
    /// Output as newline-delimited JSON.
    pub ndjson: bool,
    /// Output is silenced.
    pub silent: bool,
    /// Progress is written as plain text lines for the install's duration.
    pub text_progress: bool,
}

/// The plan of an install of `request` in the resolved directory `project_dir`.
pub fn install_plan(request: &InstallRequest, project_dir: Vec<u8>) -> (plan: InstallPlan)
    ensures
        plan.project_dir@ == project_dir@,
        plan.frozen_override == lockfile_override(request.frozen_lockfile),
        plan.mode == request_mode_choice(*request),
        plan.dep_selection.prod == request.prod,
        plan.dep_selection.dev == request.dev,
        plan.dep_selection.no_optional == request.no_optional,
        plan.ignore_scripts == request.ignore_scripts,
        plan.lockfile_only == request.lockfile_only,
        plan.force == request.force,
        plan.network_mode == request_network_mode(*request),
        plan.strict_no_lockfile == (request.frozen_lockfile == FrozenLockfile::Frozen),
        plan.cli_flags.deep_view() == flag_bag(
            request.node_linker.deep_view(),
            lockfile_override(request.frozen_lockfile),
        ),
        plan.registry_override.deep_view() == request.registry.deep_view(),
        !plan.skip_root_lifecycle,
        plan.reset_invocation_state,
        plan.fetch_cli_overrides@.len() == 0,
        plan.default_virtual_store_flags,
        !plan.ndjson,
        plan.silent,
        plan.text_progress,
{
    let frozen_override = request.frozen_lockfile.override_flag();
    let mode = if request.force && frozen_override.is_none() {
        ModeChoice::ForcedNo
    } else {
        ModeChoice::FromSettings(frozen_override)
    };
    let strict_no_lockfile = match frozen_override {
        Some(FrozenOverride::Frozen) => true,
        _ => false,
    };
    let registry_override = match &request.registry {
        Some(r) => Some(r.clone()),
        None => None,
    };
    InstallPlan {
        project_dir,
        frozen_override,
        mode,
        dep_selection: DepSelection::from_flags(request.prod, request.dev, request.no_optional),
        ignore_scripts: request.ignore_scripts,
        lockfile_only: request.lockfile_only,
        force: request.force,
        network_mode: network_mode(request),
        strict_no_lockfile,
        cli_flags: cli_flag_bag(request, frozen_override),
        registry_override,
        skip_root_lifecycle: false,
        reset_invocation_state: true,
        fetch_cli_overrides: Vec::new(),
        default_virtual_store_flags: true,
        ndjson: false,
        silent: true,
        text_progress: true,
    }
}

/// How the project directory of a request is expanded before it is resolved.
#[derive(Debug, Clone, Copy, PartialEq, Eq, Structural)]
pub enum DirExpansion {
    /// An absolute path is used as it is.
    AsIs,
    /// A relative path is joined to the current directory.
    JoinToCwd,
}

/// How a project directory that is absolute when `is_absolute` is expanded.
pub fn dir_expansion(is_absolute: bool) -> (e: DirExpansion)
    ensures
        e == (if is_absolute {
            DirExpansion::AsIs
        } else {
            DirExpansion::JoinToCwd
        }),
{
    if is_absolute {
        DirExpansion::AsIs
    } else {
        DirExpansion::JoinToCwd
    }
}

/// What the file system said while the project directory was resolved.
#[derive(Debug, Clone)]
pub enum DirResolution {
    /// The current directory, needed to expand a relative path, could not be read.
    CwdUnreadable,
    /// The expanded path `expanded` could not be made canonical.
    Unresolved { expanded: Vec<u8> },
    /// The expanded path is the canonical `canonical`, a directory when `is_dir`.
    Canonical { canonical: Vec<u8>, is_dir: bool },
}

/// The failure message for a resolution that gives no project directory;
/// `None` when it resolved to a directory.
pub open spec fn resolution_problem(r: DirResolution) -> Option<Seq<char>> {
    match r {
        DirResolution::CwdUnreadable => Some("failed to read current directory"@),
        DirResolution::Unresolved { expanded } => Some(
            "failed to resolve project dir "@ + lossy_text(expanded@),
        ),
        DirResolution::Canonical { canonical, is_dir } => if is_dir {
            None
        } else {
            Some("project dir is not a directory: "@ + lossy_text(canonical@))
        },
    }
}

/// The canonical project directory of a resolution, or the error that refuses it.
pub fn normalize_project_dir(resolution: DirResolution) -> (res: Result<Vec<u8>, InstallError>)
    ensures
        res is Ok <==> resolution_problem(resolution) is None,
        res matches Ok(dir) ==> resolution matches DirResolution::Canonical { canonical, .. }
            && dir@ == canonical@,
        res matches Err(e) ==> {
            &&& resolution_problem(resolution) == Some(e.message@)
            &&& e.code is None
        },
{
    match resolution {
        DirResolution::CwdUnreadable => Err(
            InstallError { message: "failed to read current directory".to_owned(), code: None },
        ),
        DirResolution::Unresolved { expanded } => {
            let mut message = "failed to resolve project dir ".to_owned();
            let shown = path_text(expanded.as_slice());
            message.append(shown.as_str());
            Err(InstallError { message, code: None })
        },
        DirResolution::Canonical { canonical, is_dir } => {
            if is_dir {
                Ok(canonical)
            } else {
                let mut message = "project dir is not a directory: ".to_owned();
                let shown = path_text(canonical.as_slice());
                message.append(shown.as_str());
                Err(InstallError { message, code: None })
            }
        },
    }
}

/// Elapsed milliseconds as a `u64`, saturating at `u64::MAX`.
pub open spec fn saturating_ms(millis: int) -> int {
    if millis > u64::MAX {
        u64::MAX as int
    } else {
        millis
    }
}

/// Elapsed milliseconds as a `u64`, saturating at `u64::MAX`.
pub fn duration_ms(millis: u128) -> (ms: u64)
    ensures
        ms == saturating_ms(millis as int),
{
    if millis > u64::MAX as u128 {
        u64::MAX
    } else {
        millis as u64
    }
}

/// The argument vector handed to the CLI: the program name, then `args`.
pub fn cli_argv(args: Vec<String>) -> (argv: Vec<String>)
    ensures
        argv.deep_view() == seq!["aube"@] + args.deep_view(),
{
    let mut argv: Vec<String> = Vec::new();
    argv.push("aube".to_owned());
    let n = args.len();
    for i in 0..n
        invariant
            n == args.len(),
            argv.deep_view() == seq!["aube"@] + args.deep_view().take(i as int),
    {
        let ghost before = argv.deep_view();
        argv.push(args[i].clone());
        proof {
            assert(argv.deep_view() =~= before.push(args.deep_view()[i as int]));
            assert(seq!["aube"@] + args.deep_view().take(i + 1) =~= (seq!["aube"@]
                + args.deep_view().take(i as int)).push(args.deep_view()[i as int]));
        }
    }
    proof {
        assert(args.deep_view().take(n as int) =~= args.deep_view());
    }
    argv
}

/// The outcome of a CLI run that ended with `exit`; no exit code means success.
pub fn run_outcome(exit: Option<i32>) -> (o: RunOutcome)
    ensures
        o.exit_code == (match exit {
            Some(code) => code,
            None => 0i32,
        }),
{
    match exit {
        Some(exit_code) => RunOutcome { exit_code },
        None => RunOutcome { exit_code: 0 },
    }
}

/// The error of a run whose CLI thread could not start, for the reason `detail`.
pub fn thread_start_error(detail: &str) -> (e: RunError)
    ensures
        e.message@ == "failed to start embedded aube CLI thread: "@ + detail@,
        e.code.deep_view() == Some("embedded_thread_start"@),
        e.exit_code == 1,
{
    let mut message = "failed to start embedded aube CLI thread: ".to_owned();
    message.append(detail);
    RunError { message, code: Some("embedded_thread_start".to_owned()), exit_code: 1 }
}

/// The error of a run whose CLI thread panicked.
pub fn thread_panic_error() -> (e: RunError)
    ensures
        e.message@ == "embedded aube CLI thread panicked"@,
        e.code.deep_view() == Some("embedded_thread_panic"@),
        e.exit_code == 1,
{
    RunError {
        message: "embedded aube CLI thread panicked".to_owned(),
        code: Some("embedded_thread_panic".to_owned()),
        exit_code: 1,
    }
}

} // verus!
