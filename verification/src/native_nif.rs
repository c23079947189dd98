//! The Erlang NIF bridge over the embedded install: it turns the option map
//! handed over by the host into an install request, and the outcome of the
//! install into the reply map.

use vstd::prelude::*;
use crate::embedded::{FrozenLockfile, InstallError, InstallOutcome, InstallRequest};
use crate::paths::{lossy_text, path_bytes, path_text};
use vstd::utf8::encode_utf8;

verus! {

/// The option map that the host hands to the install NIF.
#[derive(Debug, Clone)]
pub struct InstallOpts {
    pub cwd: String,
    pub frozen_lockfile: bool,
    pub no_frozen_lockfile: bool,
    pub prefer_frozen_lockfile: bool,
    pub prod: bool,
    pub dev: bool,
    pub no_optional: bool,
    pub offline: bool,
    pub prefer_offline: bool,
    pub ignore_scripts: bool,
    pub lockfile_only: bool,
    pub force: bool,
    pub node_linker: Option<String>,
    pub registry: Option<String>,
}

/// The reply map of an install that succeeded.
#[derive(Debug, Clone, PartialEq, Eq)]
pub struct InstallResult {
    pub project_dir: String,
    pub duration_ms: u64,
}

/// The reply map of an install that failed.
#[derive(Debug, Clone, PartialEq, Eq)]
pub struct InstallFailure {
    pub message: String,
    pub code: Option<String>,
}

/// How many of the first `n` of the three `flags` are set.
pub open spec fn count_set(flags: Seq<bool>, n: int) -> int {
    (if n > 0 && flags[0] {
        1int
    } else {
        0int
    }) + (if n > 1 && flags[1] {
        1int
    } else {
        0int
    }) + (if n > 2 && flags[2] {
        1int
    } else {
        0int
    })
}

/// How many of the three `flags` are set.
pub fn count_set_flags(flags: [bool; 3]) -> (count: usize)
    ensures
        count == count_set(flags@, 3),
{
    let mut count: usize = 0;
    for i in 0..3usize
        invariant
            count == count_set(flags@, i as int),
            count <= i,
    {
        if flags[i] {
            count = count + 1;
        }
    }
    count
}

/// The first conflict among the mode flags of a NIF option map, by its
/// message: two lockfile policies, `prod` with `dev`, or `offline` with
/// `prefer_offline`.
pub open spec fn flag_conflict(
    frozen_lockfile: bool,
    no_frozen_lockfile: bool,
    prefer_frozen_lockfile: bool,
    prod: bool,
    dev: bool,
    offline: bool,
    prefer_offline: bool,
) -> Option<Seq<char>> {
    if count_set(seq![frozen_lockfile, no_frozen_lockfile, prefer_frozen_lockfile], 3) > 1 {
        Some("frozen lockfile options are mutually exclusive"@)
    } else if prod && dev {
        Some("prod and dev install modes are mutually exclusive"@)
    } else if offline && prefer_offline {
        Some("offline and prefer_offline are mutually exclusive"@)
    } else {
        None
    }
}

/// The first conflict among the flags of `o`.
pub open spec fn opts_conflict(o: InstallOpts) -> Option<Seq<char>> {
    flag_conflict(
        o.frozen_lockfile,
        o.no_frozen_lockfile,
        o.prefer_frozen_lockfile,
        o.prod,
        o.dev,
        o.offline,
        o.prefer_offline,
    )
}

/// The lockfile policy that the flags of `o` ask for, by priority.
pub open spec fn opts_lockfile(o: InstallOpts) -> FrozenLockfile {
    if o.frozen_lockfile {
        FrozenLockfile::Frozen
    } else if o.no_frozen_lockfile {
        FrozenLockfile::No
    } else if o.prefer_frozen_lockfile {
        FrozenLockfile::Prefer
    } else {
        FrozenLockfile::Auto
    }
}

/// `r` is the install request that the option map `o` stands for.
pub open spec fn request_of_opts(r: InstallRequest, o: InstallOpts) -> bool {
    &&& r.project_dir@ == encode_utf8(o.cwd@)
    &&& r.frozen_lockfile == opts_lockfile(o)
    &&& r.prod == o.prod
    &&& r.dev == o.dev
    &&& r.no_optional == o.no_optional
    &&& r.offline == o.offline
    &&& r.prefer_offline == o.prefer_offline
    &&& r.ignore_scripts == o.ignore_scripts
    &&& r.lockfile_only == o.lockfile_only
    &&& r.force == o.force
    &&& r.node_linker.deep_view() == o.node_linker.deep_view()
    &&& r.registry.deep_view() == o.registry.deep_view()
}

/// A failure reply with `message` and, where given, `code`.
pub fn failure(message: &str, code: Option<&str>) -> (f: InstallFailure)
    ensures
        f.message@ == message@,
        f.code.deep_view() == (match code {
            Some(c) => Some(c@),
            None => None::<Seq<char>>,
        }),
{
    let code = match code {
        Some(c) => Some(c.to_owned()),
        None => None,
    };
    InstallFailure { message: message.to_owned(), code }
}

/// The install request of an option map, or the failure that refuses it.
pub fn request_from_opts(opts: InstallOpts) -> (res: Result<InstallRequest, InstallFailure>)
    ensures
        res is Err <==> opts_conflict(opts) is Some,
        res matches Err(f) ==> {
            &&& opts_conflict(opts) == Some(f.message@)
            &&& f.code.deep_view() == Some("invalid_options"@)
        },
        res matches Ok(r) ==> request_of_opts(r, opts),
{
    let flags = [opts.frozen_lockfile, opts.no_frozen_lockfile, opts.prefer_frozen_lockfile];
    let frozen_count = count_set_flags(flags);
    proof {
        assert(flags@ =~= seq![
            opts.frozen_lockfile,
            opts.no_frozen_lockfile,
            opts.prefer_frozen_lockfile,
        ]);
    }
    if frozen_count > 1 {
        return Err(failure("frozen lockfile options are mutually exclusive", Some("invalid_options")));
    }
    if opts.prod && opts.dev {
        return Err(
            failure("prod and dev install modes are mutually exclusive", Some("invalid_options")),
        );
    }
    if opts.offline && opts.prefer_offline {
        return Err(
            failure("offline and prefer_offline are mutually exclusive", Some("invalid_options")),
        );
    }
    let frozen_lockfile = if opts.frozen_lockfile {
        FrozenLockfile::Frozen
    } else if opts.no_frozen_lockfile {
        FrozenLockfile::No
    } else if opts.prefer_frozen_lockfile {
        FrozenLockfile::Prefer
    } else {
        FrozenLockfile::Auto
    };
    Ok(
        InstallRequest {
            project_dir: path_bytes(opts.cwd.as_str()),
            frozen_lockfile,
            prod: opts.prod,
            dev: opts.dev,
            no_optional: opts.no_optional,
            offline: opts.offline,
            prefer_offline: opts.prefer_offline,
            ignore_scripts: opts.ignore_scripts,
            lockfile_only: opts.lockfile_only,
            force: opts.force,
            node_linker: opts.node_linker,
            registry: opts.registry,
        },
    )
}

/// The reply map of an install result: the outcome, or the error's message and code.
pub fn install_reply(result: Result<InstallOutcome, InstallError>) -> (reply: Result<
    InstallResult,
    InstallFailure,
>)
    ensures
        result is Ok <==> reply is Ok,
        result matches Ok(o) ==> reply matches Ok(r) && r.project_dir@ == lossy_text(
            o.project_dir@,
        )
            && r.duration_ms == o.duration_ms,
        result matches Err(e) ==> reply matches Err(f) && f.message@ == e.message@
            && f.code.deep_view() == e.code.deep_view(),
{
    match result {
        Ok(outcome) => Ok(
            InstallResult {
                project_dir: path_text(outcome.project_dir.as_slice()),
                duration_ms: outcome.duration_ms,
            },
        ),
        Err(err) => Err(InstallFailure { message: err.message, code: err.code }),
    }
}

/// The worker thread count for the available parallelism, if known.
pub open spec fn worker_count(available: Option<usize>) -> int {
    match available {
        Some(count) => if count < 8 {
            count as int
        } else {
            8
        },
        None => 4,
    }
}

/// The worker thread count of the NIF runtime: the available parallelism
/// capped at eight, or four when it is unknown.
pub fn runtime_workers(available: Option<usize>) -> (n: usize)
    ensures
        n == worker_count(available),
{
    match available {
        Some(count) => if count < 8 {
            count
        } else {
            8
        },
        None => 4,
    }
}

} // verus!
