//! Properties that hold across the functions of the library.

use vstd::prelude::*;
use crate::beam_nif;
use crate::embedded::{
    DirResolution, FrozenLockfile, InstallRequest, ModeChoice, flag_bag, lockfile_override,
    request_mode_choice, request_network_mode, request_problem, resolution_problem, saturating_ms,
};
use crate::native_nif;
use crate::paths::path_bytes_empty;
use crate::native_nif::{flag_conflict, opts_lockfile, request_of_opts, worker_count};
use vstd::utf8::decode_utf8;
use crate::options::{FrozenMode, FrozenOverride, NetworkMode, override_key, override_mode, override_value};

verus! {

/// The two NIF bridges refuse the same option maps, with the same message:
/// a conflict depends on the mode flags alone.
pub proof fn bridges_refuse_alike(n: native_nif::InstallOpts, b: beam_nif::InstallOpts)
    requires
        n.frozen_lockfile == b.frozen_lockfile,
        n.no_frozen_lockfile == b.no_frozen_lockfile,
        n.prefer_frozen_lockfile == b.prefer_frozen_lockfile,
        n.prod == b.prod,
        n.dev == b.dev,
        n.offline == b.offline,
        n.prefer_offline == b.prefer_offline,
    ensures
        native_nif::opts_conflict(n) == beam_nif::opts_conflict(b),
{
}

/// A request that the NIF bridge lets through passes the embedded
/// validation, unless its project directory is empty.
pub proof fn accepted_request_is_valid(o: native_nif::InstallOpts, r: InstallRequest)
    requires
        native_nif::opts_conflict(o) is None,
        request_of_opts(r, o),
    ensures
        request_problem(r) is None <==> o.cwd@.len() > 0,
{
    path_bytes_empty(o.cwd@);
}

/// Both bridges ask for the same lockfile mode: the override of the request
/// built by one is the mode of the options built by the other, and a map with
/// no lockfile flag leaves the mode to the settings (`Auto`) in one and
/// prefers the lockfile in the other.
pub proof fn bridges_agree_on_lockfile(n: native_nif::InstallOpts, b: beam_nif::InstallOpts)
    requires
        n.frozen_lockfile == b.frozen_lockfile,
        n.no_frozen_lockfile == b.no_frozen_lockfile,
        n.prefer_frozen_lockfile == b.prefer_frozen_lockfile,
        native_nif::opts_conflict(n) is None,
    ensures
        match lockfile_override(native_nif::opts_lockfile(n)) {
            Some(o) => override_mode(o) == beam_nif::opts_mode(b),
            None => beam_nif::opts_mode(b) == FrozenMode::Prefer,
        },
        (native_nif::opts_lockfile(n) == FrozenLockfile::Frozen) == b.frozen_lockfile,
{
}

/// The CLI flag bag holds one entry for a node linker and one for a lockfile
/// override, each exactly when it is given, under distinct keys.
pub proof fn flag_bag_entries(l: Option<Seq<char>>, o: Option<FrozenOverride>)
    ensures
        flag_bag(l, o).len() == (if l is Some {
            1int
        } else {
            0int
        }) + (if o is Some {
            1int
        } else {
            0int
        }),
        l matches Some(v) ==> flag_bag(l, o)[0] == ("node-linker"@, v),
        o matches Some(x) ==> flag_bag(l, o).last().0 == override_key(x),
        o matches Some(x) ==> override_key(x) != "node-linker"@,
{
    reveal_strlit("node-linker");
    reveal_strlit("frozen-lockfile");
    reveal_strlit("prefer-frozen-lockfile");
    if let Some(x) = o {
        assert(override_key(x)[0] != "node-linker"@[0]);
    }
}

/// Reported durations never decrease as the elapsed time grows, and are
/// exact up to `u64::MAX`.
pub proof fn duration_monotone(a: int, b: int)
    requires
        0 <= a <= b,
    ensures
        saturating_ms(a) <= saturating_ms(b),
        a <= u64::MAX ==> saturating_ms(a) == a,
        saturating_ms(b) <= u64::MAX,
{
}

/// The NIF runtime always has between one and eight workers when the
/// available parallelism is known (it is never zero).
pub proof fn worker_count_bounds(available: Option<usize>)
    requires
        available matches Some(c) ==> c >= 1,
    ensures
        1 <= worker_count(available) <= 8,
{
}

/// A forced install gives up the lockfile only when the request names no
/// lockfile policy: the mode is forced to `No` exactly for a forced request
/// whose policy is `Auto`, and an explicit policy is always handed on as the
/// override it names, forced or not.
pub proof fn forced_install_respects_explicit_policy(r: InstallRequest)
    ensures
        (request_mode_choice(r) == ModeChoice::ForcedNo) <==> (r.force && r.frozen_lockfile
            == FrozenLockfile::Auto),
        r.frozen_lockfile == FrozenLockfile::Frozen ==> request_mode_choice(r)
            == ModeChoice::FromSettings(Some(FrozenOverride::Frozen)),
        r.frozen_lockfile == FrozenLockfile::No ==> request_mode_choice(r)
            == ModeChoice::FromSettings(Some(FrozenOverride::No)),
        r.frozen_lockfile == FrozenLockfile::Prefer ==> request_mode_choice(r)
            == ModeChoice::FromSettings(Some(FrozenOverride::Prefer)),
        (!r.force && r.frozen_lockfile == FrozenLockfile::Auto) ==> request_mode_choice(r)
            == ModeChoice::FromSettings(None),
{
}

/// Two requests that differ only in `force` settle their lockfile mode alike
/// whenever they name a lockfile policy.
pub proof fn force_is_irrelevant_with_a_policy(a: InstallRequest, b: InstallRequest)
    requires
        a.frozen_lockfile == b.frozen_lockfile,
        a.frozen_lockfile != FrozenLockfile::Auto,
    ensures
        request_mode_choice(a) == request_mode_choice(b),
{
}

/// The lockfile override of a policy: none for `Auto`, and each explicit
/// policy names a different override; only `Frozen` is strict.
pub proof fn lockfile_overrides_are_distinct(f: FrozenLockfile, g: FrozenLockfile)
    ensures
        lockfile_override(f) is None <==> f == FrozenLockfile::Auto,
        lockfile_override(f) == lockfile_override(g) ==> f == g,
        (lockfile_override(f) == Some(FrozenOverride::Frozen)) <==> f == FrozenLockfile::Frozen,
{
}

/// An option map is refused exactly when two or more lockfile flags are set,
/// or `prod` with `dev`, or `offline` with `prefer_offline`; no other flag
/// takes part, and the lockfile conflict is reported first, then prod/dev.
pub proof fn conflicts_are_the_three_exclusions(
    frozen: bool,
    no_frozen: bool,
    prefer_frozen: bool,
    prod: bool,
    dev: bool,
    offline: bool,
    prefer_offline: bool,
)
    ensures
        flag_conflict(frozen, no_frozen, prefer_frozen, prod, dev, offline, prefer_offline)
            is Some <==> ((frozen && no_frozen) || (frozen && prefer_frozen) || (no_frozen
            && prefer_frozen) || (prod && dev) || (offline && prefer_offline)),
        ((frozen && no_frozen) || (frozen && prefer_frozen) || (no_frozen && prefer_frozen))
            ==> flag_conflict(frozen, no_frozen, prefer_frozen, prod, dev, offline, prefer_offline)
            == Some("frozen lockfile options are mutually exclusive"@),
        (!((frozen && no_frozen) || (frozen && prefer_frozen) || (no_frozen && prefer_frozen))
            && prod && dev) ==> flag_conflict(
            frozen,
            no_frozen,
            prefer_frozen,
            prod,
            dev,
            offline,
            prefer_offline,
        ) == Some("prod and dev install modes are mutually exclusive"@),
        (!((frozen && no_frozen) || (frozen && prefer_frozen) || (no_frozen && prefer_frozen))
            && !(prod && dev) && offline && prefer_offline) ==> flag_conflict(
            frozen,
            no_frozen,
            prefer_frozen,
            prod,
            dev,
            offline,
            prefer_offline,
        ) == Some("offline and prefer_offline are mutually exclusive"@),
{
}

/// Both bridges refuse exactly the maps that break one of the three exclusions.
pub proof fn bridges_refuse_only_exclusions(n: native_nif::InstallOpts, b: beam_nif::InstallOpts)
    ensures
        native_nif::opts_conflict(n) is Some <==> ((n.frozen_lockfile && n.no_frozen_lockfile) || (
        n.frozen_lockfile && n.prefer_frozen_lockfile) || (n.no_frozen_lockfile
            && n.prefer_frozen_lockfile) || (n.prod && n.dev) || (n.offline && n.prefer_offline)),
        beam_nif::opts_conflict(b) is Some <==> ((b.frozen_lockfile && b.no_frozen_lockfile) || (
        b.frozen_lockfile && b.prefer_frozen_lockfile) || (b.no_frozen_lockfile
            && b.prefer_frozen_lockfile) || (b.prod && b.dev) || (b.offline && b.prefer_offline)),
{
    conflicts_are_the_three_exclusions(
        n.frozen_lockfile,
        n.no_frozen_lockfile,
        n.prefer_frozen_lockfile,
        n.prod,
        n.dev,
        n.offline,
        n.prefer_offline,
    );
    conflicts_are_the_three_exclusions(
        b.frozen_lockfile,
        b.no_frozen_lockfile,
        b.prefer_frozen_lockfile,
        b.prod,
        b.dev,
        b.offline,
        b.prefer_offline,
    );
}

/// The lockfile policy of an accepted native map is the one flag set, or
/// `Auto` when none is.
pub proof fn native_policy_is_the_flag_set(o: native_nif::InstallOpts)
    requires
        native_nif::opts_conflict(o) is None,
    ensures
        (opts_lockfile(o) == FrozenLockfile::Frozen) <==> o.frozen_lockfile,
        (opts_lockfile(o) == FrozenLockfile::No) <==> o.no_frozen_lockfile,
        (opts_lockfile(o) == FrozenLockfile::Prefer) <==> o.prefer_frozen_lockfile,
        (opts_lockfile(o) == FrozenLockfile::Auto) <==> !(o.frozen_lockfile
            || o.no_frozen_lockfile || o.prefer_frozen_lockfile),
{
}

/// The lockfile mode of an accepted beam map is the one flag set, preferring
/// the lockfile when none is.
pub proof fn beam_mode_is_the_flag_set(o: beam_nif::InstallOpts)
    requires
        beam_nif::opts_conflict(o) is None,
    ensures
        (beam_nif::opts_mode(o) == FrozenMode::Frozen) <==> o.frozen_lockfile,
        (beam_nif::opts_mode(o) == FrozenMode::No) <==> o.no_frozen_lockfile,
        (beam_nif::opts_mode(o) == FrozenMode::Prefer) <==> !(o.frozen_lockfile
            || o.no_frozen_lockfile),
{
}

/// The embedded network mode depends on `offline` and `prefer_offline` alone:
/// offline when `offline`, online when neither is set, and prefer-offline
/// only for `prefer_offline` without `offline`.
pub proof fn request_network_follows_offline_flags(a: InstallRequest, b: InstallRequest)
    ensures
        (request_network_mode(a) == NetworkMode::Offline) <==> a.offline,
        (request_network_mode(a) == NetworkMode::PreferOffline) <==> (!a.offline
            && a.prefer_offline),
        (request_network_mode(a) == NetworkMode::Online) <==> (!a.offline && !a.prefer_offline),
        (a.offline == b.offline && a.prefer_offline == b.prefer_offline) ==> request_network_mode(
            a,
        ) == request_network_mode(b),
{
}

/// The beam network mode depends on `offline` and `prefer_offline` alone, in
/// the same way, and agrees with the embedded one for the same flags.
pub proof fn beam_network_follows_offline_flags(
    o: beam_nif::InstallOpts,
    p: beam_nif::InstallOpts,
    r: InstallRequest,
)
    ensures
        (beam_nif::opts_network(o) == NetworkMode::Offline) <==> o.offline,
        (beam_nif::opts_network(o) == NetworkMode::PreferOffline) <==> (!o.offline
            && o.prefer_offline),
        (beam_nif::opts_network(o) == NetworkMode::Online) <==> (!o.offline && !o.prefer_offline),
        (o.offline == p.offline && o.prefer_offline == p.prefer_offline) ==> beam_nif::opts_network(
            o,
        ) == beam_nif::opts_network(p),
        (o.offline == r.offline && o.prefer_offline == r.prefer_offline) ==> beam_nif::opts_network(
            o,
        ) == request_network_mode(r),
{
}

/// A request is refused exactly when its project directory is empty, or it
/// asks for both `prod` and `dev`, or for both `offline` and
/// `prefer_offline`; no other field takes part, and a request with a
/// directory that asks for both `prod` and `dev` is refused with that message.
pub proof fn validation_refuses_only_the_three_rules(a: InstallRequest, b: InstallRequest)
    ensures
        request_problem(a) is None <==> (a.project_dir@.len() > 0 && !(a.prod && a.dev) && !(
        a.offline && a.prefer_offline)),
        a.project_dir@.len() == 0 ==> request_problem(a) == Some("project_dir is required"@),
        (a.project_dir@.len() > 0 && a.prod && a.dev) ==> request_problem(a) == Some(
            "prod and dev install modes are mutually exclusive"@,
        ),
        (a.project_dir@.len() > 0 && !(a.prod && a.dev) && a.offline && a.prefer_offline)
            ==> request_problem(a) == Some("offline and prefer_offline are mutually exclusive"@),
        ((a.project_dir@.len() == 0) == (b.project_dir@.len() == 0) && a.prod == b.prod && a.dev
            == b.dev && a.offline == b.offline && a.prefer_offline == b.prefer_offline)
            ==> request_problem(a) == request_problem(b),
{
}

/// The native bridge and the beam bridge build the same install for the same
/// flags: the same network mode, the same dependency groups and the same
/// script, lockfile-only and force switches; and strictness goes with the
/// frozen mode in the beam options.
pub proof fn bridges_build_the_same_install(
    n: native_nif::InstallOpts,
    r: InstallRequest,
    b: beam_nif::InstallOpts,
    e: beam_nif::EmbedOptions,
    dir: Seq<u8>,
)
    requires
        request_of_opts(r, n),
        beam_nif::options_of(e, b, dir),
        n.frozen_lockfile == b.frozen_lockfile,
        n.no_frozen_lockfile == b.no_frozen_lockfile,
        n.prefer_frozen_lockfile == b.prefer_frozen_lockfile,
        n.prod == b.prod,
        n.dev == b.dev,
        n.no_optional == b.no_optional,
        n.offline == b.offline,
        n.prefer_offline == b.prefer_offline,
        n.ignore_scripts == b.ignore_scripts,
        n.lockfile_only == b.lockfile_only,
        n.force == b.force,
    ensures
        request_network_mode(r) == e.network_mode,
        r.prod == e.dep_selection.prod,
        r.dev == e.dep_selection.dev,
        r.no_optional == e.dep_selection.no_optional,
        r.ignore_scripts == e.ignore_scripts,
        r.lockfile_only == e.lockfile_only,
        r.force == e.force,
        e.strict_no_lockfile <==> e.frozen_mode == FrozenMode::Frozen,
        (r.frozen_lockfile == FrozenLockfile::Frozen) == e.strict_no_lockfile,
{
}

/// The project directory is accepted exactly when it resolved to a directory;
/// an unreadable working directory or an unresolved path is always refused.
pub proof fn resolution_accepts_only_directories(d: DirResolution)
    ensures
        resolution_problem(d) is None <==> (d matches DirResolution::Canonical { is_dir, .. }
            && is_dir),
        d is CwdUnreadable ==> resolution_problem(d) == Some("failed to read current directory"@),
{
}

/// The worker count never exceeds the available parallelism and equals it up to eight.
pub proof fn worker_count_follows_parallelism(c: usize)
    ensures
        worker_count(Some(c)) <= c,
        c <= 8 ==> worker_count(Some(c)) == c,
        c >= 8 ==> worker_count(Some(c)) == 8,
        worker_count(None) == 4,
{
}

/// The beam bridge accepts the project directory exactly when it resolved to
/// a directory, and an unresolved directory is reported with the `cwd` the
/// host gave.
pub proof fn beam_accepts_only_directories(d: beam_nif::ProjectDir, cwd: Seq<char>)
    ensures
        beam_nif::project_dir_problem(d, cwd) is None <==> (d matches beam_nif::ProjectDir::Resolved {
            is_dir,
            ..
        } && is_dir),
        d matches beam_nif::ProjectDir::Unresolved { error } ==> beam_nif::project_dir_problem(
            d,
            cwd,
        ) == Some("failed to resolve project directory "@ + cwd + ": "@ + error@),
{
}

/// The native request's project directory reads back as the `cwd` the host gave.
pub proof fn native_request_dir_is_cwd(o: native_nif::InstallOpts, r: InstallRequest)
    requires
        request_of_opts(r, o),
    ensures
        decode_utf8(r.project_dir@) == o.cwd@,
{
    broadcast use vstd::utf8::encode_utf8_decode_utf8;

}

/// Each lockfile override enters the flag bag as a pair of its own: no two
/// overrides are written alike, and none under the node-linker key.
pub proof fn override_entries_are_distinct(a: FrozenOverride, b: FrozenOverride)
    ensures
        (override_key(a), override_value(a)) == (override_key(b), override_value(b)) ==> a == b,
{
    reveal_strlit("frozen-lockfile");
    reveal_strlit("prefer-frozen-lockfile");
    reveal_strlit("true");
    reveal_strlit("false");
    if a != b && override_key(a) == override_key(b) {
        assert(override_value(a)[0] != override_value(b)[0]);
    }
    if override_key(a) != override_key(b) {
        assert(override_key(a).len() != override_key(b).len());
    }
}

} // verus!
