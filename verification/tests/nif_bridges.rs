use aube::beam_nif::{self, EmbedderInit, ProjectDir};
use aube::codes::{ERR_AUBE_EMBED_INVALID_PROJECT, ERR_AUBE_FFI_INVALID_ARGUMENT, ERR_AUBE_FFI_RUNTIME};
use aube::embedded::{validate_request, FrozenLockfile, InstallError, InstallOutcome};
use aube::native_nif::{self, count_set_flags, failure, install_reply, request_from_opts, runtime_workers};
use aube::options::{FrozenMode, FrozenOverride, NetworkMode};

fn native_opts() -> native_nif::InstallOpts {
    native_nif::InstallOpts {
        cwd: "assets".to_string(),
        frozen_lockfile: false,
        no_frozen_lockfile: false,
        prefer_frozen_lockfile: false,
        prod: false,
        dev: false,
        no_optional: false,
        offline: false,
        prefer_offline: false,
        ignore_scripts: false,
        lockfile_only: false,
        force: false,
        node_linker: None,
        registry: None,
    }
}

fn beam_opts() -> beam_nif::InstallOpts {
    beam_nif::InstallOpts {
        cwd: "assets".to_string(),
        frozen_lockfile: false,
        no_frozen_lockfile: false,
        prefer_frozen_lockfile: false,
        prod: false,
        dev: false,
        no_optional: false,
        offline: false,
        prefer_offline: false,
        ignore_scripts: false,
        lockfile_only: false,
        force: false,
    }
}

fn resolved(path: &str) -> ProjectDir {
    ProjectDir::Resolved { path: path.as_bytes().to_vec(), is_dir: true }
}

#[test]
fn native_default_opts_make_auto_request() {
    let r = request_from_opts(native_opts()).unwrap();
    assert_eq!(r.project_dir, b"assets".to_vec());
    assert_eq!(r.frozen_lockfile, FrozenLockfile::Auto);
    assert!(!r.prod && !r.dev && !r.force);
}

#[test]
fn native_refuses_two_lockfile_policies() {
    let mut o = native_opts();
    o.no_frozen_lockfile = true;
    o.prefer_frozen_lockfile = true;
    let f = request_from_opts(o).unwrap_err();
    assert_eq!(f.message, "frozen lockfile options are mutually exclusive");
    assert_eq!(f.code.as_deref(), Some("invalid_options"));
}

#[test]
fn native_refuses_all_three_lockfile_policies() {
    let mut o = native_opts();
    o.frozen_lockfile = true;
    o.no_frozen_lockfile = true;
    o.prefer_frozen_lockfile = true;
    o.prod = true;
    o.dev = true;
    let f = request_from_opts(o).unwrap_err();
    assert_eq!(f.message, "frozen lockfile options are mutually exclusive");
}

#[test]
fn native_refuses_prod_with_dev() {
    let mut o = native_opts();
    o.prod = true;
    o.dev = true;
    o.frozen_lockfile = true;
    let f = request_from_opts(o).unwrap_err();
    assert_eq!(f.message, "prod and dev install modes are mutually exclusive");
    assert_eq!(f.code.as_deref(), Some("invalid_options"));
}

#[test]
fn native_refuses_offline_with_prefer_offline() {
    let mut o = native_opts();
    o.offline = true;
    o.prefer_offline = true;
    let f = request_from_opts(o).unwrap_err();
    assert_eq!(f.message, "offline and prefer_offline are mutually exclusive");
}

#[test]
fn native_lockfile_flag_picks_policy() {
    let mut o = native_opts();
    o.frozen_lockfile = true;
    assert_eq!(request_from_opts(o).unwrap().frozen_lockfile, FrozenLockfile::Frozen);
    let mut o = native_opts();
    o.no_frozen_lockfile = true;
    assert_eq!(request_from_opts(o).unwrap().frozen_lockfile, FrozenLockfile::No);
    let mut o = native_opts();
    o.prefer_frozen_lockfile = true;
    assert_eq!(request_from_opts(o).unwrap().frozen_lockfile, FrozenLockfile::Prefer);
}

#[test]
fn native_request_carries_every_field() {
    let mut o = native_opts();
    o.dev = true;
    o.no_optional = true;
    o.prefer_offline = true;
    o.ignore_scripts = true;
    o.lockfile_only = true;
    o.force = true;
    o.node_linker = Some("isolated".to_string());
    o.registry = Some("https://r.example".to_string());
    let r = request_from_opts(o).unwrap();
    assert!(r.dev && r.no_optional && r.prefer_offline && r.ignore_scripts);
    assert!(r.lockfile_only && r.force && !r.offline && !r.prod);
    assert_eq!(r.node_linker.as_deref(), Some("isolated"));
    assert_eq!(r.registry.as_deref(), Some("https://r.example"));
}

#[test]
fn failure_keeps_message_and_code() {
    let f = failure("bad", Some("invalid_options"));
    assert_eq!(f.message, "bad");
    assert_eq!(f.code.as_deref(), Some("invalid_options"));
    assert_eq!(failure("bad", None).code, None);
}

#[test]
fn reply_of_outcome_and_error() {
    let ok = install_reply(Ok(InstallOutcome { project_dir: b"/p".to_vec(), duration_ms: 7 }));
    let r = ok.unwrap();
    assert_eq!(r.project_dir, "/p");
    assert_eq!(r.duration_ms, 7);
    let err = install_reply(Err(InstallError {
        message: "lockfile is out of date".to_string(),
        code: Some("ERR_AUBE_OUTDATED_LOCKFILE".to_string()),
    }));
    let f = err.unwrap_err();
    assert_eq!(f.message, "lockfile is out of date");
    assert_eq!(f.code.as_deref(), Some("ERR_AUBE_OUTDATED_LOCKFILE"));
}

#[test]
fn workers_are_capped() {
    assert_eq!(runtime_workers(None), 4);
    assert_eq!(runtime_workers(Some(1)), 1);
    assert_eq!(runtime_workers(Some(8)), 8);
    assert_eq!(runtime_workers(Some(64)), 8);
}

#[test]
fn beam_default_opts_prefer_lockfile() {
    let (dir, options) = beam_nif::options_from_nif(beam_opts(), resolved("/abs/assets")).unwrap();
    assert_eq!(dir, b"/abs/assets".to_vec());
    assert_eq!(options.project_dir, b"/abs/assets".to_vec());
    assert_eq!(options.frozen_mode, FrozenMode::Prefer);
    assert!(!options.strict_no_lockfile);
    assert_eq!(options.network_mode, NetworkMode::Online);
    assert!(options.silent);
}

#[test]
fn beam_frozen_is_strict() {
    let mut o = beam_opts();
    o.frozen_lockfile = true;
    o.prefer_offline = true;
    o.prod = true;
    let (_, options) = beam_nif::options_from_nif(o, resolved("/a")).unwrap();
    assert_eq!(options.frozen_mode, FrozenMode::Frozen);
    assert!(options.strict_no_lockfile);
    assert_eq!(options.network_mode, NetworkMode::PreferOffline);
    assert!(options.dep_selection.prod && !options.dep_selection.dev);
}

#[test]
fn beam_no_frozen_mode() {
    let mut o = beam_opts();
    o.no_frozen_lockfile = true;
    o.offline = true;
    let (_, options) = beam_nif::options_from_nif(o, resolved("/a")).unwrap();
    assert_eq!(options.frozen_mode, FrozenMode::No);
    assert_eq!(options.network_mode, NetworkMode::Offline);
}

#[test]
fn beam_refuses_conflicts_before_directory() {
    let mut o = beam_opts();
    o.frozen_lockfile = true;
    o.no_frozen_lockfile = true;
    let dir = ProjectDir::Unresolved { error: "gone".to_string() };
    let f = beam_nif::options_from_nif(o, dir).unwrap_err();
    assert_eq!(f.message, "frozen lockfile options are mutually exclusive");
    assert_eq!(f.code.as_deref(), Some(ERR_AUBE_FFI_INVALID_ARGUMENT));
}

#[test]
fn beam_check_refuses_prod_with_dev() {
    let mut o = beam_opts();
    o.prod = true;
    o.dev = true;
    let f = beam_nif::check_opts(&o).unwrap_err();
    assert_eq!(f.message, "prod and dev install modes are mutually exclusive");
    assert_eq!(f.code.as_deref(), Some("ERR_AUBE_FFI_INVALID_ARGUMENT"));
    assert_eq!(beam_nif::check_opts(&beam_opts()), Ok(()));
}

#[test]
fn beam_unresolved_directory() {
    let dir = ProjectDir::Unresolved { error: "No such file or directory (os error 2)".to_string() };
    let mut o = beam_opts();
    o.cwd = "missing".to_string();
    let f = beam_nif::options_from_nif(o, dir).unwrap_err();
    assert_eq!(
        f.message,
        "failed to resolve project directory missing: No such file or directory (os error 2)"
    );
    assert_eq!(f.code.as_deref(), Some(ERR_AUBE_EMBED_INVALID_PROJECT));
}

#[test]
fn beam_not_a_directory() {
    let dir = ProjectDir::Resolved { path: b"/a/file.txt".to_vec(), is_dir: false };
    let f = beam_nif::options_from_nif(beam_opts(), dir).unwrap_err();
    assert_eq!(f.message, "project directory is not a directory: /a/file.txt");
    assert_eq!(f.code.as_deref(), Some("ERR_AUBE_EMBED_INVALID_PROJECT"));
}

#[test]
fn beam_invalid_argument_code() {
    let f = beam_nif::invalid_argument("nope");
    assert_eq!(f.message, "nope");
    assert_eq!(f.code.as_deref(), Some(ERR_AUBE_FFI_INVALID_ARGUMENT));
}

#[test]
fn beam_runtime_failure() {
    let f = beam_nif::runtime_failure("no threads");
    assert_eq!(f.message, "failed to build aube NIF runtime: no threads");
    assert_eq!(f.code.as_deref(), Some(ERR_AUBE_FFI_RUNTIME));
}

#[test]
fn beam_install_result_saturates() {
    let r = beam_nif::install_result(b"/p".to_vec(), 42);
    assert_eq!(r.project_dir, "/p");
    assert_eq!(r.duration_ms, 42);
    assert_eq!(beam_nif::install_result(b"/p".to_vec(), u128::MAX).duration_ms, u64::MAX);
}

#[test]
fn embedder_initializes_once() {
    let mut init = EmbedderInit::new();
    assert!(init.initialize_embedder());
    // An initialization that did not complete is asked for again.
    assert!(init.initialize_embedder());
    init.initialization_done();
    assert!(!init.initialize_embedder());
    assert!(!init.initialize_embedder());
}

#[test]
fn bridges_refuse_the_same_maps() {
    let cases = [
        (true, true, false, false, false, false, false),
        (false, true, true, false, false, false, false),
        (false, false, false, true, true, false, false),
        (false, false, false, false, false, true, true),
        (true, false, false, true, false, true, false),
    ];
    for (f, n, p, prod, dev, off, pref) in cases {
        let mut a = native_opts();
        let mut b = beam_opts();
        a.frozen_lockfile = f;
        b.frozen_lockfile = f;
        a.no_frozen_lockfile = n;
        b.no_frozen_lockfile = n;
        a.prefer_frozen_lockfile = p;
        b.prefer_frozen_lockfile = p;
        a.prod = prod;
        b.prod = prod;
        a.dev = dev;
        b.dev = dev;
        a.offline = off;
        b.offline = off;
        a.prefer_offline = pref;
        b.prefer_offline = pref;
        let na = request_from_opts(a).err().map(|x| x.message);
        let nb = beam_nif::check_opts(&b).err().map(|x| x.message);
        assert_eq!(na, nb);
    }
}

#[test]
fn accepted_request_passes_validation() {
    let mut o = native_opts();
    o.prefer_offline = true;
    o.dev = true;
    let r = request_from_opts(o).unwrap();
    assert_eq!(validate_request(&r), Ok(()));
    let mut empty = native_opts();
    empty.cwd = String::new();
    let r = request_from_opts(empty).unwrap();
    assert_eq!(validate_request(&r).unwrap_err().message, "project_dir is required");
}

#[test]
fn bridges_agree_on_lockfile_mode() {
    for (f, n, p) in [(false, false, false), (true, false, false), (false, true, false), (false, false, true)] {
        let mut a = native_opts();
        let mut b = beam_opts();
        a.frozen_lockfile = f;
        b.frozen_lockfile = f;
        a.no_frozen_lockfile = n;
        b.no_frozen_lockfile = n;
        a.prefer_frozen_lockfile = p;
        b.prefer_frozen_lockfile = p;
        let over = request_from_opts(a).unwrap().frozen_lockfile.override_flag();
        let (_, options) = beam_nif::options_from_nif(b, resolved("/a")).unwrap();
        let expected = match over {
            Some(FrozenOverride::Frozen) => FrozenMode::Frozen,
            Some(FrozenOverride::No) => FrozenMode::No,
            Some(FrozenOverride::Prefer) | None => FrozenMode::Prefer,
        };
        assert_eq!(options.frozen_mode, expected);
        assert_eq!(options.strict_no_lockfile, over == Some(FrozenOverride::Frozen));
    }
}

#[test]
fn counts_set_flags() {
    assert_eq!(count_set_flags([false, false, false]), 0);
    assert_eq!(count_set_flags([false, true, false]), 1);
    assert_eq!(count_set_flags([true, false, true]), 2);
    assert_eq!(count_set_flags([true, true, true]), 3);
}

#[test]
fn reply_shows_non_utf8_dir_lossily() {
    let r = install_reply(Ok(InstallOutcome { project_dir: b"/caf\xe9".to_vec(), duration_ms: 1 }))
        .unwrap();
    assert_eq!(r.project_dir, "/caf\u{fffd}");
    let r = beam_nif::install_result(b"/x\xff".to_vec(), 1);
    assert_eq!(r.project_dir, "/x\u{fffd}");
}

#[test]
fn native_request_holds_cwd_bytes() {
    let mut o = native_opts();
    o.cwd = "caf\u{e9}".to_string();
    let r = request_from_opts(o).unwrap();
    assert_eq!(r.project_dir, "caf\u{e9}".as_bytes().to_vec());
}
