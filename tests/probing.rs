use std::str::FromStr;

use target_tuples::Target;
use toolprobe::locate::{Entry, LocateError, PathSearch, SearchAction};
use toolprobe::session::{
    Attempt, CrateKind, Phase, ProbeAction, ProbeError, ProbeEvent, ProbeSession,
    RustcTestsResult, DEFAULT_FLAGS,
};
use toolprobe::target::TargetNames;
use toolprobe::version::RustcChannel;

fn names(exact: &str, canonical: &str, normalized: &str) -> TargetNames {
    TargetNames {
        exact: exact.to_string(),
        canonical: canonical.to_string(),
        normalized: normalized.to_string(),
    }
}

fn windows() -> TargetNames {
    names("x86_64-pc-windows-msvc", "x86_64-pc-windows-msvc", "x86_64-unknown-windows-msvc")
}

fn ok(stdout: &str) -> ProbeEvent {
    ProbeEvent::Exited { success: true, stdout: stdout.to_string() }
}

fn refused() -> ProbeEvent {
    ProbeEvent::Exited { success: false, stdout: String::new() }
}

const WINDOWS_NAMES: &str =
    "comptest.exe\nlibcomptest.rlib\ncomptest.dll\ncomptest.lib\ncomptest.dll\ncomptest.dll\n";
const LINUX_NAMES: &str = "comptest\nlibcomptest.rlib\nlibcomptest.so\nlibcomptest.a\nlibcomptest.so\nlibcomptest.so\n";

fn file_names_target(a: &ProbeAction) -> Option<String> {
    match a {
        ProbeAction::PrintFileNames { target, .. } => target.clone(),
        _ => panic!("expected a file-name query"),
    }
}

fn compile_of(a: &ProbeAction) -> (Vec<String>, CrateKind, String, bool) {
    match a {
        ProbeAction::Compile { args, kind, output, freestanding } => {
            (args.clone(), *kind, output.clone(), *freestanding)
        }
        _ => panic!("expected a compilation"),
    }
}

fn finished(a: ProbeAction) -> RustcTestsResult {
    match a {
        ProbeAction::Finish(r) => r,
        _ => panic!("expected a finished session"),
    }
}

fn resolved_native() -> ProbeSession {
    let (mut s, first) =
        ProbeSession::start("/usr/bin/rustc".to_string(), "rustc", DEFAULT_FLAGS.to_string(), windows(), false);
    assert_eq!(file_names_target(&first), Some("x86_64-pc-windows-msvc".to_string()));
    assert!(matches!(s.step(ok(WINDOWS_NAMES)), ProbeAction::QueryVersion));
    s
}

#[test]
fn native_session_end_to_end() {
    let mut s = resolved_native();
    assert_eq!(s.flags, "-O -g --target x86_64-pc-windows-msvc");
    let (args, kind, output, freestanding) = compile_of(&s.step(ok("rustc 1.70.0\n")));
    assert_eq!(args, vec!["-O", "-g", "--target", "x86_64-pc-windows-msvc"]);
    assert_eq!(kind, CrateKind::Bin);
    assert_eq!(output, "comptest.exe");
    assert!(!freestanding);
    match s.step(ok("")) {
        ProbeAction::Execute { output } => assert_eq!(output, "comptest.exe"),
        _ => panic!("a native binary is run"),
    }
    let r = finished(s.step(ok("")));
    assert_eq!(r.rustc, "/usr/bin/rustc");
    assert!(!r.no_std);
    assert_eq!(r.version.channel, RustcChannel::Stable);
    assert_eq!(r.version.prgname, "rustc");
    assert_eq!(r.target_info.exe_suffix, ".exe");
    assert_eq!(r.target_info.target, "x86_64-pc-windows-msvc");
    assert_eq!(r.rustflags, vec!["-O", "-g", "--target", "x86_64-pc-windows-msvc"]);
    assert_eq!(s.phase, Phase::Finished);
}

#[test]
fn fallback_order_then_unsupported() {
    let (mut s, _) = ProbeSession::start("rustc".to_string(), "rustc", "-O".to_string(), windows(), false);
    let a = s.step(refused());
    assert_eq!(file_names_target(&a), Some("x86_64-pc-windows-msvc".to_string()));
    assert_eq!(s.phase, Phase::Resolving(Attempt::Canonical));
    let a = s.step(refused());
    assert_eq!(file_names_target(&a), Some("x86_64-unknown-windows-msvc".to_string()));
    match s.step(refused()) {
        ProbeAction::Fail(ProbeError::TargetUnsupported { target, compiler }) => {
            assert_eq!(target, "x86_64-pc-windows-msvc");
            assert_eq!(compiler, "rustc");
        }
        _ => panic!("every attempt was refused"),
    }
    assert_eq!(s.flags, "-O");
}

#[test]
fn normalized_attempt_is_recorded() {
    let (mut s, _) = ProbeSession::start("rustc".to_string(), "rustc", "-O".to_string(), windows(), false);
    s.step(refused());
    s.step(refused());
    assert!(matches!(s.step(ok(WINDOWS_NAMES)), ProbeAction::QueryVersion));
    assert_eq!(s.flags, "-O --target x86_64-unknown-windows-msvc");
    assert_eq!(s.target_info.as_ref().unwrap().target, "x86_64-unknown-windows-msvc");
}

#[test]
fn self_named_compiler_needs_no_target() {
    let t = names("aarch64-linux-gnu", "aarch64-unknown-linux-gnu", "aarch64-unknown-linux-gnu");
    let (mut s, first) =
        ProbeSession::start("/opt/aarch64-linux-gnu-gccrs".to_string(), "aarch64-linux-gnu-gccrs", "-O -g".to_string(), t, true);
    assert_eq!(file_names_target(&first), None);
    assert_eq!(s.phase, Phase::Resolving(Attempt::SelfNamed));
    assert!(matches!(s.step(ok(LINUX_NAMES)), ProbeAction::QueryVersion));
    assert_eq!(s.flags, "-O -g");
    assert_eq!(s.target_info.as_ref().unwrap().target, "aarch64-linux-gnu");
}

#[test]
fn self_named_refusal_ends_the_session() {
    let t = names("aarch64-linux-gnu", "aarch64-unknown-linux-gnu", "aarch64-unknown-linux-gnu");
    let (mut s, _) = ProbeSession::start("c".to_string(), "aarch64-linux-gnu-gccrs", "-O".to_string(), t, true);
    assert!(matches!(s.step(refused()), ProbeAction::Fail(ProbeError::TargetUnsupported { .. })));
}

#[test]
fn freestanding_fallback_gives_no_std() {
    let mut s = resolved_native();
    s.step(ok("rustc 1.70.0\n"));
    let (_, kind, output, freestanding) = compile_of(&s.step(refused()));
    assert_eq!(kind, CrateKind::Rlib);
    assert_eq!(output, "libcomptest.rlib");
    assert!(freestanding);
    let r = finished(s.step(ok("")));
    assert!(r.no_std);
}

#[test]
fn freestanding_failure_is_fatal() {
    let mut s = resolved_native();
    s.step(ok("rustc 1.70.0\n"));
    s.step(refused());
    assert!(matches!(s.step(refused()), ProbeAction::Fail(ProbeError::CannotCompile { .. })));
}

#[test]
fn cross_session_never_runs_the_binary() {
    let (mut s, _) = ProbeSession::start("rustc".to_string(), "rustc", "-O".to_string(), windows(), true);
    s.step(ok(WINDOWS_NAMES));
    s.step(ok("rustc 1.70.0-beta\n"));
    let r = finished(s.step(ok("")));
    assert!(!r.no_std);
    assert_eq!(r.version.channel, RustcChannel::Beta);
}

#[test]
fn failed_run_is_reported() {
    let mut s = resolved_native();
    s.step(ok("rustc 1.70.0\n"));
    s.step(ok(""));
    match s.step(refused()) {
        ProbeAction::Fail(ProbeError::CannotExecute { compiler }) => assert_eq!(compiler, "/usr/bin/rustc"),
        _ => panic!("the binary failed"),
    }
}

#[test]
fn missing_file_names_are_reported() {
    let (mut s, _) = ProbeSession::start("rustc".to_string(), "rustc", "-O".to_string(), windows(), false);
    assert!(matches!(s.step(ok("comptest\n")), ProbeAction::Fail(ProbeError::FileNamesUnknown { .. })));
}

#[test]
fn unreadable_version_is_reported() {
    let mut s = resolved_native();
    assert!(matches!(s.step(ok("")), ProbeAction::Fail(ProbeError::VersionUnknown { .. })));
    let mut s = resolved_native();
    assert!(matches!(s.step(ok("rustc one\n")), ProbeAction::Fail(ProbeError::VersionUnknown { .. })));
}

#[test]
fn launch_failure_stops_at_once() {
    let (mut s, _) = ProbeSession::start("rustc".to_string(), "rustc", "-O".to_string(), windows(), false);
    assert!(matches!(s.step(ProbeEvent::LaunchFailed), ProbeAction::Fail(ProbeError::LaunchFailed)));
    assert_eq!(s.phase, Phase::Finished);
}

#[test]
fn search_goes_directory_by_directory() {
    let (mut s, a) = PathSearch::start(2, 2);
    assert!(matches!(a, SearchAction::InspectCandidate { dir: 0, name: 0 }));
    assert!(matches!(s.step(Entry::Missing), SearchAction::InspectCandidate { dir: 0, name: 1 }));
    assert!(matches!(s.step(Entry::Missing), SearchAction::InspectCandidate { dir: 1, name: 0 }));
    match s.step(Entry::Link("/opt/bin/rustc".to_string())) {
        SearchAction::InspectPath(p) => assert_eq!(p, "/opt/bin/rustc"),
        _ => panic!("links are followed"),
    }
    assert!(matches!(s.step(Entry::Link("/opt/real/rustc".to_string())), SearchAction::InspectPath(_)));
    match s.step(Entry::File("/opt/real/rustc".to_string())) {
        SearchAction::Found(p) => assert_eq!(p, "/opt/real/rustc"),
        _ => panic!("the link's end is found"),
    }
}

#[test]
fn search_exhausted_or_empty() {
    let (mut s, _) = PathSearch::start(1, 2);
    s.step(Entry::Missing);
    assert!(matches!(s.step(Entry::Missing), SearchAction::Fail(LocateError::NotFound)));
    let (_, a) = PathSearch::start(0, 4);
    assert!(matches!(a, SearchAction::Fail(LocateError::NotFound)));
}

#[test]
fn broken_link_chain_fails() {
    let (mut s, _) = PathSearch::start(3, 1);
    s.step(Entry::Link("gone".to_string()));
    assert!(matches!(s.step(Entry::Missing), SearchAction::Fail(LocateError::Io)));
    let (mut s, _) = PathSearch::start(3, 1);
    assert!(matches!(s.step(Entry::Unreadable), SearchAction::Fail(LocateError::Io)));
}

#[test]
fn target_spellings() {
    let t = Target::from_str("x86_64-pc-linux-gnu").unwrap();
    let n = TargetNames::of(&t);
    assert_eq!(n.exact, "x86_64-pc-linux-gnu");
    assert_eq!(n.canonical, "x86_64-pc-linux-gnu");
    assert_eq!(n.normalized, "x86_64-unknown-linux-gnu");
    let t = Target::from_str("x86_64-linux-gnu").unwrap();
    let n = TargetNames::of(&t);
    assert_eq!(n.exact, "x86_64-linux-gnu");
    assert_eq!(n.canonical, "x86_64-pc-linux-gnu");
}
