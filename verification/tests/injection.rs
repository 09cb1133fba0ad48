use asdf_overlay::client::{
    connect, hook_installed, inject, wait_for_ipc, ConnectError, ConnectEvent, ConnectStage, Inject,
};
use asdf_overlay::helper::{exit_code, helper_dll, parse_args, ArgsError};
use asdf_overlay::injector::{
    filetime_to_u64, install_hook, process_arch, process_is_alive, select_dll, Action, Arch,
    CreationTimeError, ExitQuery, FindThread, IdentityError, InjectError, Injection, OverlayDll,
    Reply, TimesQuery, TopWindow, MACHINE_AMD64, MACHINE_ARM64, MACHINE_I386, MACHINE_UNKNOWN,
    STILL_ACTIVE,
};
use asdf_overlay::signature::{
    describe, unsigned_allowed, verify_signed, waived_notice, TrustCheck, Untrusted,
};
use core::time::Duration;

const AMD64: Reply = Reply::Machine { wow64: MACHINE_UNKNOWN, native: MACHINE_AMD64 };
const CREATED: Reply = Reply::Times(TimesQuery::Created { low: 5, high: 1 });

fn start(timeout: Option<Duration>) -> Injection<&'static str> {
    let dll = OverlayDll { x64: Some("x64.dll"), x86: Some("x86.dll"), arm64: None };
    install_hook(42, dll, timeout)
}

fn fed(timeout: Option<Duration>, replies: &[Reply]) -> Injection<&'static str> {
    let mut injection = start(timeout);
    for reply in replies {
        injection.advance(*reply);
    }
    injection
}

fn failure(timeout: Option<Duration>, replies: &[Reply]) -> InjectError {
    match fed(timeout, replies).action() {
        Action::Finish(Err(err)) => err,
        other => panic!("{other:?}"),
    }
}

#[test]
fn hook_is_installed_after_identity_check() {
    let mut injection = start(None);
    assert!(matches!(injection.action(), Action::QueryInjectorMachine));
    injection.advance(AMD64);
    assert!(matches!(injection.action(), Action::QueryTargetMachine { pid: 42, access: 0x1000 }));
    injection.advance(AMD64);
    assert!(matches!(injection.action(), Action::Verify("x64.dll")));
    injection.advance(Reply::Trusted);
    assert!(matches!(injection.action(), Action::LoadLibrary("x64.dll")));
    injection.advance(Reply::Done(true));
    assert!(matches!(injection.action(), Action::FindExport));
    injection.advance(Reply::Done(true));
    assert!(matches!(injection.action(), Action::FindWindow { pid: 42 }));
    injection.advance(Reply::Window(None));
    assert!(matches!(injection.action(), Action::QueryExit { pid: 42, access: 0x1000 }));
    injection.advance(Reply::Exit(ExitQuery::Code(STILL_ACTIVE)));
    assert!(matches!(injection.action(), Action::Sleep(100)));
    injection.advance(Reply::Slept);
    assert!(matches!(injection.action(), Action::FindWindow { pid: 42 }));
    injection.advance(Reply::Window(Some(7)));
    assert!(matches!(injection.action(), Action::QueryTimes { pid: 42, access: 0x1000 }));
    injection.advance(CREATED);
    assert!(matches!(injection.action(), Action::OpenThread { thread: 7, access: 0x800 }));
    injection.advance(Reply::Done(true));
    assert!(matches!(injection.action(), Action::QueryOwner));
    injection.advance(Reply::Owner(42));
    assert!(matches!(injection.action(), Action::QueryTimes { pid: 42, access: 0x1000 }));
    injection.advance(CREATED);
    assert!(matches!(injection.action(), Action::CloseThread));
    injection.advance(Reply::Closed);
    assert!(matches!(injection.action(), Action::SetHook { thread: 7, kind: 3 }));
    injection.advance(Reply::Done(true));
    assert!(matches!(injection.action(), Action::Post { thread: 7, message: 0 }));
    injection.advance(Reply::Posted);
    assert!(matches!(injection.action(), Action::Finish(Ok(()))));
}

#[test]
fn every_failure_has_its_error_and_its_text() {
    let minute = Duration::from_secs(60);
    let arm = Reply::Machine { wow64: MACHINE_UNKNOWN, native: MACHINE_ARM64 };
    let odd = Reply::Machine { wow64: 1, native: MACHINE_AMD64 };
    let ready = [AMD64, AMD64, Reply::Trusted, Reply::Done(true), Reply::Done(true)];
    let with = |more: &[Reply]| [&ready[..], more].concat();
    let found = |more: &[Reply]| with(&[&[Reply::Window(Some(7))], more].concat());
    let alive = Reply::Exit(ExitQuery::Code(STILL_ACTIVE));

    let texts = |err: InjectError| err.messages("C:/a.dll").join(" / ");
    let check = |timeout, replies: &[Reply], err: InjectError, text: &str| {
        assert_eq!(failure(timeout, replies), err);
        assert_eq!(texts(err), format!("failed to inject overlay DLL / {text}"));
    };
    check(
        None,
        &[AMD64, Reply::Unreachable],
        InjectError::Unreachable,
        "cannot open target process for arch query",
    );
    check(
        None,
        &[AMD64, arm],
        InjectError::CrossArch { injector: 34404, target: 43620 },
        "cross-arch injection (injector 34404, target 43620) requires a same-arch helper exe (not implemented)",
    );
    check(
        None,
        &[arm, arm],
        InjectError::DllMissing(Arch::Arm64),
        "arm64 dll path is not provided",
    );
    check(
        None,
        &[odd, odd],
        InjectError::UnsupportedArch(1),
        "Unsupported injector arch: 1",
    );
    let untrusted = Untrusted { status: 0x800b_0100u32 as i32 };
    check(
        None,
        &[AMD64, AMD64, Reply::Untrusted(untrusted)],
        InjectError::Untrusted(untrusted),
        "refusing to inject C:/a.dll: the file is not signed at all (a local build?) (WinVerifyTrust 0x800b0100). Only CI-signed binaries may be used against a Riot game; download the signed artifact from the deploy workflow.",
    );
    check(
        None,
        &[AMD64, AMD64, Reply::Trusted, Reply::Done(false)],
        InjectError::LoadLibrary,
        "failed to load overlay dll in injector process",
    );
    check(
        None,
        &[AMD64, AMD64, Reply::Trusted, Reply::Done(true), Reply::Done(false)],
        InjectError::ExportMissing,
        "overlay dll is missing the `msg_hook_proc` export",
    );
    check(
        None,
        &with(&[Reply::Window(None), Reply::Exit(ExitQuery::Failed)]),
        InjectError::ExitCode,
        "GetExitCodeProcess failed for target process",
    );
    for gone in [ExitQuery::Unreachable, ExitQuery::Code(0)] {
        check(
            None,
            &with(&[Reply::Window(None), Reply::Exit(gone)]),
            InjectError::Exited { pid: 42 },
            "target process 42 exited before creating a window",
        );
    }
    check(
        Some(minute),
        &with(&[Reply::ClockStarted, Reply::Window(None), alive, Reply::Deadline(true)]),
        InjectError::TimedOut { pid: 42, timeout: minute },
        "timed out after 60s waiting for a GUI thread (visible top-level window) in target process 42",
    );
    check(
        None,
        &found(&[Reply::Times(TimesQuery::Unreachable)]),
        InjectError::Discovery(CreationTimeError::Unreachable),
        "cannot read target process creation time for identity check / cannot open target process for creation-time query",
    );
    check(
        None,
        &found(&[Reply::Times(TimesQuery::Failed)]),
        InjectError::Discovery(CreationTimeError::Failed),
        "cannot read target process creation time for identity check / GetProcessTimes failed for target process",
    );
    let changed = "target process changed between discovery and injection; aborting";
    check(
        None,
        &found(&[CREATED, Reply::Done(false)]),
        InjectError::Changed(IdentityError::ThreadGone),
        &format!("{changed} / target GUI thread no longer exists"),
    );
    check(
        None,
        &found(&[CREATED, Reply::Done(true), Reply::Owner(0), Reply::Closed]),
        InjectError::Changed(IdentityError::OwnerUnknown),
        &format!("{changed} / cannot resolve owning process of target GUI thread"),
    );
    check(
        None,
        &found(&[CREATED, Reply::Done(true), Reply::Owner(9), Reply::Closed]),
        InjectError::Changed(IdentityError::OwnerChanged { owner: 9, pid: 42 }),
        &format!(
            "{changed} / target GUI thread now belongs to pid 9, expected 42 (pid recycled or thread reassigned)"
        ),
    );
    check(
        None,
        &found(&[CREATED, Reply::Done(true), Reply::Owner(42), Reply::Times(TimesQuery::Failed), Reply::Closed]),
        InjectError::Changed(IdentityError::CreationTime(CreationTimeError::Failed)),
        &format!(
            "{changed} / cannot re-read target creation time for identity check / GetProcessTimes failed for target process"
        ),
    );
    let other = Reply::Times(TimesQuery::Created { low: 5, high: 2 });
    check(
        None,
        &found(&[CREATED, Reply::Done(true), Reply::Owner(42), other, Reply::Closed]),
        InjectError::Changed(IdentityError::Recycled { pid: 42 }),
        &format!(
            "{changed} / target pid 42 was recycled (creation time changed) between discovery and injection"
        ),
    );
    check(
        None,
        &found(&[CREATED, Reply::Done(true), Reply::Owner(42), CREATED, Reply::Closed, Reply::Done(false)]),
        InjectError::SetHook,
        "SetWindowsHookExW failed",
    );
}

#[test]
fn clock_is_read_only_with_a_timeout() {
    let alive = Reply::Exit(ExitQuery::Code(STILL_ACTIVE));
    let ready = [AMD64, AMD64, Reply::Trusted, Reply::Done(true), Reply::Done(true)];
    let replies = [&ready[..], &[Reply::Window(None), alive]].concat();
    assert!(matches!(fed(None, &replies).action(), Action::Sleep(100)));
    // the clock starts with the wait for a window
    let timeout = Duration::from_millis(5);
    let mut limited = fed(Some(timeout), &ready);
    assert!(matches!(limited.action(), Action::StartClock(set) if set == timeout));
    limited.advance(Reply::ClockStarted);
    assert!(matches!(limited.action(), Action::FindWindow { pid: 42 }));
    limited.advance(Reply::Window(None));
    limited.advance(alive);
    assert!(matches!(limited.action(), Action::ReadClock));
    limited.advance(Reply::Deadline(false));
    assert!(matches!(limited.action(), Action::Sleep(100)));
}

#[test]
fn timeout_is_printed_as_a_duration() {
    for timeout in [Duration::from_millis(1500), Duration::from_nanos(7), Duration::from_secs(60)] {
        let err = InjectError::TimedOut { pid: 1, timeout };
        let text = format!(
            "timed out after {timeout:?} waiting for a GUI thread (visible top-level window) in target process 1"
        );
        assert_eq!(err.messages("")[1], text);
    }
}

#[test]
fn architecture_is_the_emulated_one() {
    assert_eq!(process_arch(MACHINE_I386, MACHINE_AMD64), MACHINE_I386);
    assert_eq!(process_arch(MACHINE_UNKNOWN, MACHINE_ARM64), MACHINE_ARM64);
    let dll = OverlayDll { x64: Some(1), x86: Some(2), arm64: Some(3) };
    assert_eq!(select_dll(MACHINE_AMD64, MACHINE_AMD64, dll), Ok(1));
    assert_eq!(select_dll(MACHINE_I386, MACHINE_I386, dll), Ok(2));
    assert_eq!(select_dll(MACHINE_ARM64, MACHINE_ARM64, dll), Ok(3));
    let none: OverlayDll<u8> = OverlayDll::default();
    assert_eq!(
        select_dll(MACHINE_AMD64, MACHINE_AMD64, none).err(),
        Some(InjectError::DllMissing(Arch::X64))
    );
    assert_eq!(
        select_dll(MACHINE_I386, MACHINE_I386, none).err(),
        Some(InjectError::DllMissing(Arch::X86))
    );
    let same = helper_dll("d");
    assert_eq!(select_dll(MACHINE_ARM64, MACHINE_ARM64, same), Ok("d"));
}

#[test]
fn file_times_and_exit_codes_are_read() {
    assert_eq!(filetime_to_u64(0x89ab_cdef, 0x0123_4567), 0x0123_4567_89ab_cdef);
    assert_eq!(process_is_alive(ExitQuery::Code(259)), Ok(true));
    assert_eq!(process_is_alive(ExitQuery::Code(1)), Ok(false));
    assert_eq!(process_is_alive(ExitQuery::Unreachable), Ok(false));
    assert_eq!(process_is_alive(ExitQuery::Failed), Err(InjectError::ExitCode));
}

#[test]
fn first_visible_window_of_the_target_is_found() {
    let windows = [
        TopWindow { thread: 1, pid: 8, visible: true },
        TopWindow { thread: 2, pid: 9, visible: false },
        TopWindow { thread: 0, pid: 9, visible: true },
        TopWindow { thread: 4, pid: 9, visible: true },
        TopWindow { thread: 5, pid: 9, visible: true },
    ];
    let mut search = FindThread::new(9);
    let mut seen = 0;
    for window in windows {
        seen += 1;
        if !search.visit(window) {
            break;
        }
    }
    assert_eq!((seen, search.found()), (4, Some(4)));

    let mut nothing = FindThread::new(10);
    assert!(windows.iter().all(|window| nothing.visit(*window)));
    assert_eq!(nothing.found(), None);
}

#[test]
fn signature_verdicts_are_told() {
    assert_eq!(describe(0x800b_0109u32 as i32), "the signing certificate does not chain to a trusted root");
    assert_eq!(describe(0x800b_010au32 as i32), "the certificate chain could not be built");
    assert_eq!(
        describe(0x8009_6010u32 as i32),
        "the signature does not match the file (tampered or truncated)"
    );
    assert_eq!(
        describe(0x800b_0111u32 as i32),
        "the publisher is explicitly distrusted on this machine"
    );
    assert_eq!(describe(0x8009_2026u32 as i32), "local security settings block this signature");
    assert_eq!(describe(5), "the Authenticode signature could not be verified");
    assert!(Untrusted { status: 5 }.message("p").contains("(WinVerifyTrust 0x00000005)."));
    assert!(Untrusted { status: -1 }.message("p").contains("(WinVerifyTrust 0xffffffff)."));
}

#[test]
fn verification_is_closed_and_decided_by_the_first_verdict() {
    let mut check = verify_signed(false);
    let TrustCheck::Verify(plan) = check else {
        panic!("{check:?}");
    };
    assert_eq!((plan.ui_choice, plan.union_choice, plan.provider_flags), (2, 1, 4096));
    assert_eq!((plan.revocation_checks, plan.state_action), (0, 1));
    check.advance(0);
    assert!(matches!(check, TrustCheck::Close { plan, status: 0 } if plan.state_action == 2));
    check.advance(77);
    assert_eq!(check, TrustCheck::Trusted);

    let mut check = verify_signed(false);
    check.advance(-3);
    check.advance(0);
    assert_eq!(check, TrustCheck::Refused(Untrusted { status: -3 }));
    assert_eq!(verify_signed(true), TrustCheck::Trusted);
    assert_eq!(
        waived_notice("a.dll"),
        "[signature] check waived by YOURGG_ALLOW_UNSIGNED (debug build): a.dll"
    );
}

#[test]
fn release_builds_always_verify() {
    assert!(unsigned_allowed(true, &Some("1".into())));
    assert!(unsigned_allowed(true, &Some(String::new())));
    assert!(!unsigned_allowed(true, &Some("0".into())));
    assert!(!unsigned_allowed(true, &None));
    assert!(!unsigned_allowed(false, &Some("1".into())));
}

#[test]
fn pipe_is_tried_until_it_is_there() {
    let mut wait = connect(true);
    for _ in 0..3 {
        assert_eq!(wait.stage, ConnectStage::OpenPipe);
        wait.advance(ConnectEvent::Done(false));
        assert_eq!(wait.stage, ConnectStage::Sleep(50));
        wait.advance(ConnectEvent::Done(true));
    }
    let mut late = wait;
    late.advance(ConnectEvent::Elapsed);
    assert_eq!(late.stage, ConnectStage::Failed(ConnectError::ClientTimeout));
    wait.advance(ConnectEvent::Done(true));
    assert_eq!(wait.stage, ConnectStage::Handshake);
    let mut refused = wait;
    refused.advance(ConnectEvent::Done(false));
    assert_eq!(refused.stage, ConnectStage::Failed(ConnectError::Handshake));
    wait.advance(ConnectEvent::Done(true));
    assert_eq!(wait.stage, ConnectStage::Reached);

    let mut probe = wait_for_ipc(false);
    probe.advance(ConnectEvent::Done(true));
    assert_eq!(probe.stage, ConnectStage::Reached);
    let mut probe = wait_for_ipc(true);
    probe.advance(ConnectEvent::Elapsed);
    assert_eq!(probe.stage, ConnectStage::Failed(ConnectError::ServerTimeout));

    assert_eq!(ConnectError::ClientTimeout.message(), Some("ipc client wait timeout"));
    assert_eq!(ConnectError::ServerTimeout.message(), Some("ipc server wait timeout"));
    assert_eq!(ConnectError::Handshake.message(), None);
}

#[test]
fn helper_reads_its_arguments() {
    assert_eq!(parse_args(Some("1234"), true), Ok(1234));
    assert_eq!(parse_args(Some("+1234"), true), Ok(1234));
    assert_eq!(parse_args(Some("0004294967295"), true), Ok(u32::MAX));
    for bad in ["", "+", "-1", "4294967296", "12a", " 1", "1_0", "++1", "١"] {
        assert_eq!(parse_args(Some(bad), true), Err(ArgsError::Pid), "{bad}");
    }
    assert_eq!(parse_args(None, true), Err(ArgsError::Usage));
    assert_eq!(parse_args(Some("1"), false), Err(ArgsError::Usage));
    assert_eq!(parse_args(Some("x"), false), Err(ArgsError::Pid));
    assert_eq!(ArgsError::Usage.message(), "usage: injector-helper <pid> <dll-path>");
    assert_eq!(ArgsError::Pid.message(), "invalid pid");
    assert_eq!((exit_code(true), exit_code(false)), (0, 1));
}

#[test]
fn overlay_is_attached_by_hook_and_connection() {
    let Inject::Installing(injection) = inject(42, helper_dll("d"), None) else {
        panic!("not installing");
    };
    assert!(matches!(injection.action(), Action::QueryInjectorMachine));
    let err = InjectError::SetHook;
    assert!(matches!(hook_installed::<u8>(Err(err), None), Inject::Failed(found) if found == err));
    let Inject::Connecting(wait) = hook_installed::<u8>(Ok(()), Some(Duration::ZERO)) else {
        panic!("not connecting");
    };
    assert!(wait.limited && wait.keep);
    let Inject::Connecting(wait) = hook_installed::<u8>(Ok(()), None) else {
        panic!("not connecting");
    };
    assert!(!wait.limited);
}
