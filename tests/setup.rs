use add_netns::errors::{
    classify_registry_errno, InterfaceError, RegistryError, SetupError, EACCES, EEXIST, EINVAL,
    ENODEV, ENOENT, EPERM,
};
use add_netns::invocation::{
    is_valid_ns_name, netns_path, parse_args, usage, usage_exit_code, Invocation,
};
use add_netns::prep_for_fork;
use add_netns::session::{
    advance, event_for_failure, pending_action, Action, Event, NamespaceSession, Stage,
};
use add_netns::supervisor::{run_parent, ChildStatus, SIGABRT};

fn drive(events: &[Event]) -> (NamespaceSession, Vec<Action>) {
    let mut s = NamespaceSession::new("blue");
    let mut acts = vec![s.action()];
    for e in events {
        acts.push(s.record(*e));
    }
    (s, acts)
}

fn args(v: &[&str]) -> Vec<String> {
    v.iter().map(|a| a.to_string()).collect()
}

#[test]
fn one_argument_asks_for_setup() {
    let inv = parse_args(&args(&["add_netns", "blue"]));
    assert_eq!(inv, Invocation::Setup { name: "blue".to_string() });
    assert_eq!(usage_exit_code(&inv), None);
}

#[test]
fn no_argument_prints_usage_and_exits_zero() {
    let inv = parse_args(&args(&["add_netns"]));
    assert_eq!(inv, Invocation::Usage);
    assert_eq!(usage_exit_code(&inv), Some(0));
    assert_eq!(usage(), "usage: add_netns <ns_name>");
}

#[test]
fn two_arguments_print_usage_and_exit_zero() {
    let inv = parse_args(&args(&["add_netns", "a", "b"]));
    assert_eq!(inv, Invocation::Usage);
    assert_eq!(usage_exit_code(&inv), Some(0));
    assert_eq!(parse_args(&Vec::new()), Invocation::Usage);
}

#[test]
fn namespace_path_is_under_registry_directory() {
    assert_eq!(netns_path("blue"), "/run/netns/blue");
    assert_eq!(netns_path(""), "/run/netns/");
}

#[test]
fn errno_classification() {
    assert_eq!(classify_registry_errno(EEXIST), RegistryError::AlreadyExists);
    assert_eq!(classify_registry_errno(ENOENT), RegistryError::NotFound);
    assert_eq!(classify_registry_errno(EACCES), RegistryError::PermissionDenied);
    assert_eq!(classify_registry_errno(EPERM), RegistryError::PermissionDenied);
    assert_eq!(classify_registry_errno(22), RegistryError::Other { errno: 22 });
}

#[test]
fn full_run_brings_loopback_up() {
    let (s, acts) = drive(&[
        Event::Absent,
        Event::Done,
        Event::Done,
        Event::Done,
        Event::Done,
        Event::Done,
        Event::SysFlags { readonly: true },
        Event::Done,
        Event::Done,
        Event::Link { index: 1 },
        Event::Done,
    ]);
    assert_eq!(
        acts,
        vec![
            Action::CheckRegistered,
            Action::CreateNamespace,
            Action::OpenHandle,
            Action::EnterNamespace,
            Action::UnshareMounts,
            Action::MakeMountsPrivate,
            Action::StatSys,
            Action::UnmountSys,
            Action::MountSys { readonly: true },
            Action::ResolveLoopback,
            Action::SetLinkUp { index: 1 },
            Action::ExitSuccess,
        ]
    );
    assert_eq!(s.stage(), Stage::LoopbackUp);
    assert!(s.is_finished());
}

#[test]
fn writable_sys_is_remounted_writable() {
    let s = advance(Stage::MountIsolated, Event::SysFlags { readonly: false });
    let s = advance(s, Event::Done);
    assert_eq!(pending_action(s), Action::MountSys { readonly: false });
}

#[test]
fn second_create_of_a_name_is_refused() {
    let (s, acts) = drive(&[Event::Exists, Event::Done]);
    let err = SetupError::Registry(RegistryError::AlreadyExists);
    assert_eq!(s.stage(), Stage::Aborted { error: err });
    assert!(!acts.contains(&Action::CreateNamespace));
    let after = advance(Stage::NameFree, Event::Failed { errno: EEXIST });
    assert_eq!(after, Stage::Aborted { error: err });
}

#[test]
fn open_failures_are_classified() {
    let s = advance(Stage::Registered, Event::Failed { errno: ENOENT });
    assert_eq!(s, Stage::Aborted { error: SetupError::Registry(RegistryError::NotFound) });
    let s = advance(Stage::Registered, Event::Failed { errno: EACCES });
    assert_eq!(
        s,
        Stage::Aborted { error: SetupError::Registry(RegistryError::PermissionDenied) }
    );
}

#[test]
fn failed_switch_aborts() {
    let s = advance(Stage::HandleOpen, Event::Failed { errno: EPERM });
    assert_eq!(s, Stage::Aborted { error: SetupError::Transition });
    assert_eq!(pending_action(s), Action::Abort);
}

#[test]
fn failed_unshare_attempts_no_mount() {
    let (s, acts) = drive(&[
        Event::Absent,
        Event::Done,
        Event::Done,
        Event::Done,
        Event::Failed { errno: EPERM },
        Event::Done,
        Event::Done,
    ]);
    assert_eq!(s.stage(), Stage::Aborted { error: SetupError::Isolation });
    assert!(!acts.iter().any(|a| matches!(
        a,
        Action::MakeMountsPrivate | Action::StatSys | Action::UnmountSys | Action::MountSys { .. }
    )));
    assert_eq!(acts.last(), Some(&Action::Abort));
}

#[test]
fn failed_private_mark_is_tolerated() {
    let s = advance(Stage::Unshared, Event::Failed { errno: 22 });
    assert_eq!(s, Stage::MountIsolated);
    assert_eq!(pending_action(s), Action::StatSys);
}

#[test]
fn missing_sys_is_skipped() {
    let s = advance(Stage::MountIsolated, Event::Absent);
    assert_eq!(s, Stage::SysSettled { remounted: false });
    let s = advance(s, Event::Link { index: 1 });
    let s = advance(s, Event::Done);
    assert_eq!(s, Stage::LoopbackUp);
    let s = advance(Stage::SysInspected { readonly: true }, Event::Absent);
    assert_eq!(s, Stage::SysSettled { remounted: false });
}

#[test]
fn failed_sys_swap_aborts() {
    let s = advance(Stage::SysUnmounted { readonly: false }, Event::Failed { errno: 16 });
    assert_eq!(s, Stage::Aborted { error: SetupError::Remount });
    let s = advance(Stage::MountIsolated, Event::Failed { errno: 5 });
    assert_eq!(s, Stage::Aborted { error: SetupError::Remount });
}

#[test]
fn missing_loopback_aborts() {
    let s = advance(Stage::SysSettled { remounted: true }, Event::Absent);
    assert_eq!(
        s,
        Stage::Aborted { error: SetupError::Interface(InterfaceError::InterfaceNotFound) }
    );
    let s = advance(Stage::LoopbackResolved { index: 1 }, Event::Failed { errno: 105 });
    assert_eq!(
        s,
        Stage::Aborted { error: SetupError::Interface(InterfaceError::ControlChannelError) }
    );
}

#[test]
fn unexpected_event_aborts() {
    let s = advance(Stage::Created, Event::Done);
    assert_eq!(s, Stage::Aborted { error: SetupError::Protocol });
}

#[test]
fn final_stages_stay() {
    assert_eq!(advance(Stage::LoopbackUp, Event::Failed { errno: 1 }), Stage::LoopbackUp);
    let a = Stage::Aborted { error: SetupError::Isolation };
    assert_eq!(advance(a, Event::Done), a);
}

#[test]
fn parent_reports_child_outcome() {
    assert_eq!(run_parent(ChildStatus::Exited { code: 0 }), Ok(()));
    assert_eq!(
        run_parent(ChildStatus::Exited { code: 1 }),
        Err(SetupError::ChildFailed { code: 1 })
    );
    assert_eq!(
        run_parent(ChildStatus::Signaled { signal: SIGABRT }),
        Err(SetupError::ChildSignaled { signal: 6 })
    );
    assert_eq!(run_parent(ChildStatus::Other), Err(SetupError::ChildStatusUnknown));
    assert_eq!(run_parent(ChildStatus::WaitFailed { errno: 10 }), Err(SetupError::Wait));
}

#[test]
fn nothing_to_prepare_before_fork() {
    assert_eq!(prep_for_fork(), Ok(()));
}

#[test]
fn name_validity() {
    assert!(is_valid_ns_name("blue"));
    assert!(is_valid_ns_name("..."));
    assert!(is_valid_ns_name(".hidden"));
    assert!(is_valid_ns_name("a.."));
    assert!(is_valid_ns_name("réseau"));
    assert!(!is_valid_ns_name(""));
    assert!(!is_valid_ns_name("."));
    assert!(!is_valid_ns_name(".."));
    assert!(!is_valid_ns_name("a/b"));
    assert!(!is_valid_ns_name("/"));
    assert!(!is_valid_ns_name("a\0b"));
}

#[test]
fn invalid_name_aborts_before_registry() {
    let mut s = NamespaceSession::new("../etc");
    assert_eq!(s.stage(), Stage::Aborted { error: SetupError::Registry(RegistryError::InvalidName) });
    assert!(s.is_finished());
    assert_eq!(s.action(), Action::Abort);
    assert_eq!(s.record(Event::Absent), Action::Abort);
    let s = NamespaceSession::new("");
    assert_eq!(s.action(), Action::Abort);
}

#[test]
fn absence_errors_become_absent() {
    assert_eq!(event_for_failure(Action::StatSys, ENOENT), Event::Absent);
    assert_eq!(event_for_failure(Action::UnmountSys, EINVAL), Event::Absent);
    assert_eq!(event_for_failure(Action::ResolveLoopback, ENODEV), Event::Absent);
    assert_eq!(event_for_failure(Action::StatSys, EACCES), Event::Failed { errno: EACCES });
    assert_eq!(event_for_failure(Action::MountSys { readonly: false }, EINVAL), Event::Failed { errno: EINVAL });
    assert_eq!(event_for_failure(Action::OpenHandle, ENOENT), Event::Failed { errno: ENOENT });
}
