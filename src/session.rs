use vstd::prelude::*;

use crate::errors::{
    classify_registry_errno, registry_error_of, InterfaceError, RegistryError, SetupError, EINVAL,
    ENODEV, ENOENT,
};
use crate::invocation::{is_valid_ns_name, valid_ns_name};

verus! {

/// How far the helper process has come in setting up the namespace.
///
/// Each stage fixes the one action that is pending; the stages only move
/// forward, and `LoopbackUp` and `Aborted` are final.
#[derive(Debug, Clone, Copy, PartialEq, Eq, Structural)]
pub enum Stage {
    /// Nothing done yet: the registry is to be asked for the name.
    Created,
    /// No namespace of that name is registered: it is to be created.
    NameFree,
    /// The namespace is registered: its handle is to be opened.
    Registered,
    /// The handle is open: the process is to switch into the namespace.
    HandleOpen,
    /// The process is in the namespace: its mount namespace is to be unshared.
    EnteredNamespace,
    /// A process-local mount namespace exists: it is to be made private.
    Unshared,
    /// Mounts no longer propagate: `/sys` is to be inspected.
    MountIsolated,
    /// `/sys` is mounted, read-only or not: it is to be unmounted.
    SysInspected { readonly: bool },
    /// The old `/sys` is gone: the namespace's own is to be mounted.
    SysUnmounted { readonly: bool },
    /// `/sys` was replaced, or skipped for want of one: `lo` is to be looked up.
    SysSettled { remounted: bool },
    /// `lo` has this index: it is to be set up.
    LoopbackResolved { index: u32 },
    /// The loopback device is up: the helper exits with success.
    LoopbackUp,
    /// A fatal error happened: the helper aborts.
    Aborted { error: SetupError },
}

/// What the helper process is to do next.
#[derive(Debug, Clone, Copy, PartialEq, Eq, Structural)]
pub enum Action {
    /// Find out whether the name is already registered.
    CheckRegistered,
    /// Create the namespace and persist it under the registry directory.
    CreateNamespace,
    /// Open the persisted namespace, read-only and close-on-exec.
    OpenHandle,
    /// Switch network namespace membership through the handle, then close it.
    EnterNamespace,
    /// Unshare the mount namespace.
    UnshareMounts,
    /// Mark `/` private and recursive.
    MakeMountsPrivate,
    /// Read the filesystem statistics of `/sys`.
    StatSys,
    /// Unmount `/sys`.
    UnmountSys,
    /// Mount a `sysfs` at `/sys` tagged with the namespace name.
    MountSys { readonly: bool },
    /// Open a control channel and look up the device named `lo`.
    ResolveLoopback,
    /// Set the device with this index administratively up.
    SetLinkUp { index: u32 },
    /// Terminate with exit code 0.
    ExitSuccess,
    /// Terminate at once with failure, attempting nothing more.
    Abort,
}

/// What came of the pending action.
#[derive(Debug, Clone, Copy, PartialEq, Eq, Structural)]
pub enum Event {
    /// The action completed.
    Done,
    /// The name looked up is already registered.
    Exists,
    /// What the action looked for is not there: the name is not registered,
    /// no `/sys` is mounted, or no device is named `lo`.
    Absent,
    /// `/sys` is mounted, and read-only or not.
    SysFlags { readonly: bool },
    /// The device named `lo` has this index.
    Link { index: u32 },
    /// The action failed with this operating-system error number.
    Failed { errno: i32 },
}

/// Where the session for a name starts.
pub open spec fn start_stage(name: Seq<char>) -> Stage {
    if valid_ns_name(name) {
        Stage::Created
    } else {
        Stage::Aborted { error: SetupError::Registry(RegistryError::InvalidName) }
    }
}

/// The action pending at a stage.
pub open spec fn action_of(s: Stage) -> Action {
    match s {
        Stage::Created => Action::CheckRegistered,
        Stage::NameFree => Action::CreateNamespace,
        Stage::Registered => Action::OpenHandle,
        Stage::HandleOpen => Action::EnterNamespace,
        Stage::EnteredNamespace => Action::UnshareMounts,
        Stage::Unshared => Action::MakeMountsPrivate,
        Stage::MountIsolated => Action::StatSys,
        Stage::SysInspected { .. } => Action::UnmountSys,
        Stage::SysUnmounted { readonly } => Action::MountSys { readonly },
        Stage::SysSettled { .. } => Action::ResolveLoopback,
        Stage::LoopbackResolved { index } => Action::SetLinkUp { index },
        Stage::LoopbackUp => Action::ExitSuccess,
        Stage::Aborted { .. } => Action::Abort,
    }
}

/// The stage reached from `s` when its pending action ends with `e`.
///
/// Failing to mark the mounts private is tolerated; a missing `/sys` skips the
/// swap; every other failure aborts. An event that does not answer the pending
/// action aborts too. The final stages keep still.
pub open spec fn next_stage(s: Stage, e: Event) -> Stage {
    match s {
        Stage::Created => match e {
            Event::Absent => Stage::NameFree,
            Event::Exists => Stage::Aborted {
                error: SetupError::Registry(RegistryError::AlreadyExists),
            },
            Event::Failed { errno } => Stage::Aborted {
                error: SetupError::Registry(registry_error_of(errno)),
            },
            _ => Stage::Aborted { error: SetupError::Protocol },
        },
        Stage::NameFree => match e {
            Event::Done => Stage::Registered,
            Event::Failed { errno } => Stage::Aborted {
                error: SetupError::Registry(registry_error_of(errno)),
            },
            _ => Stage::Aborted { error: SetupError::Protocol },
        },
        Stage::Registered => match e {
            Event::Done => Stage::HandleOpen,
            Event::Failed { errno } => Stage::Aborted {
                error: SetupError::Registry(registry_error_of(errno)),
            },
            _ => Stage::Aborted { error: SetupError::Protocol },
        },
        Stage::HandleOpen => match e {
            Event::Done => Stage::EnteredNamespace,
            Event::Failed { .. } => Stage::Aborted { error: SetupError::Transition },
            _ => Stage::Aborted { error: SetupError::Protocol },
        },
        Stage::EnteredNamespace => match e {
            Event::Done => Stage::Unshared,
            Event::Failed { .. } => Stage::Aborted { error: SetupError::Isolation },
            _ => Stage::Aborted { error: SetupError::Protocol },
        },
        Stage::Unshared => match e {
            Event::Done => Stage::MountIsolated,
            Event::Failed { .. } => Stage::MountIsolated,
            _ => Stage::Aborted { error: SetupError::Protocol },
        },
        Stage::MountIsolated => match e {
            Event::SysFlags { readonly } => Stage::SysInspected { readonly },
            Event::Absent => Stage::SysSettled { remounted: false },
            Event::Failed { .. } => Stage::Aborted { error: SetupError::Remount },
            _ => Stage::Aborted { error: SetupError::Protocol },
        },
        Stage::SysInspected { readonly } => match e {
            Event::Done => Stage::SysUnmounted { readonly },
            Event::Absent => Stage::SysSettled { remounted: false },
            Event::Failed { .. } => Stage::Aborted { error: SetupError::Remount },
            _ => Stage::Aborted { error: SetupError::Protocol },
        },
        Stage::SysUnmounted { .. } => match e {
            Event::Done => Stage::SysSettled { remounted: true },
            Event::Failed { .. } => Stage::Aborted { error: SetupError::Remount },
            _ => Stage::Aborted { error: SetupError::Protocol },
        },
        Stage::SysSettled { .. } => match e {
            Event::Link { index } => Stage::LoopbackResolved { index },
            Event::Absent => Stage::Aborted {
                error: SetupError::Interface(InterfaceError::InterfaceNotFound),
            },
            Event::Failed { .. } => Stage::Aborted {
                error: SetupError::Interface(InterfaceError::ControlChannelError),
            },
            _ => Stage::Aborted { error: SetupError::Protocol },
        },
        Stage::LoopbackResolved { .. } => match e {
            Event::Done => Stage::LoopbackUp,
            Event::Failed { .. } => Stage::Aborted {
                error: SetupError::Interface(InterfaceError::ControlChannelError),
            },
            _ => Stage::Aborted { error: SetupError::Protocol },
        },
        Stage::LoopbackUp => Stage::LoopbackUp,
        Stage::Aborted { error } => Stage::Aborted { error },
    }
}

/// The position of a stage in the setup sequence; the final stages rank highest.
pub open spec fn rank(s: Stage) -> nat {
    match s {
        Stage::Created => 0,
        Stage::NameFree => 1,
        Stage::Registered => 2,
        Stage::HandleOpen => 3,
        Stage::EnteredNamespace => 4,
        Stage::Unshared => 5,
        Stage::MountIsolated => 6,
        Stage::SysInspected { .. } => 7,
        Stage::SysUnmounted { .. } => 8,
        Stage::SysSettled { .. } => 9,
        Stage::LoopbackResolved { .. } => 10,
        Stage::LoopbackUp => 11,
        Stage::Aborted { .. } => 11,
    }
}

/// Whether a stage is final.
pub open spec fn is_final(s: Stage) -> bool {
    s is LoopbackUp || s is Aborted
}

/// The stage reached from `s` after the events `es`, in order.
pub open spec fn run(s: Stage, es: Seq<Event>) -> Stage
    decreases es.len(),
{
    if es.len() == 0 {
        s
    } else {
        run(next_stage(s, es[0]), es.drop_first())
    }
}

/// The actions requested after each of the events `es`, starting from `s`.
pub open spec fn trace(s: Stage, es: Seq<Event>) -> Seq<Action>
    decreases es.len(),
{
    if es.len() == 0 {
        Seq::empty()
    } else {
        let t = next_stage(s, es[0]);
        seq![action_of(t)] + trace(t, es.drop_first())
    }
}

/// Whether an action touches the mount table.
pub open spec fn is_mount_action(a: Action) -> bool {
    a is MakeMountsPrivate || a is UnmountSys || a is MountSys
}

/// A final stage stays as it is whatever events follow, and keeps asking for
/// its own action only.
pub proof fn lemma_final_stage_absorbs(s: Stage, es: Seq<Event>)
    requires
        is_final(s),
    ensures
        run(s, es) == s,
        trace(s, es).len() == es.len(),
        forall|i: int| 0 <= i < es.len() ==> #[trigger] trace(s, es)[i] == action_of(s),
    decreases es.len(),
{
    if es.len() > 0 {
        lemma_final_stage_absorbs(s, es.drop_first());
        assert forall|i: int| 0 <= i < es.len() implies #[trigger] trace(s, es)[i] == action_of(s) by {
            if i > 0 {
                assert(trace(s, es)[i] == trace(s, es.drop_first())[i - 1]);
            }
        }
    }
}

/// A session for a name that is no single path component asks for nothing but
/// to abort: the registry is never touched.
pub proof fn lemma_invalid_name_touches_nothing(name: Seq<char>, es: Seq<Event>)
    requires
        !valid_ns_name(name),
    ensures
        action_of(start_stage(name)) == Action::Abort,
        run(start_stage(name), es) == start_stage(name),
        forall|i: int| 0 <= i < es.len() ==> #[trigger] trace(start_stage(name), es)[i] == Action::Abort,
{
    lemma_final_stage_absorbs(start_stage(name), es);
}

/// When the mount namespace cannot be unshared, the helper aborts with an
/// isolation error and, whatever happens afterwards, attempts no mount
/// operation: it only ever asks to abort.
pub proof fn lemma_unshare_failure_aborts(errno: i32, es: Seq<Event>)
    ensures
        next_stage(Stage::EnteredNamespace, Event::Failed { errno })
            == (Stage::Aborted { error: SetupError::Isolation }),
        action_of(next_stage(Stage::EnteredNamespace, Event::Failed { errno })) == Action::Abort,
        run(Stage::EnteredNamespace, seq![Event::Failed { errno }] + es)
            == (Stage::Aborted { error: SetupError::Isolation }),
        forall|i: int|
            0 <= i < trace(Stage::EnteredNamespace, seq![Event::Failed { errno }] + es).len()
                ==> #[trigger] trace(Stage::EnteredNamespace, seq![Event::Failed { errno }] + es)[i]
                == Action::Abort,
{
    let s = Stage::Aborted { error: SetupError::Isolation };
    let all = seq![Event::Failed { errno }] + es;
    assert(all.drop_first() =~= es);
    lemma_final_stage_absorbs(s, es);
    assert forall|i: int| 0 <= i < trace(Stage::EnteredNamespace, all).len() implies
        #[trigger] trace(Stage::EnteredNamespace, all)[i] == Action::Abort by {
        if i > 0 {
            assert(trace(Stage::EnteredNamespace, all)[i] == trace(s, es)[i - 1]);
        }
    }
}

/// When no `/sys` is mounted, found so either when it is inspected or when it
/// is unmounted, the swap is skipped, no `sysfs` is mounted, and the setup
/// still ends in success once the loopback device is found and set up.
pub proof fn lemma_missing_sys_tolerated(readonly: bool, index: u32)
    ensures
        run(Stage::MountIsolated, seq![Event::Absent, Event::Link { index }, Event::Done])
            == Stage::LoopbackUp,
        run(
            Stage::SysInspected { readonly },
            seq![Event::Absent, Event::Link { index }, Event::Done],
        ) == Stage::LoopbackUp,
        trace(Stage::MountIsolated, seq![Event::Absent, Event::Link { index }, Event::Done])
            == seq![
                Action::ResolveLoopback,
                Action::SetLinkUp { index },
                Action::ExitSuccess,
            ],
        trace(
            Stage::SysInspected { readonly },
            seq![Event::Absent, Event::Link { index }, Event::Done],
        ) == seq![Action::ResolveLoopback, Action::SetLinkUp { index }, Action::ExitSuccess],
        action_of(Stage::LoopbackUp) == Action::ExitSuccess,
{
    let es = seq![Event::Absent, Event::Link { index }, Event::Done];
    let es1 = seq![Event::Link { index }, Event::Done];
    let es2 = seq![Event::Done];
    assert(es.drop_first() =~= es1);
    assert(es1.drop_first() =~= es2);
    assert(es2.drop_first() =~= Seq::<Event>::empty());
    let settled = Stage::SysSettled { remounted: false };
    let resolved = Stage::LoopbackResolved { index };
    assert(run(resolved, es2) == run(Stage::LoopbackUp, Seq::<Event>::empty()));
    assert(run(settled, es1) == run(resolved, es2));
    assert(run(Stage::MountIsolated, es) == run(settled, es1));
    assert(run(Stage::SysInspected { readonly }, es) == run(settled, es1));
    assert(trace(Stage::LoopbackUp, Seq::<Event>::empty()) =~= Seq::<Action>::empty());
    assert(trace(resolved, es2) =~= seq![Action::ExitSuccess]);
    assert(trace(settled, es1) =~= seq![Action::SetLinkUp { index }, Action::ExitSuccess]);
    assert(trace(Stage::MountIsolated, es) =~= seq![
        Action::ResolveLoopback,
        Action::SetLinkUp { index },
        Action::ExitSuccess,
    ]);
    assert(trace(Stage::SysInspected { readonly }, es) =~= seq![
        Action::ResolveLoopback,
        Action::SetLinkUp { index },
        Action::ExitSuccess,
    ]);
}

/// Whether an action replaces `/sys`.
pub open spec fn is_sys_swap_action(a: Action) -> bool {
    a is UnmountSys || a is MountSys
}

/// Every action of `acts` that `p` picks comes after some `UnshareMounts`.
pub open spec fn follows_unshare(acts: Seq<Action>, p: spec_fn(Action) -> bool) -> bool {
    forall|i: int|
        0 <= i < acts.len() && #[trigger] p(acts[i]) ==> exists|j: int|
            0 <= j < i && acts[j] == Action::UnshareMounts
}

/// Every action of `acts` that `p` picks comes after some `MakeMountsPrivate`.
pub open spec fn follows_private(acts: Seq<Action>, p: spec_fn(Action) -> bool) -> bool {
    forall|i: int|
        0 <= i < acts.len() && #[trigger] p(acts[i]) ==> exists|j: int|
            0 <= j < i && acts[j] == Action::MakeMountsPrivate
}

proof fn lemma_mounts_after_unshare_from(s: Stage, es: Seq<Event>)
    requires
        rank(s) <= 3,
        !is_final(s),
    ensures
        follows_unshare(trace(s, es), |a: Action| is_mount_action(a)),
    decreases es.len(),
{
    let p = |a: Action| is_mount_action(a);
    if es.len() > 0 {
        let t = next_stage(s, es[0]);
        let rest = es.drop_first();
        let acts = trace(s, es);
        assert(acts == seq![action_of(t)] + trace(t, rest));
        if is_final(t) {
            lemma_final_stage_absorbs(t, rest);
            assert forall|i: int| 0 <= i < acts.len() implies !#[trigger] p(acts[i]) by {
                if i > 0 {
                    assert(acts[i] == trace(t, rest)[i - 1]);
                }
            }
        } else if t == Stage::EnteredNamespace {
            assert forall|i: int| 0 <= i < acts.len() && #[trigger] p(acts[i]) implies exists|j: int|
                0 <= j < i && acts[j] == Action::UnshareMounts by {
                assert(acts[0] == Action::UnshareMounts);
            }
        } else {
            lemma_mounts_after_unshare_from(t, rest);
            assert forall|i: int| 0 <= i < acts.len() && #[trigger] p(acts[i]) implies exists|j: int|
                0 <= j < i && acts[j] == Action::UnshareMounts by {
                assert(acts[i] == trace(t, rest)[i - 1]);
                assert(p(trace(t, rest)[i - 1]));
                let j = choose|j: int| 0 <= j < i - 1 && trace(t, rest)[j] == Action::UnshareMounts;
                assert(acts[j + 1] == trace(t, rest)[j]);
            }
        }
    }
}

proof fn lemma_swap_after_private_from(s: Stage, es: Seq<Event>)
    requires
        rank(s) <= 4,
        !is_final(s),
    ensures
        follows_private(trace(s, es), |a: Action| is_sys_swap_action(a)),
    decreases es.len(),
{
    let p = |a: Action| is_sys_swap_action(a);
    if es.len() > 0 {
        let t = next_stage(s, es[0]);
        let rest = es.drop_first();
        let acts = trace(s, es);
        assert(acts == seq![action_of(t)] + trace(t, rest));
        if is_final(t) {
            lemma_final_stage_absorbs(t, rest);
            assert forall|i: int| 0 <= i < acts.len() implies !#[trigger] p(acts[i]) by {
                if i > 0 {
                    assert(acts[i] == trace(t, rest)[i - 1]);
                }
            }
        } else if t == Stage::Unshared {
            assert forall|i: int| 0 <= i < acts.len() && #[trigger] p(acts[i]) implies exists|j: int|
                0 <= j < i && acts[j] == Action::MakeMountsPrivate by {
                assert(acts[0] == Action::MakeMountsPrivate);
            }
        } else {
            lemma_swap_after_private_from(t, rest);
            assert forall|i: int| 0 <= i < acts.len() && #[trigger] p(acts[i]) implies exists|j: int|
                0 <= j < i && acts[j] == Action::MakeMountsPrivate by {
                assert(acts[i] == trace(t, rest)[i - 1]);
                assert(p(trace(t, rest)[i - 1]));
                let j = choose|j: int| 0 <= j < i - 1 && trace(t, rest)[j] == Action::MakeMountsPrivate;
                assert(acts[j + 1] == trace(t, rest)[j]);
            }
        }
    }
}

/// Whatever the outcomes of its actions, a session started afresh asks for no
/// mount operation before it has asked to unshare the mount namespace, which
/// it only does once the switch into the network namespace has succeeded;
/// and it asks to replace `/sys` only after it has asked to make the mounts
/// private.
pub proof fn lemma_setup_order(es: Seq<Event>)
    ensures
        follows_unshare(trace(Stage::Created, es), |a: Action| is_mount_action(a)),
        follows_private(trace(Stage::Created, es), |a: Action| is_sys_swap_action(a)),
        forall|s: Stage| #[trigger] action_of(s) == Action::UnshareMounts ==> s == Stage::EnteredNamespace,
        forall|s: Stage|
            next_stage(s, Event::Done) == Stage::EnteredNamespace ==> s == Stage::HandleOpen,
{
    lemma_mounts_after_unshare_from(Stage::Created, es);
    lemma_swap_after_private_from(Stage::Created, es);
}

/// A name that is already registered is refused with `AlreadyExists`, whether
/// the registry reports it before the creation or the creation fails on it;
/// nothing is created or overwritten afterwards and the helper aborts.
pub proof fn lemma_registered_name_refused(es: Seq<Event>)
    ensures
        run(Stage::Created, seq![Event::Exists] + es) == (Stage::Aborted {
            error: SetupError::Registry(RegistryError::AlreadyExists),
        }),
        run(Stage::NameFree, seq![Event::Failed { errno: crate::errors::EEXIST }] + es)
            == (Stage::Aborted {
            error: SetupError::Registry(RegistryError::AlreadyExists),
        }),
        forall|i: int|
            0 <= i < es.len() + 1 ==> #[trigger] trace(Stage::Created, seq![Event::Exists] + es)[i]
                == Action::Abort,
{
    let s = Stage::Aborted {
        error: SetupError::Registry(RegistryError::AlreadyExists),
    };
    let all = seq![Event::Exists] + es;
    assert(all.drop_first() =~= es);
    let all2 = seq![Event::Failed { errno: crate::errors::EEXIST }] + es;
    assert(all2.drop_first() =~= es);
    lemma_final_stage_absorbs(s, es);
    assert forall|i: int| 0 <= i < es.len() + 1 implies
        #[trigger] trace(Stage::Created, all)[i] == Action::Abort by {
        if i > 0 {
            assert(trace(Stage::Created, all)[i] == trace(s, es)[i - 1]);
        }
    }
}

/// A session ends in success only once the loopback device was asked to be set
/// up: either that is the action pending at `s`, or it was asked for on the way.
pub proof fn lemma_success_sets_loopback_up(s: Stage, es: Seq<Event>)
    requires
        !is_final(s),
        run(s, es) == Stage::LoopbackUp,
    ensures
        action_of(s) is SetLinkUp || exists|i: int|
            0 <= i < trace(s, es).len() && #[trigger] trace(s, es)[i] is SetLinkUp,
    decreases es.len(),
{
    if es.len() > 0 {
        let t = next_stage(s, es[0]);
        let rest = es.drop_first();
        let acts = trace(s, es);
        assert(acts == seq![action_of(t)] + trace(t, rest));
        if t == Stage::LoopbackUp {
        } else if is_final(t) {
            lemma_final_stage_absorbs(t, rest);
        } else {
            lemma_success_sets_loopback_up(t, rest);
            if action_of(t) is SetLinkUp {
                assert(acts[0] is SetLinkUp);
            } else {
                let i = choose|i: int|
                    0 <= i < trace(t, rest).len() && #[trigger] trace(t, rest)[i] is SetLinkUp;
                assert(acts[i + 1] == trace(t, rest)[i]);
            }
        }
    }
}

/// Whether an action ends the helper.
pub open spec fn is_exit_action(a: Action) -> bool {
    a is ExitSuccess || a is Abort
}

/// The rank of the stage at which an action is pending.
pub open spec fn action_rank(a: Action) -> int {
    match a {
        Action::CheckRegistered => 0,
        Action::CreateNamespace => 1,
        Action::OpenHandle => 2,
        Action::EnterNamespace => 3,
        Action::UnshareMounts => 4,
        Action::MakeMountsPrivate => 5,
        Action::StatSys => 6,
        Action::UnmountSys => 7,
        Action::MountSys { .. } => 8,
        Action::ResolveLoopback => 9,
        Action::SetLinkUp { .. } => 10,
        Action::ExitSuccess => 11,
        Action::Abort => 11,
    }
}

/// The steps of `acts` other than the exits come in strictly rising rank,
/// all above `lo`.
pub open spec fn steps_rise(acts: Seq<Action>, lo: int) -> bool {
    &&& forall|i: int|
        0 <= i < acts.len() && !is_exit_action(#[trigger] acts[i]) ==> action_rank(acts[i]) > lo
    &&& forall|i: int, j: int|
        0 <= i < j < acts.len() && !is_exit_action(#[trigger] acts[i]) && !is_exit_action(
            #[trigger] acts[j],
        ) ==> action_rank(acts[i]) < action_rank(acts[j])
}

proof fn lemma_steps_rise_from(s: Stage, es: Seq<Event>)
    requires
        !is_final(s),
    ensures
        steps_rise(trace(s, es), rank(s) as int),
    decreases es.len(),
{
    if es.len() > 0 {
        let t = next_stage(s, es[0]);
        let rest = es.drop_first();
        let acts = trace(s, es);
        assert(acts == seq![action_of(t)] + trace(t, rest));
        if is_final(t) {
            lemma_final_stage_absorbs(t, rest);
            assert forall|i: int| 0 <= i < acts.len() implies is_exit_action(#[trigger] acts[i]) by {
                if i > 0 {
                    assert(acts[i] == trace(t, rest)[i - 1]);
                }
            }
        } else {
            lemma_steps_rise_from(t, rest);
            let tail = trace(t, rest);
            assert(action_rank(action_of(t)) == rank(t));
            assert forall|i: int|
                0 <= i < acts.len() && !is_exit_action(#[trigger] acts[i]) implies action_rank(
                acts[i],
            ) > rank(s) by {
                if i > 0 {
                    assert(acts[i] == tail[i - 1]);
                }
            }
            assert forall|i: int, j: int|
                0 <= i < j < acts.len() && !is_exit_action(#[trigger] acts[i]) && !is_exit_action(
                    #[trigger] acts[j],
                ) implies action_rank(acts[i]) < action_rank(acts[j]) by {
                assert(acts[j] == tail[j - 1]);
                if i > 0 {
                    assert(acts[i] == tail[i - 1]);
                }
            }
        }
    }
}

/// No step is ever retried: whatever the outcomes, a session started afresh
/// asks for each action other than the final exit at most once, so the
/// loopback device in particular is looked up once.
pub proof fn lemma_no_step_repeats(es: Seq<Event>)
    ensures
        forall|i: int, j: int|
            0 <= i < j < trace(Stage::Created, es).len() && #[trigger] trace(Stage::Created, es)[i]
                == #[trigger] trace(Stage::Created, es)[j] ==> is_exit_action(
                trace(Stage::Created, es)[i],
            ),
{
    lemma_steps_rise_from(Stage::Created, es);
}

/// The action pending at `s`.
pub fn pending_action(s: Stage) -> (r: Action)
    ensures
        r == action_of(s),
{
    match s {
        Stage::Created => Action::CheckRegistered,
        Stage::NameFree => Action::CreateNamespace,
        Stage::Registered => Action::OpenHandle,
        Stage::HandleOpen => Action::EnterNamespace,
        Stage::EnteredNamespace => Action::UnshareMounts,
        Stage::Unshared => Action::MakeMountsPrivate,
        Stage::MountIsolated => Action::StatSys,
        Stage::SysInspected { .. } => Action::UnmountSys,
        Stage::SysUnmounted { readonly } => Action::MountSys { readonly },
        Stage::SysSettled { .. } => Action::ResolveLoopback,
        Stage::LoopbackResolved { index } => Action::SetLinkUp { index },
        Stage::LoopbackUp => Action::ExitSuccess,
        Stage::Aborted { .. } => Action::Abort,
    }
}


/// The event for a failed action with this error number: for the actions that
/// look for something, the error that says it is not there is reported as
/// `Absent` (no `/sys` to inspect, `/sys` not a mount point, no such device).
pub open spec fn failure_event(a: Action, errno: i32) -> Event {
    if (a is StatSys && errno == ENOENT) || (a is UnmountSys && errno == EINVAL) || (
    a is ResolveLoopback && errno == ENODEV) {
        Event::Absent
    } else {
        Event::Failed { errno }
    }
}

/// The event to record when the action `a` failed with `errno`.
pub fn event_for_failure(a: Action, errno: i32) -> (r: Event)
    ensures
        r == failure_event(a, errno),
{
    let absent = match a {
        Action::StatSys => errno == ENOENT,
        Action::UnmountSys => errno == EINVAL,
        Action::ResolveLoopback => errno == ENODEV,
        _ => false,
    };
    if absent {
        Event::Absent
    } else {
        Event::Failed { errno }
    }
}

/// The stage reached from `s` when its pending action ends with `e`.
pub fn advance(s: Stage, e: Event) -> (r: Stage)
    ensures
        r == next_stage(s, e),
        rank(r) >= rank(s),
        r != s ==> rank(r) > rank(s),
{
    let protocol = Stage::Aborted { error: SetupError::Protocol };
    match s {
        Stage::Created => match e {
            Event::Absent => Stage::NameFree,
            Event::Exists => Stage::Aborted {
                error: SetupError::Registry(RegistryError::AlreadyExists),
            },
            Event::Failed { errno } => Stage::Aborted {
                error: SetupError::Registry(classify_registry_errno(errno)),
            },
            _ => protocol,
        },
        Stage::NameFree => match e {
            Event::Done => Stage::Registered,
            Event::Failed { errno } => Stage::Aborted {
                error: SetupError::Registry(classify_registry_errno(errno)),
            },
            _ => protocol,
        },
        Stage::Registered => match e {
            Event::Done => Stage::HandleOpen,
            Event::Failed { errno } => Stage::Aborted {
                error: SetupError::Registry(classify_registry_errno(errno)),
            },
            _ => protocol,
        },
        Stage::HandleOpen => match e {
            Event::Done => Stage::EnteredNamespace,
            Event::Failed { .. } => Stage::Aborted { error: SetupError::Transition },
            _ => protocol,
        },
        Stage::EnteredNamespace => match e {
            Event::Done => Stage::Unshared,
            Event::Failed { .. } => Stage::Aborted { error: SetupError::Isolation },
            _ => protocol,
        },
        Stage::Unshared => match e {
            Event::Done | Event::Failed { .. } => Stage::MountIsolated,
            _ => protocol,
        },
        Stage::MountIsolated => match e {
            Event::SysFlags { readonly } => Stage::SysInspected { readonly },
            Event::Absent => Stage::SysSettled { remounted: false },
            Event::Failed { .. } => Stage::Aborted { error: SetupError::Remount },
            _ => protocol,
        },
        Stage::SysInspected { readonly } => match e {
            Event::Done => Stage::SysUnmounted { readonly },
            Event::Absent => Stage::SysSettled { remounted: false },
            Event::Failed { .. } => Stage::Aborted { error: SetupError::Remount },
            _ => protocol,
        },
        Stage::SysUnmounted { .. } => match e {
            Event::Done => Stage::SysSettled { remounted: true },
            Event::Failed { .. } => Stage::Aborted { error: SetupError::Remount },
            _ => protocol,
        },
        Stage::SysSettled { .. } => match e {
            Event::Link { index } => Stage::LoopbackResolved { index },
            Event::Absent => Stage::Aborted {
                error: SetupError::Interface(InterfaceError::InterfaceNotFound),
            },
            Event::Failed { .. } => Stage::Aborted {
                error: SetupError::Interface(InterfaceError::ControlChannelError),
            },
            _ => protocol,
        },
        Stage::LoopbackResolved { .. } => match e {
            Event::Done => Stage::LoopbackUp,
            Event::Failed { .. } => Stage::Aborted {
                error: SetupError::Interface(InterfaceError::ControlChannelError),
            },
            _ => protocol,
        },
        Stage::LoopbackUp => Stage::LoopbackUp,
        Stage::Aborted { error } => Stage::Aborted { error },
    }
}

/// The setup of one namespace, as the helper process goes through it.
///
/// The session only moves forward: no operation can be asked for out of turn,
/// since the pending action is always the one that its stage fixes.
pub struct NamespaceSession {
    stage: Stage,
}

impl NamespaceSession {
    /// The stage the session has reached.
    pub closed spec fn view_stage(&self) -> Stage {
        self.stage
    }

    /// A session for the namespace `name` that has done nothing yet; for a name
    /// that is no single path component, one that has already aborted.
    pub fn new(name: &str) -> (r: NamespaceSession)
        ensures
            r.view_stage() == start_stage(name@),
    {
        if is_valid_ns_name(name) {
            NamespaceSession { stage: Stage::Created }
        } else {
            NamespaceSession {
                stage: Stage::Aborted { error: SetupError::Registry(RegistryError::InvalidName) },
            }
        }
    }

    /// The stage the session has reached.
    pub fn stage(&self) -> (r: Stage)
        ensures
            r == self.view_stage(),
    {
        self.stage
    }

    /// What the helper process is to do next.
    pub fn action(&self) -> (r: Action)
        ensures
            r == action_of(self.view_stage()),
    {
        pending_action(self.stage)
    }

    /// Whether the session has come to an end, successful or not.
    pub fn is_finished(&self) -> (r: bool)
        ensures
            r == is_final(self.view_stage()),
    {
        match self.stage {
            Stage::LoopbackUp | Stage::Aborted { .. } => true,
            _ => false,
        }
    }

    /// Records what came of the pending action, and returns the next one.
    pub fn record(&mut self, e: Event) -> (r: Action)
        ensures
            final(self).view_stage() == next_stage(old(self).view_stage(), e),
            r == action_of(final(self).view_stage()),
            rank(final(self).view_stage()) >= rank(old(self).view_stage()),
    {
        self.stage = advance(self.stage, e);
        pending_action(self.stage)
    }
}

} // verus!
