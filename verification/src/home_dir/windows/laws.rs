use vstd::prelude::*;

use crate::home_dir::error::Failure;
use crate::home_dir::path::PathView;
use crate::home_dir::user::normalized;
use crate::home_dir::windows::handles::ProcessSlot;
use crate::home_dir::windows::wide::{lemma_utf16_injective, utf16_of};
use crate::home_dir::windows::resolver::{
    default_alias, just, next_pid, scan_from, win_after, win_finish, win_next, win_start, WinCallView,
    WinModel, WinPhase, WinReport, WinStep,
};

verus! {

/// A resolution begins with no handle.
pub proof fn lemma_start_holds_nothing(user: Option<Seq<char>>)
    ensures
        win_start(user).0.wf(),
        !win_start(user).0.handles.owes(),
{
}

/// No handle is used after it was released, none is released twice, and none is
/// left open.
///
/// Whatever is reported: the next state holds the handles of its phase, and a token
/// only together with its process; the action closes only handles that are held; a
/// handle that is held and not closed is still held afterwards; and where the action
/// ends the resolution, it closes every handle that has to be closed.
pub proof fn lemma_handles(s: WinModel, e: WinReport)
    requires
        s.wf(),
        e.wf(),
    ensures
        win_next(s, e).0.wf(),
        win_next(s, e).0.handles.wf(),
        win_next(s, e).1.close_token ==> s.handles.token,
        win_next(s, e).1.close_process ==> s.handles.process == ProcessSlot::Other,
        s.handles.token && !win_next(s, e).1.close_token ==> win_next(s, e).0.handles.token,
        s.handles.process == ProcessSlot::Other && !win_next(s, e).1.close_process ==> win_next(s, e).0.handles.process
            == ProcessSlot::Other,
        win_next(s, e).1.call is Finish ==> {
            &&& win_next(s, e).0.phase == WinPhase::Done
            &&& win_next(s, e).1.close_token == s.handles.token
            &&& win_next(s, e).1.close_process == (s.handles.process == ProcessSlot::Other)
        },
{
}

/// Whether a call works on the token that is held.
pub open spec fn uses_token(call: WinCallView) -> bool {
    call is TokenOwner || call is Profile || call is Elevation
}

/// No call is made on a handle that is not held: a call that reads a token is made
/// only while a token is held, and a token is opened only of a process that is held
/// and while no other token is.
pub proof fn lemma_calls_have_their_handles(s: WinModel, e: WinReport)
    requires
        s.wf(),
        e.wf(),
    ensures
        uses_token(win_next(s, e).1.call) ==> win_next(s, e).0.handles.token,
        win_next(s, e).1.call is OpenToken ==> {
            &&& win_next(s, e).0.handles.process != ProcessSlot::Empty
            &&& !win_next(s, e).0.handles.token
        },
        win_next(s, e).1.call is OpenProcess ==> !win_next(s, e).0.handles.owes(),
{
}

/// The empty name and no name are the same user: a resolution begins in the same way
/// for both, so whatever the system reports, both take the same actions and end with
/// the same result.
pub proof fn lemma_empty_name_is_current()
    ensures
        win_start(Some(Seq::empty())) == win_start(None),
{
}

/// The actions that a resolution for `user` takes as the reports `events` come in:
/// the one it begins with, and then one for each report.
pub open spec fn win_actions(user: Option<Seq<char>>, events: Seq<WinReport>) -> Seq<WinStep> {
    Seq::new(events.len() + 1, |i: int| win_after(win_start(user).0, win_start(user).1, events.take(i)).1)
}

/// One more report takes the resolution one step further.
pub proof fn lemma_after_push(s: WinModel, a: WinStep, events: Seq<WinReport>, e: WinReport)
    ensures
        win_after(s, a, events.push(e)) == win_next(win_after(s, a, events).0, e),
{
    assert(events.push(e).drop_last() =~= events);
}

/// The first five actions after the one that a resolution begins with.
proof fn lemma_five_steps(user: Option<Seq<char>>, events: Seq<WinReport>)
    requires
        events.len() == 5,
    ensures
        win_actions(user, events) == seq![
            win_start(user).1,
            win_next(win_start(user).0, events[0]).1,
            win_next(win_next(win_start(user).0, events[0]).0, events[1]).1,
            win_next(win_next(win_next(win_start(user).0, events[0]).0, events[1]).0, events[2]).1,
            win_next(
                win_next(win_next(win_next(win_start(user).0, events[0]).0, events[1]).0, events[2]).0,
                events[3],
            ).1,
            win_next(
                win_next(
                    win_next(win_next(win_next(win_start(user).0, events[0]).0, events[1]).0, events[2]).0,
                    events[3],
                ).0,
                events[4],
            ).1,
        ],
{
    let s = win_start(user).0;
    let a = win_start(user).1;
    let t0 = events.take(0);
    assert(t0 =~= Seq::<WinReport>::empty());
    assert(events.take(1) =~= t0.push(events[0]));
    assert(events.take(2) =~= events.take(1).push(events[1]));
    assert(events.take(3) =~= events.take(2).push(events[2]));
    assert(events.take(4) =~= events.take(3).push(events[3]));
    assert(events.take(5) =~= events.take(4).push(events[4]));
    lemma_after_push(s, a, t0, events[0]);
    lemma_after_push(s, a, events.take(1), events[1]);
    lemma_after_push(s, a, events.take(2), events[2]);
    lemma_after_push(s, a, events.take(3), events[3]);
    lemma_after_push(s, a, events.take(4), events[4]);
    let actions = win_actions(user, events);
    assert(actions[0] == a);
    assert(actions[1] == win_after(s, a, events.take(1)).1);
    assert(actions[2] == win_after(s, a, events.take(2)).1);
    assert(actions[3] == win_after(s, a, events.take(3)).1);
    assert(actions[4] == win_after(s, a, events.take(4)).1);
    assert(actions[5] == win_after(s, a, events.take(5)).1);
    assert(actions.len() == 6);
    assert(actions =~= seq![actions[0], actions[1], actions[2], actions[3], actions[4], actions[5]]);
}

/// The reports of a system on which every call for the current user succeeds: the
/// owner of the calling process is `owner`, and the profile directory is `profile`.
pub open spec fn all_well(owner: Seq<u16>, profile: Seq<u16>) -> Seq<WinReport> {
    seq![
        WinReport::Opened(Ok(())),
        WinReport::Opened(Ok(())),
        WinReport::Name(Ok(owner)),
        WinReport::Opened(Ok(())),
        WinReport::Path(Ok(profile)),
    ]
}

/// The current user is resolved whenever the system has a profile directory for the
/// calling process: the resolution ends with that directory, as it was reported, and
/// with the token closed. The same reports give the same result every time.
pub proof fn lemma_current_user_resolves(owner: Seq<u16>, profile: Seq<u16>)
    ensures
        win_actions(None, all_well(owner, profile)).last() == (WinStep {
            close_token: true,
            close_process: false,
            call: WinCallView::Finish(Ok(PathView::Wide(profile))),
        }),
{
    reveal_strlit("Default");
    assert("Default"@.len() == 7);
    lemma_five_steps(None, all_well(owner, profile));
}

/// Every account name among the reports is `owner`.
pub open spec fn names_are(events: Seq<WinReport>, owner: Seq<u16>) -> bool {
    forall|i: int| 0 <= i < events.len() ==> ((#[trigger] events[i]) matches WinReport::Name(Ok(name)) ==> name == owner)
}

/// Two states of which the first asks for a named user and the second for the
/// current one, both on the way on which the profile of the calling process is read.
pub open spec fn twins(a: WinModel, b: WinModel) -> bool {
    &&& a.phase == b.phase
    &&& a.handles == b.handles
    &&& b.user.len() == 0
    &&& match a.phase {
        WinPhase::AwaitCurrentProcess
        | WinPhase::AwaitOwnerToken
        | WinPhase::AwaitOwnerName
        | WinPhase::AwaitDirectProfile
        | WinPhase::Done => true,
        WinPhase::AwaitCurrentToken { direct } => direct,
        _ => false,
    }
}

/// Twins stay twins and take the same actions as long as every owner reported is the
/// one that the first of them asks for.
proof fn lemma_twins_after(a: WinModel, b: WinModel, first: WinStep, events: Seq<WinReport>)
    requires
        twins(a, b),
        names_are(events, a.wanted),
    ensures
        twins(win_after(a, first, events).0, win_after(b, first, events).0),
        win_after(a, first, events).0.wanted == a.wanted,
        win_after(a, first, events).1 == win_after(b, first, events).1,
    decreases events.len(),
{
    if events.len() > 0 {
        let before = events.drop_last();
        assert forall|i: int| 0 <= i < before.len() implies ((#[trigger] before[i]) matches WinReport::Name(Ok(name))
            ==> name == a.wanted) by {
            assert(before[i] == events[i]);
        }
        lemma_twins_after(a, b, first, before);
        assert(events.last() == events[events.len() - 1]);
    }
}

/// Asking for the user who owns the calling process by name is asking for the
/// current user: where the system reports that name for the owner, the resolution
/// makes the same calls and ends with the same result as one for no name at all.
pub proof fn lemma_own_name_is_current(name: Seq<char>, events: Seq<WinReport>)
    requires
        name.len() > 0,
        name != default_alias(),
        names_are(events, utf16_of(name)),
    ensures
        win_actions(Some(name), events) == win_actions(None, events),
{
    reveal_strlit("Default");
    assert("Default"@.len() == 7);
    assert(Seq::<char>::empty() != default_alias());
    let a = win_start(Some(name));
    let b = win_start(None);
    assert forall|i: int| 0 <= i <= events.len() implies win_after(a.0, a.1, events.take(i)).1 == win_after(
        b.0,
        b.1,
        events.take(i),
    ).1 by {
        let part = events.take(i);
        assert forall|j: int| 0 <= j < part.len() implies ((#[trigger] part[j]) matches WinReport::Name(Ok(n)) ==> n
            == a.0.wanted) by {
            assert(part[j] == events[j]);
        }
        lemma_twins_after(a.0, b.0, a.1, part);
    }
    assert(win_actions(Some(name), events) =~= win_actions(None, events));
}

/// The reports of a system on which the calling process belongs to `owner` and is
/// not elevated, up to the answer on elevation.
pub open spec fn unprivileged(owner: Seq<u16>) -> Seq<WinReport> {
    seq![
        WinReport::Opened(Ok(())),
        WinReport::Opened(Ok(())),
        WinReport::Name(Ok(owner)),
        WinReport::Opened(Ok(())),
        WinReport::Elevated(Ok(false)),
    ]
}

/// Without elevation another user's home directory is refused, not searched for: a
/// resolution for a named user who is not the owner of the calling process ends with
/// `PermissionDenied` for that name as soon as the token proves not to be elevated. No
/// process is listed or opened, and the token is closed.
pub proof fn lemma_unprivileged_is_denied(name: Seq<char>, owner: Seq<u16>)
    requires
        name.len() > 0,
        name != default_alias(),
        owner != utf16_of(name),
    ensures
        win_actions(Some(name), unprivileged(owner)) == seq![
            just(WinCallView::CurrentProcess),
            just(WinCallView::OpenToken),
            just(WinCallView::TokenOwner),
            WinStep { close_token: true, close_process: false, call: WinCallView::OpenToken },
            just(WinCallView::Elevation),
            WinStep {
                close_token: true,
                close_process: false,
                call: WinCallView::Finish(Err(Failure::PermissionDenied(name))),
            },
        ],
{
    lemma_five_steps(Some(name), unprivileged(owner));
}

/// The same for an owner known by name: a request for any user but the one whose name
/// the owner of the calling process has is refused without elevation, since different
/// names are different in UTF-16 too.
pub proof fn lemma_other_user_is_denied(name: Seq<char>, owner: Seq<char>)
    requires
        name.len() > 0,
        name != default_alias(),
        owner != name,
    ensures
        win_actions(Some(name), unprivileged(utf16_of(owner))).last() == (WinStep {
            close_token: true,
            close_process: false,
            call: WinCallView::Finish(Err(Failure::PermissionDenied(name))),
        }),
{
    if utf16_of(owner) == utf16_of(name) {
        lemma_utf16_injective(owner, name);
    }
    lemma_unprivileged_is_denied(name, utf16_of(owner));
}

/// How far a resolution is from its end: the number of steps that lead up to the
/// search, the number of processes that the search has not passed yet, and the number
/// of calls that are left to make on what is in hand.
pub open spec fn win_distance(s: WinModel) -> (nat, nat, nat) {
    match s.phase {
        WinPhase::AwaitCurrentProcess => (6, 0, 0),
        WinPhase::AwaitOwnerToken => (5, 0, 0),
        WinPhase::AwaitOwnerName => (4, 0, 0),
        WinPhase::AwaitCurrentToken { .. } => (3, 0, 0),
        WinPhase::AwaitElevation => (2, 0, 0),
        WinPhase::AwaitPids => (1, 0, 0),
        WinPhase::AwaitDirectProfile | WinPhase::AwaitDefaultProfile => (0, 0, 1),
        WinPhase::AwaitProcess { index } => (0, left(s.pids, index), 4),
        WinPhase::AwaitProcessToken { index } => (0, left(s.pids, index), 3),
        WinPhase::AwaitProcessOwner { index } => (0, left(s.pids, index), 2),
        WinPhase::AwaitProcessProfile { index } => (0, left(s.pids, index), 1),
        WinPhase::Done => (0, 0, 0),
    }
}

/// The number of processes from `index` on.
pub open spec fn left(pids: Seq<u32>, index: usize) -> nat {
    if index < pids.len() {
        (pids.len() - index) as nat
    } else {
        0
    }
}

/// Whether the distance `a` is smaller than `b`: the first number counts first, the
/// last one last.
pub open spec fn win_nearer(a: (nat, nat, nat), b: (nat, nat, nat)) -> bool {
    a.0 < b.0 || (a.0 == b.0 && (a.1 < b.1 || (a.1 == b.1 && a.2 < b.2)))
}

/// No resolution goes on forever, and no process is tried twice: whatever is
/// reported to a resolution that is not over, the state that follows is nearer to the
/// end; and a resolution is over exactly when its action says so.
pub proof fn lemma_win_progress(s: WinModel, e: WinReport)
    requires
        s.wf(),
        e.wf(),
    ensures
        win_next(s, e).1.call is Finish <==> win_next(s, e).0.phase is Done,
        s.phase is Done || win_nearer(win_distance(win_next(s, e).0), win_distance(s)),
{
    match s.phase {
        WinPhase::AwaitPids => {
            if let WinReport::Pids(Ok(pids)) = e {
                lemma_next_pid(pids, 0);
            }
        },
        WinPhase::AwaitProcess { index }
        | WinPhase::AwaitProcessToken { index }
        | WinPhase::AwaitProcessOwner { index }
        | WinPhase::AwaitProcessProfile { index } => {
            if index < s.pids.len() {
                lemma_next_pid(s.pids, index as nat + 1);
            } else {
                lemma_past_the_end(s.pids, index as nat + 1);
            }
        },
        _ => {},
    }
}

/// A search from beyond the list finds nothing.
proof fn lemma_past_the_end(pids: Seq<u32>, from: nat)
    requires
        from >= pids.len(),
    ensures
        next_pid(pids, from) == pids.len(),
{
}

/// The search goes forward only: it goes on at or after the place asked for, with a
/// process whose identifier is not zero, and every identifier that it passes over is
/// zero.
pub proof fn lemma_next_pid(pids: Seq<u32>, from: nat)
    requires
        from <= pids.len(),
    ensures
        from <= next_pid(pids, from) <= pids.len(),
        next_pid(pids, from) < pids.len() ==> pids[next_pid(pids, from) as int] != 0,
        forall|i: int| from <= i < next_pid(pids, from) ==> #[trigger] pids[i] == 0,
    decreases pids.len() - from,
{
    if from < pids.len() && pids[from as int] == 0 {
        lemma_next_pid(pids, from + 1);
    }
}

/// Where no process is left to try, the user is not found: a search from a place
/// after which every identifier is zero ends the resolution with `NotFound` for the
/// name asked for.
pub proof fn lemma_exhaustion(s: WinModel, from: nat)
    requires
        from <= s.pids.len(),
        forall|i: int| from <= i < s.pids.len() ==> #[trigger] s.pids[i] == 0,
    ensures
        scan_from(s, from) == win_finish(s, Err(Failure::NotFound(normalized(Some(s.user))))),
{
    lemma_next_pid(s.pids, from);
}

} // verus!
