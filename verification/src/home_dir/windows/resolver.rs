use vstd::prelude::*;

use crate::home_dir::error::{chars_of_str, Failure, HomeDirError};
use crate::home_dir::path::{result_view, PathView, ResolvedPath};
use crate::home_dir::user::{normalized, UserRef};
use crate::home_dir::windows::handles::{Handles, ProcessSlot};
use crate::home_dir::windows::laws::{lemma_handles, lemma_win_progress, win_distance};
use crate::home_dir::windows::wide::{encode_utf16, utf16_of};

verus! {

/// The name that stands for the template from which new profiles are made.
pub open spec fn default_alias() -> Seq<char> {
    "Default"@
}

/// What the resolver waits for.
#[derive(Clone, Copy, Debug, PartialEq, Eq, Structural)]
pub enum WinPhase {
    /// The handle of the calling process.
    AwaitCurrentProcess,
    /// The token through which the owner of the calling process is read.
    AwaitOwnerToken,
    /// The account name of the owner of the calling process.
    AwaitOwnerName,
    /// The token of the calling process; `direct` says whether its profile is the answer.
    AwaitCurrentToken { direct: bool },
    /// The profile directory of the calling process's token.
    AwaitDirectProfile,
    /// The profile directory of the template account.
    AwaitDefaultProfile,
    /// Whether the calling process's token is elevated.
    AwaitElevation,
    /// The identifiers of the running processes.
    AwaitPids,
    /// The handle of the process at `index` of the list.
    AwaitProcess { index: usize },
    /// The token of that process.
    AwaitProcessToken { index: usize },
    /// The account name of the owner of that process.
    AwaitProcessOwner { index: usize },
    /// The profile directory of that process's token.
    AwaitProcessProfile { index: usize },
    /// Nothing: the resolution is over.
    Done,
}

/// A resolution in progress on Windows.
#[derive(Debug)]
pub struct WinState {
    pub phase: WinPhase,
    /// The name asked for; empty for the current user.
    pub user: String,
    /// The name asked for in UTF-16, the form in which accounts are compared: a
    /// process belongs to the user where the name of its owner is this one, unit for
    /// unit, with no regard to case folding.
    pub wanted: Vec<u16>,
    /// The identifiers of the running processes, once they are known.
    pub pids: Vec<u32>,
    /// The handles that are held.
    pub handles: Handles,
}

/// A native call that the caller is to make.
#[derive(Debug, PartialEq, Eq)]
pub enum WinCall {
    /// Get the handle of the calling process.
    CurrentProcess,
    /// Open the token of the process that is held.
    OpenToken,
    /// Read the account name of the user of the token that is held.
    TokenOwner,
    /// Read the profile directory of the token that is held.
    Profile,
    /// Read the profile directory of the template account.
    DefaultProfile,
    /// Read whether the token that is held is elevated.
    Elevation,
    /// List the identifiers of the running processes.
    ListProcesses,
    /// Open the process with this identifier.
    OpenProcess(u32),
    /// Hand the result to whoever asked.
    Finish(Result<ResolvedPath, HomeDirError>),
}

/// What the caller is to do next: close the handles named, the token before the
/// process, then make the call.
#[derive(Debug, PartialEq, Eq)]
pub struct WinAction {
    pub close_token: bool,
    pub close_process: bool,
    pub call: WinCall,
}

/// What the caller reports back.
#[derive(Debug)]
pub enum WinEvent {
    /// Whether the handle asked for was obtained.
    Opened(Result<(), HomeDirError>),
    /// The account name read, in UTF-16.
    Name(Result<Vec<u16>, HomeDirError>),
    /// The profile directory read, in UTF-16.
    Path(Result<Vec<u16>, HomeDirError>),
    /// Whether the token is elevated.
    Elevated(Result<bool, HomeDirError>),
    /// The identifiers of the running processes.
    Pids(Result<Vec<u32>, HomeDirError>),
}

/// A resolution state as a plain value.
pub struct WinModel {
    pub phase: WinPhase,
    pub user: Seq<char>,
    pub wanted: Seq<u16>,
    pub pids: Seq<u32>,
    pub handles: Handles,
}

/// A call as a plain value.
pub enum WinCallView {
    CurrentProcess,
    OpenToken,
    TokenOwner,
    Profile,
    DefaultProfile,
    Elevation,
    ListProcesses,
    OpenProcess(u32),
    Finish(Result<PathView, Failure>),
}

/// An action as a plain value.
pub struct WinStep {
    pub close_token: bool,
    pub close_process: bool,
    pub call: WinCallView,
}

/// An event as a plain value.
pub enum WinReport {
    Opened(Result<(), Failure>),
    Name(Result<Seq<u16>, Failure>),
    Path(Result<Seq<u16>, Failure>),
    Elevated(Result<bool, Failure>),
    Pids(Result<Seq<u32>, Failure>),
}

/// The handles that a resolution holds while it waits in `phase`.
pub open spec fn held_in(phase: WinPhase) -> Handles {
    match phase {
        WinPhase::AwaitOwnerToken | WinPhase::AwaitCurrentToken { .. } => Handles {
            process: ProcessSlot::Current,
            token: false,
        },
        WinPhase::AwaitOwnerName | WinPhase::AwaitDirectProfile | WinPhase::AwaitElevation => Handles {
            process: ProcessSlot::Current,
            token: true,
        },
        WinPhase::AwaitProcessToken { .. } => Handles { process: ProcessSlot::Other, token: false },
        WinPhase::AwaitProcessOwner { .. } | WinPhase::AwaitProcessProfile { .. } => Handles {
            process: ProcessSlot::Other,
            token: true,
        },
        _ => Handles { process: ProcessSlot::Empty, token: false },
    }
}

impl WinModel {
    /// The state holds the handles of its phase, and its list of processes is no
    /// longer than a list in memory can be.
    pub open spec fn wf(self) -> bool {
        &&& self.handles == held_in(self.phase)
        &&& self.pids.len() <= usize::MAX
    }
}

impl WinReport {
    /// A list of processes in the report is no longer than a list in memory can be.
    pub open spec fn wf(self) -> bool {
        self matches WinReport::Pids(Ok(pids)) ==> pids.len() <= usize::MAX
    }
}

impl View for WinState {
    type V = WinModel;

    open spec fn view(&self) -> WinModel {
        WinModel { phase: self.phase, user: self.user@, wanted: self.wanted@, pids: self.pids@, handles: self.handles }
    }
}

impl View for WinCall {
    type V = WinCallView;

    open spec fn view(&self) -> WinCallView {
        match self {
            WinCall::CurrentProcess => WinCallView::CurrentProcess,
            WinCall::OpenToken => WinCallView::OpenToken,
            WinCall::TokenOwner => WinCallView::TokenOwner,
            WinCall::Profile => WinCallView::Profile,
            WinCall::DefaultProfile => WinCallView::DefaultProfile,
            WinCall::Elevation => WinCallView::Elevation,
            WinCall::ListProcesses => WinCallView::ListProcesses,
            WinCall::OpenProcess(pid) => WinCallView::OpenProcess(*pid),
            WinCall::Finish(r) => WinCallView::Finish(result_view(*r)),
        }
    }
}

impl View for WinAction {
    type V = WinStep;

    open spec fn view(&self) -> WinStep {
        WinStep { close_token: self.close_token, close_process: self.close_process, call: self.call@ }
    }
}

/// A report of units, or of the failure to read them, as a plain value.
pub open spec fn units_view<T>(r: Result<Vec<T>, HomeDirError>) -> Result<Seq<T>, Failure> {
    match r {
        Ok(v) => Ok(v@),
        Err(e) => Err(e@),
    }
}

impl View for WinEvent {
    type V = WinReport;

    open spec fn view(&self) -> WinReport {
        match self {
            WinEvent::Opened(r) => WinReport::Opened(
                match r {
                    Ok(_) => Ok(()),
                    Err(e) => Err(e@),
                },
            ),
            WinEvent::Name(r) => WinReport::Name(units_view(*r)),
            WinEvent::Path(r) => WinReport::Path(units_view(*r)),
            WinEvent::Elevated(r) => WinReport::Elevated(
                match r {
                    Ok(b) => Ok(*b),
                    Err(e) => Err(e@),
                },
            ),
            WinEvent::Pids(r) => WinReport::Pids(units_view(*r)),
        }
    }
}

/// The index of the first identifier at or after `from` that is not zero, or the
/// length of the list where there is none.
pub open spec fn next_pid(pids: Seq<u32>, from: nat) -> nat
    decreases pids.len() - from,
{
    if from >= pids.len() {
        pids.len()
    } else if pids[from as int] != 0 {
        from
    } else {
        next_pid(pids, from + 1)
    }
}

/// Nothing is closed and `call` is made.
pub open spec fn just(call: WinCallView) -> WinStep {
    WinStep { close_token: false, close_process: false, call }
}

/// Everything that has to be closed is closed and `call` is made.
pub open spec fn release_then(s: WinModel, call: WinCallView) -> WinStep {
    WinStep { close_token: s.handles.token, close_process: s.handles.process == ProcessSlot::Other, call }
}

/// The state `s` in phase `phase`, holding `handles`.
pub open spec fn moved(s: WinModel, phase: WinPhase, handles: Handles) -> WinModel {
    WinModel { phase, handles, ..s }
}

/// The end of a resolution with `result`: every handle that has to be closed is
/// closed first.
pub open spec fn win_finish(s: WinModel, result: Result<PathView, Failure>) -> (WinModel, WinStep) {
    (
        moved(s, WinPhase::Done, Handles { process: ProcessSlot::Empty, token: false }),
        release_then(s, WinCallView::Finish(result)),
    )
}

/// The search goes on with the first process at or after `from` whose identifier is
/// not zero; the handles of the process before it are closed. Where no process is
/// left, the user was not found.
pub open spec fn scan_from(s: WinModel, from: nat) -> (WinModel, WinStep) {
    let index = next_pid(s.pids, from);
    if index < s.pids.len() {
        (
            moved(
                s,
                WinPhase::AwaitProcess { index: index as usize },
                Handles { process: ProcessSlot::Empty, token: false },
            ),
            release_then(s, WinCallView::OpenProcess(s.pids[index as int])),
        )
    } else {
        win_finish(s, Err(Failure::NotFound(normalized(Some(s.user)))))
    }
}

/// A profile directory, or the failure to read it, as the result of a resolution.
pub open spec fn profile_result(r: Result<Seq<u16>, Failure>) -> Result<PathView, Failure> {
    match r {
        Ok(units) => Ok(PathView::Wide(units)),
        Err(e) => Err(e),
    }
}

/// How a resolution for `user` begins. The template account is read directly. Every
/// other resolution first finds out who owns the calling process.
pub open spec fn win_start(user: Option<Seq<char>>) -> (WinModel, WinStep) {
    let name = match normalized(user) {
        Some(n) => n,
        None => Seq::empty(),
    };
    let s = WinModel {
        phase: WinPhase::AwaitCurrentProcess,
        user: name,
        wanted: utf16_of(name),
        pids: Seq::empty(),
        handles: Handles { process: ProcessSlot::Empty, token: false },
    };
    if name == default_alias() {
        (moved(s, WinPhase::AwaitDefaultProfile, s.handles), just(WinCallView::DefaultProfile))
    } else {
        (s, just(WinCallView::CurrentProcess))
    }
}

/// The state and the action that follow when `e` is reported in state `s`.
///
/// The profile of the calling process's token is the answer where the current user is
/// asked for, or the user whose name the owner of the calling process has. For any
/// other user the token must be elevated: where it is not, the resolution ends at once
/// with `PermissionDenied`, and no process is listed. Then the processes are tried
/// one by one: a process that cannot be opened or read, or that belongs to someone
/// else, is passed over, and the first one of the user asked for whose profile
/// directory can be read gives the answer. A report that the state does not wait for
/// ends the resolution with an error of the system that has no text.
pub open spec fn win_next(s: WinModel, e: WinReport) -> (WinModel, WinStep) {
    let h = s.handles;
    match (s.phase, e) {
        (WinPhase::AwaitCurrentProcess, WinReport::Opened(Ok(_))) => (
            moved(s, WinPhase::AwaitOwnerToken, Handles { process: ProcessSlot::Current, token: false }),
            just(WinCallView::OpenToken),
        ),
        (WinPhase::AwaitCurrentProcess, WinReport::Opened(Err(err))) => win_finish(s, Err(err)),
        (WinPhase::AwaitOwnerToken, WinReport::Opened(Ok(_))) => (
            moved(s, WinPhase::AwaitOwnerName, Handles { token: true, ..h }),
            just(WinCallView::TokenOwner),
        ),
        (WinPhase::AwaitOwnerToken, WinReport::Opened(Err(err))) => win_finish(s, Err(err)),
        (WinPhase::AwaitOwnerName, WinReport::Name(Ok(owner))) => (
            moved(
                s,
                WinPhase::AwaitCurrentToken { direct: s.user.len() == 0 || owner == s.wanted },
                Handles { token: false, ..h },
            ),
            WinStep { close_token: h.token, close_process: false, call: WinCallView::OpenToken },
        ),
        (WinPhase::AwaitOwnerName, WinReport::Name(Err(err))) => win_finish(s, Err(err)),
        (WinPhase::AwaitCurrentToken { direct }, WinReport::Opened(Ok(_))) => if direct {
            (moved(s, WinPhase::AwaitDirectProfile, Handles { token: true, ..h }), just(WinCallView::Profile))
        } else {
            (moved(s, WinPhase::AwaitElevation, Handles { token: true, ..h }), just(WinCallView::Elevation))
        },
        (WinPhase::AwaitCurrentToken { direct }, WinReport::Opened(Err(err))) => win_finish(s, Err(err)),
        (WinPhase::AwaitDirectProfile, WinReport::Path(r)) => win_finish(s, profile_result(r)),
        (WinPhase::AwaitDefaultProfile, WinReport::Path(r)) => win_finish(s, profile_result(r)),
        (WinPhase::AwaitElevation, WinReport::Elevated(Ok(elevated))) => if elevated {
            (
                moved(s, WinPhase::AwaitPids, Handles { process: ProcessSlot::Empty, token: false }),
                release_then(s, WinCallView::ListProcesses),
            )
        } else {
            win_finish(s, Err(Failure::PermissionDenied(s.user)))
        },
        (WinPhase::AwaitElevation, WinReport::Elevated(Err(err))) => win_finish(s, Err(err)),
        (WinPhase::AwaitPids, WinReport::Pids(Ok(pids))) => scan_from(WinModel { pids, ..s }, 0),
        (WinPhase::AwaitPids, WinReport::Pids(Err(err))) => win_finish(s, Err(err)),
        (WinPhase::AwaitProcess { index }, WinReport::Opened(Ok(_))) => (
            moved(s, WinPhase::AwaitProcessToken { index }, Handles { process: ProcessSlot::Other, token: false }),
            just(WinCallView::OpenToken),
        ),
        (WinPhase::AwaitProcess { index }, WinReport::Opened(Err(_))) => scan_from(s, index as nat + 1),
        (WinPhase::AwaitProcessToken { index }, WinReport::Opened(Ok(_))) => (
            moved(s, WinPhase::AwaitProcessOwner { index }, Handles { token: true, ..h }),
            just(WinCallView::TokenOwner),
        ),
        (WinPhase::AwaitProcessToken { index }, WinReport::Opened(Err(_))) => scan_from(s, index as nat + 1),
        (WinPhase::AwaitProcessOwner { index }, WinReport::Name(Ok(owner))) => if owner == s.wanted {
            (moved(s, WinPhase::AwaitProcessProfile { index }, h), just(WinCallView::Profile))
        } else {
            scan_from(s, index as nat + 1)
        },
        (WinPhase::AwaitProcessOwner { index }, WinReport::Name(Err(_))) => scan_from(s, index as nat + 1),
        (WinPhase::AwaitProcessProfile { index }, WinReport::Path(Ok(units))) => win_finish(
            s,
            Ok(PathView::Wide(units)),
        ),
        (WinPhase::AwaitProcessProfile { index }, WinReport::Path(Err(_))) => scan_from(s, index as nat + 1),
        _ => win_finish(s, Err(Failure::OS(None))),
    }
}

/// Whether two sequences of units are the same.
fn same_units(a: &Vec<u16>, b: &Vec<u16>) -> (same: bool)
    ensures
        same == (a@ == b@),
{
    if a.len() != b.len() {
        return false;
    }
    let mut i: usize = 0;
    while i < a.len()
        invariant
            a@.len() == b@.len(),
            i <= a@.len(),
            forall|j: int| 0 <= j < i ==> a@[j] == b@[j],
        decreases a@.len() - i,
    {
        if a[i] != b[i] {
            return false;
        }
        i += 1;
    }
    assert(a@ =~= b@);
    true
}

/// Ends the resolution with `result`.
fn finish(state: WinState, result: Result<ResolvedPath, HomeDirError>) -> (r: (WinState, WinAction))
    ensures
        (r.0@, r.1@) == win_finish(state@, result_view(result)),
{
    let WinState { phase, user, wanted, pids, handles } = state;
    let action = WinAction {
        close_token: handles.token,
        close_process: handles.owns_process(),
        call: WinCall::Finish(result),
    };
    (WinState { phase: WinPhase::Done, user, wanted, pids, handles: Handles::none() }, action)
}

/// Goes on with the first process at or after `from` whose identifier is not zero.
fn scan(state: WinState, from: usize) -> (r: (WinState, WinAction))
    requires
        from <= state.pids@.len(),
    ensures
        (r.0@, r.1@) == scan_from(state@, from as nat),
{
    let mut index = from;
    while index < state.pids.len() && state.pids[index] == 0
        invariant
            from <= index <= state.pids@.len(),
            next_pid(state.pids@, from as nat) == next_pid(state.pids@, index as nat),
        decreases state.pids@.len() - index,
    {
        index += 1;
    }
    if index < state.pids.len() {
        let WinState { phase, user, wanted, pids, handles } = state;
        let action = WinAction {
            close_token: handles.token,
            close_process: handles.owns_process(),
            call: WinCall::OpenProcess(pids[index]),
        };
        (WinState { phase: WinPhase::AwaitProcess { index }, user, wanted, pids, handles: Handles::none() }, action)
    } else {
        let error = HomeDirError::not_found(Some(state.user.as_str()));
        finish(state, Err(error))
    }
}

/// Goes on in phase `phase`, holding `handles`, with `call` and nothing to close.
fn proceed(state: WinState, phase: WinPhase, handles: Handles, call: WinCall) -> (r: (WinState, WinAction))
    ensures
        (r.0@, r.1@) == (moved(state@, phase, handles), just(call@)),
{
    let WinState { phase: _, user, wanted, pids, handles: _ } = state;
    (WinState { phase, user, wanted, pids, handles }, WinAction { close_token: false, close_process: false, call })
}

/// The index after `index`, at which the search goes on.
fn after(state: WinState, index: usize) -> (r: (WinState, WinAction))
    ensures
        (r.0@, r.1@) == scan_from(state@, index as nat + 1),
{
    if index < state.pids.len() {
        scan(state, index + 1)
    } else {
        proof {
            reveal_with_fuel(next_pid, 2);
        }
        let from = state.pids.len();
        scan(state, from)
    }
}

/// Begins the resolution of the home directory of `user`: of the current user where
/// `user` is `None` or empty, of the template account where it is `Default`.
pub fn start(user: Option<&str>) -> (r: (WinState, WinAction))
    ensures
        (r.0@, r.1@) == win_start(chars_of_str(user)),
        r.0@.wf(),
{
    let name = match UserRef::from_option(user) {
        UserRef::Current => String::new(),
        UserRef::Named(name) => name,
    };
    let wanted = encode_utf16(name.as_str());
    let is_default = name.as_str().eq("Default");
    let state = WinState {
        phase: WinPhase::AwaitCurrentProcess,
        user: name,
        wanted,
        pids: Vec::new(),
        handles: Handles::none(),
    };
    if is_default {
        proceed(state, WinPhase::AwaitDefaultProfile, Handles::none(), WinCall::DefaultProfile)
    } else {
        (state, WinAction { close_token: false, close_process: false, call: WinCall::CurrentProcess })
    }
}

/// Takes the report of what the last action gave and says what to do next.
pub fn step(state: WinState, event: WinEvent) -> (r: (WinState, WinAction))
    ensures
        (r.0@, r.1@) == win_next(state@, event@),
        state@.wf() ==> r.0@.wf(),
{
    proof {
        if let WinEvent::Pids(Ok(found)) = &event {
            assert(found@.len() == found.len());
        }
        if state@.wf() {
            lemma_handles(state@, event@);
        }
    }
    let h = state.handles;
    match (state.phase, event) {
        (WinPhase::AwaitCurrentProcess, WinEvent::Opened(Ok(_))) => proceed(
            state,
            WinPhase::AwaitOwnerToken,
            Handles { process: ProcessSlot::Current, token: false },
            WinCall::OpenToken,
        ),
        (WinPhase::AwaitCurrentProcess, WinEvent::Opened(Err(err))) => finish(state, Err(err)),
        (WinPhase::AwaitOwnerToken, WinEvent::Opened(Ok(_))) => proceed(
            state,
            WinPhase::AwaitOwnerName,
            Handles { process: h.process, token: true },
            WinCall::TokenOwner,
        ),
        (WinPhase::AwaitOwnerToken, WinEvent::Opened(Err(err))) => finish(state, Err(err)),
        (WinPhase::AwaitOwnerName, WinEvent::Name(Ok(owner))) => {
            let direct = state.user.as_str().is_empty() || same_units(&owner, &state.wanted);
            let WinState { phase: _, user, wanted, pids, handles: _ } = state;
            (
                WinState {
                    phase: WinPhase::AwaitCurrentToken { direct },
                    user,
                    wanted,
                    pids,
                    handles: Handles { process: h.process, token: false },
                },
                WinAction { close_token: h.token, close_process: false, call: WinCall::OpenToken },
            )
        },
        (WinPhase::AwaitOwnerName, WinEvent::Name(Err(err))) => finish(state, Err(err)),
        (WinPhase::AwaitCurrentToken { direct }, WinEvent::Opened(Ok(_))) => {
            if direct {
                proceed(
                    state,
                    WinPhase::AwaitDirectProfile,
                    Handles { process: h.process, token: true },
                    WinCall::Profile,
                )
            } else {
                proceed(
                    state,
                    WinPhase::AwaitElevation,
                    Handles { process: h.process, token: true },
                    WinCall::Elevation,
                )
            }
        },
        (WinPhase::AwaitCurrentToken { direct: _ }, WinEvent::Opened(Err(err))) => finish(state, Err(err)),
        (WinPhase::AwaitDirectProfile, WinEvent::Path(r)) => finish(state, profile(r)),
        (WinPhase::AwaitDefaultProfile, WinEvent::Path(r)) => finish(state, profile(r)),
        (WinPhase::AwaitElevation, WinEvent::Elevated(Ok(elevated))) => {
            if elevated {
                let WinState { phase: _, user, wanted, pids, handles: _ } = state;
                (
                    WinState { phase: WinPhase::AwaitPids, user, wanted, pids, handles: Handles::none() },
                    WinAction {
                        close_token: h.token,
                        close_process: h.owns_process(),
                        call: WinCall::ListProcesses,
                    },
                )
            } else {
                let error = HomeDirError::permission_denied(state.user.as_str());
                finish(state, Err(error))
            }
        },
        (WinPhase::AwaitElevation, WinEvent::Elevated(Err(err))) => finish(state, Err(err)),
        (WinPhase::AwaitPids, WinEvent::Pids(Ok(found))) => {
            let WinState { phase, user, wanted, pids: _, handles } = state;
            scan(WinState { phase, user, wanted, pids: found, handles }, 0)
        },
        (WinPhase::AwaitPids, WinEvent::Pids(Err(err))) => finish(state, Err(err)),
        (WinPhase::AwaitProcess { index }, WinEvent::Opened(Ok(_))) => proceed(
            state,
            WinPhase::AwaitProcessToken { index },
            Handles { process: ProcessSlot::Other, token: false },
            WinCall::OpenToken,
        ),
        (WinPhase::AwaitProcess { index }, WinEvent::Opened(Err(_))) => after(state, index),
        (WinPhase::AwaitProcessToken { index }, WinEvent::Opened(Ok(_))) => proceed(
            state,
            WinPhase::AwaitProcessOwner { index },
            Handles { process: h.process, token: true },
            WinCall::TokenOwner,
        ),
        (WinPhase::AwaitProcessToken { index }, WinEvent::Opened(Err(_))) => after(state, index),
        (WinPhase::AwaitProcessOwner { index }, WinEvent::Name(Ok(owner))) => {
            if same_units(&owner, &state.wanted) {
                proceed(state, WinPhase::AwaitProcessProfile { index }, h, WinCall::Profile)
            } else {
                after(state, index)
            }
        },
        (WinPhase::AwaitProcessOwner { index }, WinEvent::Name(Err(_))) => after(state, index),
        (WinPhase::AwaitProcessProfile { index: _ }, WinEvent::Path(Ok(units))) => finish(
            state,
            Ok(ResolvedPath::Wide(units)),
        ),
        (WinPhase::AwaitProcessProfile { index }, WinEvent::Path(Err(_))) => after(state, index),
        _ => finish(state, Err(HomeDirError::os(None))),
    }
}

/// The state and the action that a resolution has reached from the state `s` and
/// the action `a` once the reports `events` have come in.
pub open spec fn win_after(s: WinModel, a: WinStep, events: Seq<WinReport>) -> (WinModel, WinStep)
    decreases events.len(),
{
    if events.len() == 0 {
        (s, a)
    } else {
        win_next(win_after(s, a, events.drop_last()).0, events.last())
    }
}

/// `native` may report `e` when it is handed the action `a`.
pub open spec fn win_reported<F: Fn(&WinAction) -> WinEvent>(native: F, a: WinStep, e: WinReport) -> bool {
    exists|action: WinAction, event: WinEvent| action@ == a && event@ == e && call_ensures(native, (&action,), event)
}

/// A resolution for `user` went by the reports `events` and ended with `result`: each
/// report is what `native` gave for the action that was due, no action before the
/// last one ended the resolution, and the last one ended it with `result`, closing
/// the handles that were still held.
pub open spec fn win_resolution<F: Fn(&WinAction) -> WinEvent>(
    native: F,
    user: Option<Seq<char>>,
    events: Seq<WinReport>,
    result: Result<PathView, Failure>,
) -> bool {
    let s = win_start(user).0;
    let a = win_start(user).1;
    &&& forall|i: int|
        0 <= i < events.len() ==> {
            &&& !(win_after(s, a, #[trigger] events.take(i)).1.call is Finish)
            &&& win_reported(native, win_after(s, a, events.take(i)).1, events[i])
        }
    &&& win_after(s, a, events).1.call == WinCallView::Finish(result)
    &&& !win_after(s, a, events).0.handles.owes()
}

/// Whether the action ends the resolution.
fn is_finish(action: &WinAction) -> (b: bool)
    ensures
        b == (action@.call is Finish),
{
    match action.call {
        WinCall::Finish(_) => true,
        _ => false,
    }
}

/// Returns the home directory of the current user if `user` is `None` or an empty
/// string, of the template account if it is `Default`, and of the provided user if it
/// is anything else.
///
/// `native` closes the handles that an action names, makes its native call, and
/// reports what the call gave. The resolution always comes to an end. The action that
/// ends it is not handed to `native`: it names every handle that is still owed, so
/// all that the caller holds when the result comes is to be closed, the token first.
pub fn home_dir<F>(user: Option<&str>, native: F) -> (r: Result<ResolvedPath, HomeDirError>)
    where F: Fn(&WinAction) -> WinEvent
    requires
        forall|action: &WinAction| call_requires(native, (action,)),
    ensures
        exists|events: Seq<WinReport>| win_resolution(native, chars_of_str(user), events, result_view(r)),
{
    let (first_state, first_action) = start(user);
    let ghost s0 = first_state@;
    let ghost a0 = first_action@;
    let ghost mut events: Seq<WinReport> = Seq::empty();
    let mut state = first_state;
    let mut action = first_action;
    proof {
        reveal_strlit("Default");
    }
    while !is_finish(&action)
        invariant
            forall|action: &WinAction| call_requires(native, (action,)),
            (state@, action@) == win_after(s0, a0, events),
            state@.wf(),
            action@.call is Finish <==> state@.phase is Done,
            forall|i: int|
                0 <= i < events.len() ==> {
                    &&& !(win_after(s0, a0, #[trigger] events.take(i)).1.call is Finish)
                    &&& win_reported(native, win_after(s0, a0, events.take(i)).1, events[i])
                },
        decreases win_distance(state@).0, win_distance(state@).1, win_distance(state@).2,
    {
        let event = native(&action);
        proof {
            if let WinEvent::Pids(Ok(found)) = &event {
                assert(found@.len() == found.len());
            }
            lemma_win_progress(state@, event@);
            let longer = events.push(event@);
            assert(longer.drop_last() =~= events);
            assert(win_reported(native, action@, event@));
            assert forall|i: int| 0 <= i < longer.len() implies {
                &&& !(win_after(s0, a0, #[trigger] longer.take(i)).1.call is Finish)
                &&& win_reported(native, win_after(s0, a0, longer.take(i)).1, longer[i])
            } by {
                if i < events.len() {
                    assert(longer.take(i) =~= events.take(i));
                } else {
                    assert(longer.take(i) =~= events);
                }
            }
            events = longer;
        }
        let next = step(state, event);
        state = next.0;
        action = next.1;
    }
    match action.call {
        WinCall::Finish(result) => {
            proof {
                assert(win_resolution(native, chars_of_str(user), events, result_view(result)));
            }
            result
        },
        _ => vstd::pervasive::unreached(),
    }
}

/// A profile directory, or the failure to read it, as the result of a resolution.
fn profile(r: Result<Vec<u16>, HomeDirError>) -> (result: Result<ResolvedPath, HomeDirError>)
    ensures
        result_view(result) == profile_result(units_view(r)),
{
    match r {
        Ok(units) => Ok(ResolvedPath::Wide(units)),
        Err(e) => Err(e),
    }
}

} // verus!
