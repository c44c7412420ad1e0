use std::path::PathBuf;
use vstd::prelude::*;

use crate::home_dir::buffer::{bytes_until_nul, c_string, copy_into_buffer, double_capacity, doubled, nul_terminated};
use crate::home_dir::error::{chars_of_str, Failure, HomeDirError};
use crate::home_dir::other::{current_home, current_result};
use crate::home_dir::path::{result_view, PathView, ResolvedPath};
use crate::home_dir::user::{normalized, UserRef};

verus! {

/// The size of the buffer with which the text of an error is first asked for.
pub const MESSAGE_CAPACITY: usize = 1024;

/// The largest buffer with which the text of an error is asked for.
pub const MESSAGE_LIMIT: usize = 65536;

/// The size with which a buffer for lookups is made: lookups make it grow to what
/// the entries of the system need.
pub const LOOKUP_CAPACITY: usize = 1;

/// The text that a sequence of bytes stands for when it is read as UTF-8, with a
/// replacement character for what is not: `String::from_utf8_lossy`.
pub uninterp spec fn utf8_lossy(bytes: Seq<u8>) -> Seq<char>;

/// `String::from_utf8_lossy` of std, made an owned string: the text depends on the
/// bytes alone and is named `utf8_lossy`.
#[verifier::external_body]
fn string_from_utf8_lossy(bytes: &[u8]) -> (text: String)
    ensures
        text@ == utf8_lossy(bytes@),
{
    String::from_utf8_lossy(bytes).into_owned()
}

/// `libc::ERANGE`, the status with which a native call says that the buffer it was
/// given is too small. It is not the status of success.
#[verifier::external_body]
fn range_error() -> (code: i32)
    ensures
        code != 0,
{
    libc::ERANGE
}

/// What the resolver waits for.
#[derive(Clone, Copy, Debug, PartialEq, Eq, Structural)]
pub enum PosixPhase {
    /// The answer to a lookup made with a buffer of `capacity` bytes.
    AwaitLookup { capacity: usize },
    /// The text of the error `errnum`, asked for with a buffer of `capacity` bytes.
    AwaitMessage { errnum: i32, capacity: usize },
    /// Nothing: the resolution is over.
    Done,
}

/// A resolution in progress on a system with a POSIX user database.
#[derive(Debug)]
pub struct PosixState {
    pub phase: PosixPhase,
    /// The name asked for; empty for the current user.
    pub user: String,
    /// The status that means "buffer too small".
    pub range_code: i32,
}

/// What the caller is to do next.
#[derive(Debug, PartialEq, Eq)]
pub enum PosixAction {
    /// Look the account `name` (NUL-terminated) up with a buffer of `capacity` bytes.
    Lookup { name: Vec<u8>, capacity: usize },
    /// Ask for the text of the error `errnum` with a buffer of `capacity` bytes.
    Describe { errnum: i32, capacity: usize },
    /// Hand the result to whoever asked.
    Finish(Result<ResolvedPath, HomeDirError>),
}

/// What the caller reports back.
#[derive(Debug)]
pub enum PosixEvent {
    /// A lookup returned `status`; `found` says whether it gave an entry, and `dir` is
    /// the home directory of the entry, up to its NUL, where the entry holds one.
    Lookup { status: i32, found: bool, dir: Option<Vec<u8>> },
    /// The request for an error's text returned `status` and left `text` in the buffer.
    Message { status: i32, text: Vec<u8> },
}

/// A resolution state as a plain value.
pub struct PosixModel {
    pub phase: PosixPhase,
    pub user: Seq<char>,
    pub range_code: i32,
}

/// An action as a plain value.
pub enum PosixStep {
    Lookup { name: Seq<u8>, capacity: usize },
    Describe { errnum: i32, capacity: usize },
    Finish(Result<PathView, Failure>),
}

/// An event as a plain value.
pub enum PosixReport {
    Lookup { status: i32, found: bool, dir: Option<Seq<u8>> },
    Message { status: i32, text: Seq<u8> },
}

impl PosixModel {
    /// The status that means "buffer too small" is not the status of success.
    pub open spec fn wf(self) -> bool {
        self.range_code != 0
    }
}

impl View for PosixState {
    type V = PosixModel;

    open spec fn view(&self) -> PosixModel {
        PosixModel { phase: self.phase, user: self.user@, range_code: self.range_code }
    }
}

impl View for PosixAction {
    type V = PosixStep;

    open spec fn view(&self) -> PosixStep {
        match self {
            PosixAction::Lookup { name, capacity } => PosixStep::Lookup { name: name@, capacity: *capacity },
            PosixAction::Describe { errnum, capacity } => PosixStep::Describe { errnum: *errnum, capacity: *capacity },
            PosixAction::Finish(r) => PosixStep::Finish(result_view(*r)),
        }
    }
}

impl View for PosixEvent {
    type V = PosixReport;

    open spec fn view(&self) -> PosixReport {
        match self {
            PosixEvent::Lookup { status, found, dir } => PosixReport::Lookup {
                status: *status,
                found: *found,
                dir: match dir {
                    Some(d) => Some(d@),
                    None => None,
                },
            },
            PosixEvent::Message { status, text } => PosixReport::Message { status: *status, text: text@ },
        }
    }
}

/// How a resolution begins. The current user's home directory is what the system
/// itself has for the owner of the process, `owner`, and the resolution is over at
/// once. Any other account is looked up by name, with the `capacity` bytes that the
/// caller's buffer has.
pub open spec fn posix_start(
    user: Option<Seq<char>>,
    range_code: i32,
    capacity: usize,
    owner: Option<PathBuf>,
) -> (PosixModel, PosixStep) {
    match normalized(user) {
        None => (
            PosixModel { phase: PosixPhase::Done, user: Seq::empty(), range_code },
            PosixStep::Finish(current_result(owner)),
        ),
        Some(name) => (
            PosixModel { phase: PosixPhase::AwaitLookup { capacity }, user: name, range_code },
            PosixStep::Lookup { name: nul_terminated(name), capacity },
        ),
    }
}

/// The end of a resolution with `result`.
pub open spec fn posix_finish(s: PosixModel, result: Result<PathView, Failure>) -> (PosixModel, PosixStep) {
    (PosixModel { phase: PosixPhase::Done, ..s }, PosixStep::Finish(result))
}

/// What a lookup that returned success stands for: no entry means that there is no
/// such user, an entry without a home directory is an error of the system that has
/// no text, and any other entry gives the path.
pub open spec fn lookup_result(user: Seq<char>, found: bool, dir: Option<Seq<u8>>) -> Result<PathView, Failure> {
    if !found {
        Err(Failure::NotFound(normalized(Some(user))))
    } else {
        match dir {
            None => Err(Failure::OS(None)),
            Some(d) => Ok(PathView::Bytes(d)),
        }
    }
}

/// The text of an error that was left in `text`: what stands before the first NUL,
/// read as UTF-8; none where the buffer holds no NUL.
pub open spec fn message_text(text: Seq<u8>) -> Option<Seq<char>> {
    match c_string(text) {
        Some(bytes) => Some(utf8_lossy(bytes)),
        None => None,
    }
}

/// The state and the action that follow when `e` is reported in state `s`.
///
/// A lookup that reports too small a buffer is made again with a buffer twice the
/// size, and nothing else is tried again. Any other failing status is an error of the
/// system, whose text is asked for next; that request is made again while the buffer is
/// too small and no larger than `MESSAGE_LIMIT`. A report that the state does not wait
/// for ends the resolution with an error of the system that has no text.
pub open spec fn posix_next(s: PosixModel, e: PosixReport) -> (PosixModel, PosixStep) {
    match (s.phase, e) {
        (PosixPhase::AwaitLookup { capacity }, PosixReport::Lookup { status, found, dir }) => {
            if status == 0 {
                posix_finish(s, lookup_result(s.user, found, dir))
            } else if status == s.range_code {
                if doubled(capacity as nat) <= usize::MAX {
                    let grown = doubled(capacity as nat) as usize;
                    (
                        PosixModel { phase: PosixPhase::AwaitLookup { capacity: grown }, ..s },
                        PosixStep::Lookup { name: nul_terminated(s.user), capacity: grown },
                    )
                } else {
                    posix_finish(s, Err(Failure::OS(None)))
                }
            } else {
                (
                    PosixModel { phase: PosixPhase::AwaitMessage { errnum: status, capacity: MESSAGE_CAPACITY }, ..s },
                    PosixStep::Describe { errnum: status, capacity: MESSAGE_CAPACITY },
                )
            }
        },
        (PosixPhase::AwaitMessage { errnum, capacity }, PosixReport::Message { status, text }) => {
            if status == 0 {
                posix_finish(s, Err(Failure::OS(message_text(text))))
            } else if status == s.range_code && doubled(capacity as nat) <= MESSAGE_LIMIT {
                let grown = doubled(capacity as nat) as usize;
                (
                    PosixModel { phase: PosixPhase::AwaitMessage { errnum, capacity: grown }, ..s },
                    PosixStep::Describe { errnum, capacity: grown },
                )
            } else {
                posix_finish(s, Err(Failure::OS(None)))
            }
        },
        _ => posix_finish(s, Err(Failure::OS(None))),
    }
}

/// Begins the resolution of the home directory of `user`: of the current user where
/// `user` is `None` or empty; `capacity` is the size of the buffer that the caller has
/// for lookups. For the current user the system is asked directly, and the action is
/// the result, whatever the system said. The status with which the system says that a
/// buffer is too small is the one that the platform defines.
pub fn start(user: Option<&str>, capacity: usize) -> (r: (PosixState, PosixAction))
    ensures
        exists|owner: Option<PathBuf>|
            (r.0@, r.1@) == posix_start(chars_of_str(user), r.0.range_code, capacity, owner),
        r.0@.wf(),
{
    start_with(user, capacity, range_error())
}

/// Begins a resolution as `start` does, on a system that reports too small a buffer
/// with the status `range_code`.
pub fn start_with(user: Option<&str>, capacity: usize, range_code: i32) -> (r: (PosixState, PosixAction))
    ensures
        exists|owner: Option<PathBuf>|
            (r.0@, r.1@) == posix_start(chars_of_str(user), range_code, capacity, owner),
        r.0.range_code == range_code,
{
    match UserRef::from_option(user) {
        UserRef::Current => {
            let owner = dirs::home_dir();
            let r = (
                PosixState { phase: PosixPhase::Done, user: String::new(), range_code },
                PosixAction::Finish(current_home(owner)),
            );
            assert((r.0@, r.1@) == posix_start(chars_of_str(user), r.0.range_code, capacity, owner));
            r
        },
        UserRef::Named(name) => {
            let mut buf: Vec<u8> = Vec::new();
            copy_into_buffer(name.as_str(), &mut buf);
            let r = (
                PosixState { phase: PosixPhase::AwaitLookup { capacity }, user: name, range_code },
                PosixAction::Lookup { name: buf, capacity },
            );
            assert((r.0@, r.1@) == posix_start(chars_of_str(user), r.0.range_code, capacity, None));
            r
        },
    }
}

/// Takes the report of what the last action gave and says what to do next.
pub fn step(state: PosixState, event: PosixEvent) -> (r: (PosixState, PosixAction))
    ensures
        (r.0@, r.1@) == posix_next(state@, event@),
        state@.wf() ==> r.0@.wf(),
{
    let PosixState { phase, user, range_code } = state;
    match (phase, event) {
        (PosixPhase::AwaitLookup { capacity }, PosixEvent::Lookup { status, found, dir }) => {
            if status == 0 {
                let result = if !found {
                    Err(HomeDirError::not_found(Some(user.as_str())))
                } else {
                    match dir {
                        None => Err(HomeDirError::os(None)),
                        Some(d) => Ok(ResolvedPath::Bytes(d)),
                    }
                };
                (PosixState { phase: PosixPhase::Done, user, range_code }, PosixAction::Finish(result))
            } else if status == range_code {
                match double_capacity(capacity) {
                    Some(grown) => {
                        let mut name: Vec<u8> = Vec::new();
                        copy_into_buffer(user.as_str(), &mut name);
                        (
                            PosixState { phase: PosixPhase::AwaitLookup { capacity: grown }, user, range_code },
                            PosixAction::Lookup { name, capacity: grown },
                        )
                    },
                    None => (
                        PosixState { phase: PosixPhase::Done, user, range_code },
                        PosixAction::Finish(Err(HomeDirError::os(None))),
                    ),
                }
            } else {
                (
                    PosixState {
                        phase: PosixPhase::AwaitMessage { errnum: status, capacity: MESSAGE_CAPACITY },
                        user,
                        range_code,
                    },
                    PosixAction::Describe { errnum: status, capacity: MESSAGE_CAPACITY },
                )
            }
        },
        (PosixPhase::AwaitMessage { errnum, capacity }, PosixEvent::Message { status, text }) => {
            if status == 0 {
                let error = os_from_buffer(text.as_slice());
                (PosixState { phase: PosixPhase::Done, user, range_code }, PosixAction::Finish(Err(error)))
            } else if status == range_code && capacity <= MESSAGE_LIMIT / 2 {
                let grown = if capacity == 0 { 1 } else { 2 * capacity };
                (
                    PosixState { phase: PosixPhase::AwaitMessage { errnum, capacity: grown }, user, range_code },
                    PosixAction::Describe { errnum, capacity: grown },
                )
            } else {
                (
                    PosixState { phase: PosixPhase::Done, user, range_code },
                    PosixAction::Finish(Err(HomeDirError::os(None))),
                )
            }
        },
        _ => (
            PosixState { phase: PosixPhase::Done, user, range_code },
            PosixAction::Finish(Err(HomeDirError::os(None))),
        ),
    }
}

/// The state and the action that a resolution has reached from the state `s` and
/// the action `a` once the reports `events` have come in.
pub open spec fn posix_after(s: PosixModel, a: PosixStep, events: Seq<PosixReport>) -> (PosixModel, PosixStep)
    decreases events.len(),
{
    if events.len() == 0 {
        (s, a)
    } else {
        posix_next(posix_after(s, a, events.drop_last()).0, events.last())
    }
}

/// `native` may report `e` when it is handed the action `a`.
pub open spec fn posix_reported<F: Fn(&PosixAction) -> PosixEvent>(native: F, a: PosixStep, e: PosixReport) -> bool {
    exists|action: PosixAction, event: PosixEvent|
        action@ == a && event@ == e && call_ensures(native, (&action,), event)
}

/// A resolution that began in state `s` with the action `a` went by the reports
/// `events` and ended with `result`: each report is what `native` gave for the
/// action that was due, no action before the last one ended the resolution, and the
/// last one ended it with `result`.
pub open spec fn posix_resolution<F: Fn(&PosixAction) -> PosixEvent>(
    native: F,
    s: PosixModel,
    a: PosixStep,
    events: Seq<PosixReport>,
    result: Result<PathView, Failure>,
) -> bool {
    &&& forall|i: int|
        0 <= i < events.len() ==> {
            &&& !(posix_after(s, a, #[trigger] events.take(i)).1 is Finish)
            &&& posix_reported(native, posix_after(s, a, events.take(i)).1, events[i])
        }
    &&& posix_after(s, a, events).1 == PosixStep::Finish(result)
}

/// Whether the action ends the resolution.
fn is_finish(action: &PosixAction) -> (b: bool)
    ensures
        b == (action@ is Finish),
{
    match action {
        PosixAction::Finish(_) => true,
        _ => false,
    }
}

/// Returns the home directory of the current user if `user` is `None` or an empty
/// string, and of the provided user if `user` is anything else.
///
/// `native` makes the native call that an action names, with a buffer of the size
/// that the action gives, and reports what the call gave; `capacity` is the size of
/// the buffer that it has at first. The resolution always comes to an end: a call is
/// made again only with a larger buffer. The status with which the system says that a
/// buffer is too small is the one that the platform defines.
pub fn home_dir<F>(user: Option<&str>, capacity: usize, native: F) -> (r: Result<ResolvedPath, HomeDirError>)
    where F: Fn(&PosixAction) -> PosixEvent
    requires
        forall|action: &PosixAction| call_requires(native, (action,)),
    ensures
        exists|range_code: i32, owner: Option<PathBuf>, events: Seq<PosixReport>|
            range_code != 0 && #[trigger] posix_resolution(
                native,
                posix_start(chars_of_str(user), range_code, capacity, owner).0,
                posix_start(chars_of_str(user), range_code, capacity, owner).1,
                events,
                result_view(r),
            ),
{
    resolve(user, capacity, range_error(), native)
}

/// Runs a resolution as `home_dir` does, on a system that reports too small a buffer
/// with the status `range_code`: the result is that of a resolution which began as
/// `posix_start` says for this status and went by what `native` reported.
pub fn resolve<F>(user: Option<&str>, capacity: usize, range_code: i32, native: F) -> (r: Result<
    ResolvedPath,
    HomeDirError,
>)
    where F: Fn(&PosixAction) -> PosixEvent
    requires
        forall|action: &PosixAction| call_requires(native, (action,)),
    ensures
        exists|owner: Option<PathBuf>, events: Seq<PosixReport>| #[trigger]
            posix_resolution(
                native,
                posix_start(chars_of_str(user), range_code, capacity, owner).0,
                posix_start(chars_of_str(user), range_code, capacity, owner).1,
                events,
                result_view(r),
            ),
{
    let (first_state, first_action) = start_with(user, capacity, range_code);
    let ghost s0 = first_state@;
    let ghost a0 = first_action@;
    let ghost code = range_code;
    let ghost owner = choose|owner: Option<PathBuf>|
        (s0, a0) == posix_start(chars_of_str(user), code, capacity, owner);
    let ghost mut events: Seq<PosixReport> = Seq::empty();
    let mut state = first_state;
    let mut action = first_action;
    while !is_finish(&action)
        invariant
            forall|action: &PosixAction| call_requires(native, (action,)),
            (state@, action@) == posix_after(s0, a0, events),
            action@ is Finish <==> state@.phase is Done,
            forall|i: int|
                0 <= i < events.len() ==> {
                    &&& !(posix_after(s0, a0, #[trigger] events.take(i)).1 is Finish)
                    &&& posix_reported(native, posix_after(s0, a0, events.take(i)).1, events[i])
                },
        decreases posix_distance(state@).0, posix_distance(state@).1,
    {
        let event = native(&action);
        proof {
            lemma_posix_progress(state@, event@);
            let longer = events.push(event@);
            assert(longer.drop_last() =~= events);
            assert(posix_reported(native, action@, event@));
            assert forall|i: int| 0 <= i < longer.len() implies {
                &&& !(posix_after(s0, a0, #[trigger] longer.take(i)).1 is Finish)
                &&& posix_reported(native, posix_after(s0, a0, longer.take(i)).1, longer[i])
            } by {
                if i < events.len() {
                    assert(longer.take(i) =~= events.take(i));
                } else {
                    assert(longer.take(i) =~= events);
                }
            }
            events = longer;
        }
        let next = step(state, event);
        state = next.0;
        action = next.1;
    }
    match action {
        PosixAction::Finish(result) => {
            proof {
                assert(posix_resolution(
                    native,
                    posix_start(chars_of_str(user), code, capacity, owner).0,
                    posix_start(chars_of_str(user), code, capacity, owner).1,
                    events,
                    result_view(result),
                ));
            }
            result
        },
        _ => vstd::pervasive::unreached(),
    }
}

/// What a system reports for a lookup with a buffer of `capacity` bytes when the entry
/// of the user needs `need` bytes and holds the home directory `dir`: that the buffer
/// is too small, or the entry.
pub open spec fn system_lookup(range_code: i32, need: nat, dir: Seq<u8>, capacity: usize) -> PosixReport {
    if capacity < need {
        PosixReport::Lookup { status: range_code, found: false, dir: None }
    } else {
        PosixReport::Lookup { status: 0, found: true, dir: Some(dir) }
    }
}

/// The result of a resolution that waits for a lookup in state `s`, on such a system,
/// if it ends within `tries` further lookups.
pub open spec fn lookup_outcome(s: PosixModel, need: nat, dir: Seq<u8>, tries: nat) -> Option<Result<PathView, Failure>>
    decreases tries,
{
    match s.phase {
        PosixPhase::AwaitLookup { capacity } => {
            let (next, step) = posix_next(s, system_lookup(s.range_code, need, dir, capacity));
            match step {
                PosixStep::Finish(result) => Some(result),
                _ => if tries == 0 {
                    None
                } else {
                    lookup_outcome(next, need, dir, (tries - 1) as nat)
                },
            }
        },
        _ => None,
    }
}

/// Growing the buffer converges: a lookup whose entry needs more bytes than the
/// buffer has, however small the buffer is at first, ends after at most as many
/// further lookups as bytes are missing, and gives the home directory of the entry
/// exactly. (A buffer of twice the size needed must be one that can exist.)
pub proof fn lemma_growth_converges(s: PosixModel, need: nat, dir: Seq<u8>, tries: nat)
    requires
        s.wf(),
        s.phase is AwaitLookup,
        2 * need <= usize::MAX,
        tries + s.phase->AwaitLookup_capacity >= need,
    ensures
        lookup_outcome(s, need, dir, tries) == Some(Ok::<PathView, Failure>(PathView::Bytes(dir))),
    decreases tries,
{
    let capacity = s.phase->AwaitLookup_capacity;
    if capacity < need {
        let (next, step) = posix_next(s, system_lookup(s.range_code, need, dir, capacity));
        assert(doubled(capacity as nat) <= usize::MAX);
        assert(next.phase == PosixPhase::AwaitLookup { capacity: doubled(capacity as nat) as usize });
        assert(tries > 0);
        lemma_growth_converges(next, need, dir, (tries - 1) as nat);
    }
}

/// `native` answers lookups as a system does on which the entry of the user needs
/// `need` bytes and holds the home directory `dir`.
pub open spec fn looks_up_as<F: Fn(&PosixAction) -> PosixEvent>(
    native: F,
    range_code: i32,
    need: nat,
    dir: Seq<u8>,
) -> bool {
    forall|a: PosixStep, e: PosixReport| #[trigger]
        posix_reported(native, a, e) ==> (a matches PosixStep::Lookup { name, capacity } ==> e == system_lookup(
            range_code,
            need,
            dir,
            capacity,
        ))
}

/// The size at which a buffer of `capacity` bytes arrives when it is doubled for as
/// long as it is smaller than `need`.
pub open spec fn grown_to_fit(capacity: nat, need: nat) -> nat
    decreases (if capacity < need { need - capacity } else { 0 }),
{
    if capacity >= need {
        capacity
    } else {
        grown_to_fit(doubled(capacity), need)
    }
}

/// Whether `n` is a power of two.
pub open spec fn is_power_of_two(n: nat) -> bool {
    exists|k: nat| n == vstd::arithmetic::power2::pow2(k)
}

/// The buffer that fits is large enough, no smaller than the buffer was at first,
/// and smaller than twice what is needed or the buffer as it was; and growing from a
/// power of two, or from nothing where something is needed, ends at a power of two.
pub proof fn lemma_grown_to_fit(capacity: nat, need: nat)
    ensures
        grown_to_fit(capacity, need) >= need,
        grown_to_fit(capacity, need) >= capacity,
        capacity >= need ==> grown_to_fit(capacity, need) == capacity,
        capacity < need ==> grown_to_fit(capacity, need) < 2 * need,
        is_power_of_two(capacity) || (capacity == 0 && need > 0) ==> is_power_of_two(grown_to_fit(capacity, need)),
    decreases (if capacity < need { need - capacity } else { 0 }),
{
    if capacity < need {
        lemma_grown_to_fit(doubled(capacity), need);
        if capacity == 0 {
            vstd::arithmetic::power2::lemma2_to64();
            assert(doubled(capacity) == vstd::arithmetic::power2::pow2(0));
        } else if is_power_of_two(capacity) {
            let k = choose|k: nat| capacity == vstd::arithmetic::power2::pow2(k);
            vstd::arithmetic::power2::lemma_pow2_unfold(k + 1);
            assert(doubled(capacity) == vstd::arithmetic::power2::pow2(k + 1));
        }
    }
}

/// As long as the resolution is not over, it waits for a lookup of the user, with a
/// buffer that is on its way to the one that fits.
proof fn lemma_lookups_only<F: Fn(&PosixAction) -> PosixEvent>(
    native: F,
    s: PosixModel,
    a: PosixStep,
    events: Seq<PosixReport>,
    need: nat,
    dir: Seq<u8>,
    k: int,
)
    requires
        s.wf(),
        s.phase is AwaitLookup,
        a == (PosixStep::Lookup { name: nul_terminated(s.user), capacity: s.phase->AwaitLookup_capacity }),
        2 * need <= usize::MAX,
        looks_up_as(native, s.range_code, need, dir),
        0 <= k <= events.len(),
        forall|i: int|
            0 <= i < events.len() ==> {
                &&& !(posix_after(s, a, #[trigger] events.take(i)).1 is Finish)
                &&& posix_reported(native, posix_after(s, a, events.take(i)).1, events[i])
            },
    ensures
        ({
            let (sk, ak) = posix_after(s, a, events.take(k));
            ||| {
                &&& k > 0
                &&& ak == PosixStep::Finish(Ok(PathView::Bytes(dir)))
                &&& posix_after(s, a, events.take(k - 1)).1 == (PosixStep::Lookup {
                    name: nul_terminated(s.user),
                    capacity: grown_to_fit(s.phase->AwaitLookup_capacity as nat, need) as usize,
                })
            }
            ||| {
                &&& sk.phase is AwaitLookup
                &&& sk.user == s.user
                &&& sk.range_code == s.range_code
                &&& ak == (PosixStep::Lookup { name: nul_terminated(s.user), capacity: sk.phase->AwaitLookup_capacity })
                &&& grown_to_fit(sk.phase->AwaitLookup_capacity as nat, need) == grown_to_fit(
                    s.phase->AwaitLookup_capacity as nat,
                    need,
                )
            }
        }),
    decreases k,
{
    if k > 0 {
        lemma_lookups_only(native, s, a, events, need, dir, k - 1);
        assert(events.take(k).drop_last() =~= events.take(k - 1));
        assert(events.take(k).last() == events[k - 1]);
        let (sp, ap) = posix_after(s, a, events.take(k - 1));
        assert(!(ap is Finish));
        assert(posix_reported(native, ap, events[k - 1]));
        let capacity = sp.phase->AwaitLookup_capacity;
        assert(events[k - 1] == system_lookup(s.range_code, need, dir, capacity));
        lemma_grown_to_fit(capacity as nat, need);
        if capacity < need {
            assert(doubled(capacity as nat) <= usize::MAX);
        }
    } else {
        assert(events.take(0) =~= Seq::<PosixReport>::empty());
    }
}

/// A resolution through `home_dir` finds the home directory however small the buffer
/// is at first: where the system answers every lookup that is too small for the entry
/// by saying so, and every other one with the entry, the result is the home directory
/// of the entry, exactly. The lookup that is answered is the last one, and it is made
/// with the buffer that `grown_to_fit` gives: one that is large enough, and a power of
/// two where the buffer was one at first. (A buffer of twice the size needed must be
/// one that can exist.)
pub proof fn lemma_resolution_grows_to_fit<F: Fn(&PosixAction) -> PosixEvent>(
    native: F,
    name: Seq<char>,
    range_code: i32,
    capacity: usize,
    owner: Option<PathBuf>,
    events: Seq<PosixReport>,
    result: Result<PathView, Failure>,
    need: nat,
    dir: Seq<u8>,
)
    requires
        name.len() > 0,
        range_code != 0,
        2 * need <= usize::MAX,
        looks_up_as(native, range_code, need, dir),
        posix_resolution(
            native,
            posix_start(Some(name), range_code, capacity, owner).0,
            posix_start(Some(name), range_code, capacity, owner).1,
            events,
            result,
        ),
    ensures
        result == Ok::<PathView, Failure>(PathView::Bytes(dir)),
        events.len() > 0,
        posix_after(
            posix_start(Some(name), range_code, capacity, owner).0,
            posix_start(Some(name), range_code, capacity, owner).1,
            events.drop_last(),
        ).1 == (PosixStep::Lookup {
            name: nul_terminated(name),
            capacity: grown_to_fit(capacity as nat, need) as usize,
        }),
        grown_to_fit(capacity as nat, need) >= need,
        is_power_of_two(capacity as nat) ==> is_power_of_two(grown_to_fit(capacity as nat, need)),
{
    let s = posix_start(Some(name), range_code, capacity, owner).0;
    let a = posix_start(Some(name), range_code, capacity, owner).1;
    lemma_lookups_only(native, s, a, events, need, dir, events.len() as int);
    assert(events.take(events.len() as int) =~= events);
    assert(events.take(events.len() - 1) =~= events.drop_last());
    lemma_grown_to_fit(capacity as nat, need);
}

/// `native` reports as the function `sys` does: what it gives for an action is what
/// `sys` has for that action.
pub open spec fn reports_as<F: Fn(&PosixAction) -> PosixEvent>(
    native: F,
    sys: spec_fn(PosixStep) -> PosixReport,
) -> bool {
    forall|a: PosixStep, e: PosixReport| #[trigger] posix_reported(native, a, e) ==> e == sys(a)
}

/// Whether the report says that the buffer of a lookup was too small.
pub open spec fn too_small(e: PosixReport, range_code: i32) -> bool {
    e matches PosixReport::Lookup { status, .. } && status != 0 && status == range_code
}

/// On the system `sys` a lookup of `name` needs `need` bytes: with fewer the system
/// says that the buffer is too small, and with that many or more it answers, in the
/// same way whatever the size.
pub open spec fn needs(sys: spec_fn(PosixStep) -> PosixReport, range_code: i32, name: Seq<u8>, need: nat) -> bool {
    forall|capacity: usize|
        {
            let e = #[trigger] sys(PosixStep::Lookup { name, capacity });
            if capacity < need {
                too_small(e, range_code)
            } else {
                !too_small(e, range_code) && e == sys(PosixStep::Lookup { name, capacity: need as usize })
            }
        }
}

/// The state and the action of a resolution for the user of `s` once the lookup was
/// answered, on a system on which it needs `need` bytes.
pub open spec fn settled(s: PosixModel, sys: spec_fn(PosixStep) -> PosixReport, need: nat) -> (PosixModel, PosixStep) {
    posix_next(
        PosixModel { phase: PosixPhase::AwaitLookup { capacity: need as usize }, ..s },
        sys(PosixStep::Lookup { name: nul_terminated(s.user), capacity: need as usize }),
    )
}

/// The reports after the first one lead on from what the first one led to.
proof fn lemma_after_front(s: PosixModel, a: PosixStep, events: Seq<PosixReport>)
    requires
        events.len() > 0,
    ensures
        posix_after(s, a, events) == posix_after(
            posix_next(s, events[0]).0,
            posix_next(s, events[0]).1,
            events.drop_first(),
        ),
    decreases events.len(),
{
    let first = posix_next(s, events[0]);
    if events.len() == 1 {
        assert(events.drop_last() =~= Seq::<PosixReport>::empty());
        assert(events.drop_first() =~= Seq::<PosixReport>::empty());
        assert(posix_after(s, a, events.drop_last()) == (s, a));
        assert(posix_after(first.0, first.1, events.drop_first()) == first);
        assert(events.last() == events[0]);
    } else {
        let front = events.drop_last();
        let rest = events.drop_first();
        lemma_after_front(s, a, front);
        assert(front.drop_first() =~= rest.drop_last());
        assert(front[0] == events[0]);
        assert(rest.last() == events.last());
        assert(posix_after(s, a, events) == posix_next(posix_after(s, a, front).0, events.last()));
        assert(posix_after(first.0, first.1, rest) == posix_next(
            posix_after(first.0, first.1, rest.drop_last()).0,
            rest.last(),
        ));
    }
}

/// A resolution without reports began with its end; any other began with an action
/// that `native` answered by the first report, and is a resolution from there on.
proof fn lemma_resolution_front<F: Fn(&PosixAction) -> PosixEvent>(
    native: F,
    s: PosixModel,
    a: PosixStep,
    events: Seq<PosixReport>,
    result: Result<PathView, Failure>,
)
    requires
        posix_resolution(native, s, a, events, result),
    ensures
        events.len() == 0 ==> a == PosixStep::Finish(result),
        events.len() > 0 ==> {
            &&& !(a is Finish)
            &&& posix_reported(native, a, events[0])
            &&& posix_resolution(
                native,
                posix_next(s, events[0]).0,
                posix_next(s, events[0]).1,
                events.drop_first(),
                result,
            )
        },
{
    if events.len() > 0 {
        assert(events.take(0) =~= Seq::<PosixReport>::empty());
        assert(posix_after(s, a, events.take(0)) == (s, a));
        let rest = events.drop_first();
        let s1 = posix_next(s, events[0]).0;
        let a1 = posix_next(s, events[0]).1;
        assert forall|i: int| 0 <= i < rest.len() implies {
            &&& !(posix_after(s1, a1, #[trigger] rest.take(i)).1 is Finish)
            &&& posix_reported(native, posix_after(s1, a1, rest.take(i)).1, rest[i])
        } by {
            let part = events.take(i + 1);
            lemma_after_front(s, a, part);
            assert(part.drop_first() =~= rest.take(i));
            assert(part[0] == events[0]);
            assert(rest[i] == events[i + 1]);
        }
        lemma_after_front(s, a, events);
    }
}

/// On a system that answers each action in one way, a resolution is determined by
/// where it begins: two resolutions from the same state and action went by the same
/// reports and ended with the same result.
pub proof fn lemma_resolution_determined<F: Fn(&PosixAction) -> PosixEvent>(
    native: F,
    sys: spec_fn(PosixStep) -> PosixReport,
    s: PosixModel,
    a: PosixStep,
    events: Seq<PosixReport>,
    result: Result<PathView, Failure>,
    others: Seq<PosixReport>,
    other: Result<PathView, Failure>,
)
    requires
        reports_as(native, sys),
        posix_resolution(native, s, a, events, result),
        posix_resolution(native, s, a, others, other),
    ensures
        result == other,
        events == others,
    decreases events.len(),
{
    lemma_resolution_front(native, s, a, events, result);
    lemma_resolution_front(native, s, a, others, other);
    if events.len() == 0 {
        assert(events =~= others);
    } else {
        assert(events[0] == sys(a));
        assert(others[0] == sys(a));
        lemma_resolution_determined(
            native,
            sys,
            posix_next(s, events[0]).0,
            posix_next(s, events[0]).1,
            events.drop_first(),
            result,
            others.drop_first(),
            other,
        );
        assert(events =~= seq![events[0]] + events.drop_first());
        assert(others =~= seq![others[0]] + others.drop_first());
    }
}

/// A resolution that waits for a lookup goes on, once the buffer has grown to what the
/// lookup needs, from where the answer leads, whatever the buffer was at first.
proof fn lemma_lookup_phase<F: Fn(&PosixAction) -> PosixEvent>(
    native: F,
    sys: spec_fn(PosixStep) -> PosixReport,
    s: PosixModel,
    events: Seq<PosixReport>,
    result: Result<PathView, Failure>,
    need: nat,
) -> (tail: Seq<PosixReport>)
    requires
        s.wf(),
        s.phase is AwaitLookup,
        2 * need <= usize::MAX,
        reports_as(native, sys),
        needs(sys, s.range_code, nul_terminated(s.user), need),
        posix_resolution(
            native,
            s,
            PosixStep::Lookup { name: nul_terminated(s.user), capacity: s.phase->AwaitLookup_capacity },
            events,
            result,
        ),
    ensures
        posix_resolution(native, settled(s, sys, need).0, settled(s, sys, need).1, tail, result),
    decreases (if s.phase->AwaitLookup_capacity < need { need - s.phase->AwaitLookup_capacity } else { 0 }),
{
    let capacity = s.phase->AwaitLookup_capacity;
    let a = PosixStep::Lookup { name: nul_terminated(s.user), capacity };
    lemma_resolution_front(native, s, a, events, result);
    let e = events[0];
    assert(e == sys(a));
    if capacity < need {
        assert(too_small(e, s.range_code));
        assert(doubled(capacity as nat) <= usize::MAX);
        let next = posix_next(s, e).0;
        assert(settled(next, sys, need) == settled(s, sys, need));
        lemma_lookup_phase(native, sys, next, events.drop_first(), result, need)
    } else {
        assert(!too_small(e, s.range_code));
        assert(posix_next(s, e) == settled(s, sys, need));
        events.drop_first()
    }
}

/// The result does not depend on the size that the buffer has at first, whether the
/// lookup succeeds or fails: on a system that answers each action in one way, and on
/// which the lookup of the user needs `need` bytes, two resolutions for the same user
/// end with the same result, whatever the two buffers were at first. (A buffer of
/// twice the size needed must be one that can exist.)
pub proof fn lemma_capacity_is_immaterial<F: Fn(&PosixAction) -> PosixEvent>(
    native: F,
    sys: spec_fn(PosixStep) -> PosixReport,
    name: Seq<char>,
    range_code: i32,
    need: nat,
    capacity: usize,
    owner: Option<PathBuf>,
    events: Seq<PosixReport>,
    result: Result<PathView, Failure>,
    other_capacity: usize,
    other_owner: Option<PathBuf>,
    other_events: Seq<PosixReport>,
    other_result: Result<PathView, Failure>,
)
    requires
        name.len() > 0,
        range_code != 0,
        2 * need <= usize::MAX,
        reports_as(native, sys),
        needs(sys, range_code, nul_terminated(name), need),
        posix_resolution(
            native,
            posix_start(Some(name), range_code, capacity, owner).0,
            posix_start(Some(name), range_code, capacity, owner).1,
            events,
            result,
        ),
        posix_resolution(
            native,
            posix_start(Some(name), range_code, other_capacity, other_owner).0,
            posix_start(Some(name), range_code, other_capacity, other_owner).1,
            other_events,
            other_result,
        ),
    ensures
        result == other_result,
{
    let s = posix_start(Some(name), range_code, capacity, owner).0;
    let t = posix_start(Some(name), range_code, other_capacity, other_owner).0;
    let tail = lemma_lookup_phase(native, sys, s, events, result, need);
    let other_tail = lemma_lookup_phase(native, sys, t, other_events, other_result, need);
    assert(settled(s, sys, need) == settled(t, sys, need));
    lemma_resolution_determined(
        native,
        sys,
        settled(s, sys, need).0,
        settled(s, sys, need).1,
        tail,
        result,
        other_tail,
        other_result,
    );
}

/// How far a resolution is from its end: the rank of its phase, and within the phase
/// the room that is left for the buffer to grow.
pub open spec fn posix_distance(s: PosixModel) -> (nat, nat) {
    match s.phase {
        PosixPhase::AwaitLookup { capacity } => (2, (usize::MAX - capacity) as nat),
        PosixPhase::AwaitMessage { errnum, capacity } => (
            1,
            if capacity <= MESSAGE_LIMIT {
                (MESSAGE_LIMIT - capacity) as nat
            } else {
                0
            },
        ),
        PosixPhase::Done => (0, 0),
    }
}

/// Whether the distance `a` is smaller than `b`: the phase counts first.
pub open spec fn nearer(a: (nat, nat), b: (nat, nat)) -> bool {
    a.0 < b.0 || (a.0 == b.0 && a.1 < b.1)
}

/// No resolution goes on forever: whatever is reported to a resolution that is not
/// over, the state that follows is nearer to the end; and a resolution is over exactly
/// when its action says so. The only call that is made again is one whose buffer was
/// too small, and the buffer is larger each time.
pub proof fn lemma_posix_progress(s: PosixModel, e: PosixReport)
    ensures
        posix_next(s, e).1 is Finish <==> posix_next(s, e).0.phase is Done,
        s.phase is Done || nearer(posix_distance(posix_next(s, e).0), posix_distance(s)),
{
}

/// The empty name and no name are the same user: a resolution begins in the same way
/// for both, so whatever the system answers, both end with the same result.
pub proof fn lemma_empty_name_is_current(range_code: i32, capacity: usize, owner: Option<PathBuf>)
    ensures
        posix_start(Some(Seq::empty()), range_code, capacity, owner) == posix_start(
            None,
            range_code,
            capacity,
            owner,
        ),
{
}

/// A name that the user database does not know is not found, and is no error of the
/// system: a lookup that returns success without an entry ends the resolution with
/// `NotFound` for the name asked for, whatever the size of the buffer.
pub proof fn lemma_unknown_user_is_not_found(s: PosixModel, dir: Option<Seq<u8>>)
    requires
        s.phase is AwaitLookup,
    ensures
        posix_next(s, PosixReport::Lookup { status: 0, found: false, dir }) == posix_finish(
            s,
            Err(Failure::NotFound(normalized(Some(s.user)))),
        ),
{
}

/// The current user is resolved whenever the system has a home directory for the
/// owner of the process: the result is that directory as the system gave it, so the
/// same answer of the system gives the same path every time, and without one the
/// user is not found.
pub proof fn lemma_current_user_resolves(
    user: Option<Seq<char>>,
    range_code: i32,
    capacity: usize,
    owner: Option<PathBuf>,
)
    requires
        normalized(user) is None,
    ensures
        posix_start(user, range_code, capacity, owner).1 == PosixStep::Finish(
            match owner {
                Some(path) => Ok(PathView::Native(path)),
                None => Err(Failure::NotFound(None)),
            },
        ),
{
}

/// The error of the system whose text was left in `text`.
pub fn os_from_buffer(text: &[u8]) -> (e: HomeDirError)
    ensures
        e@ == Failure::OS(message_text(text@)),
{
    match bytes_until_nul(text) {
        Some(bytes) => HomeDirError::os(Some(string_from_utf8_lossy(bytes.as_slice()))),
        None => HomeDirError::os(None),
    }
}

} // verus!
