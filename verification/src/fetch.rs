//! The fetch policy: a fixed sequence of platform calls, each followed by a
//! check that either lets the fetch go on or ends it with a reason.
//!
//! The policy never touches the platform. A driver asks the session which
//! call is pending, performs it, hands the reply back, and repeats until no
//! call is pending. There are no retries: the first check that fails decides
//! the result.

use vstd::prelude::*;
use vstd::string::*;
use crate::outcome::{CoordinateResult, Outcome};
use crate::platform::{PlatformCall, PlatformReply, Reply};

verus! {

/// Reason reported when no platform context can be obtained.
pub const CONTEXT_UNAVAILABLE: &'static str = "context unavailable";

/// Reason reported when fine-location permission has not been granted.
pub const PERMISSION_NOT_GRANTED: &'static str = "permission not granted";

/// Reason reported when the platform has no location service.
pub const SERVICE_UNAVAILABLE: &'static str = "service unavailable";

/// Reason reported when the GPS provider is switched off.
pub const PROVIDER_DISABLED: &'static str = "provider disabled";

/// Reason reported when the GPS provider has no last known location.
pub const NO_KNOWN_LOCATION: &'static str = "no known location";

/// The status code with which the platform reports a granted permission.
pub const PERMISSION_GRANTED: i32 = 0;

/// The reason with which `reply`, given in answer to `call`, ends the fetch,
/// or `None` where the reply passes the call's check.
///
/// A failure of the bridge ends the fetch at any call, with the bridge's own
/// message. Otherwise each of the first five calls has one condition under
/// which it fails; the two coordinate getters check nothing.
pub open spec fn refusal(call: PlatformCall, reply: Reply) -> Option<Seq<char>> {
    match reply {
        Reply::Failure { message } => Some(message),
        Reply::Handle { present } => if present {
            None
        } else {
            match call {
                PlatformCall::AcquireContext => Some(CONTEXT_UNAVAILABLE@),
                PlatformCall::GetLocationService => Some(SERVICE_UNAVAILABLE@),
                PlatformCall::GetLastKnownLocation => Some(NO_KNOWN_LOCATION@),
                _ => None,
            }
        },
        Reply::Status { code } => if call == PlatformCall::CheckPermission && code
            != PERMISSION_GRANTED {
            Some(PERMISSION_NOT_GRANTED@)
        } else {
            None
        },
        Reply::Flag { set } => if call == PlatformCall::IsProviderEnabled && !set {
            Some(PROVIDER_DISABLED@)
        } else {
            None
        },
        Reply::Coordinate { .. } => None,
    }
}

/// How far a fetch has come.
pub enum Progress {
    AwaitingContext,
    AwaitingPermission,
    AwaitingService,
    AwaitingProvider,
    AwaitingLocation,
    AwaitingLatitude,
    /// The latitude has been read and is kept until the longitude arrives.
    AwaitingLongitude { latitude: u64 },
    Finished { outcome: Outcome },
}

impl Progress {
    /// Where every fetch begins.
    pub open spec fn start() -> Progress {
        Progress::AwaitingContext
    }

    /// The call the driver has to perform next; `None` once the fetch is
    /// finished.
    pub open spec fn pending_call(self) -> Option<PlatformCall> {
        match self {
            Progress::AwaitingContext => Some(PlatformCall::AcquireContext),
            Progress::AwaitingPermission => Some(PlatformCall::CheckPermission),
            Progress::AwaitingService => Some(PlatformCall::GetLocationService),
            Progress::AwaitingProvider => Some(PlatformCall::IsProviderEnabled),
            Progress::AwaitingLocation => Some(PlatformCall::GetLastKnownLocation),
            Progress::AwaitingLatitude => Some(PlatformCall::GetLatitude),
            Progress::AwaitingLongitude { .. } => Some(PlatformCall::GetLongitude),
            Progress::Finished { .. } => None,
        }
    }

    /// The result, once there is one.
    pub open spec fn outcome(self) -> Option<Outcome> {
        match self {
            Progress::Finished { outcome } => Some(outcome),
            _ => None,
        }
    }

    /// The number of calls that may still be made before the fetch is
    /// finished.
    pub open spec fn calls_left(self) -> nat {
        match self {
            Progress::AwaitingContext => 7,
            Progress::AwaitingPermission => 6,
            Progress::AwaitingService => 5,
            Progress::AwaitingProvider => 4,
            Progress::AwaitingLocation => 3,
            Progress::AwaitingLatitude => 2,
            Progress::AwaitingLongitude { .. } => 1,
            Progress::Finished { .. } => 0,
        }
    }

    /// Whether `reply` is taken as the answer to the pending call.
    pub open spec fn accepts(self, reply: Reply) -> bool {
        match self.pending_call() {
            Some(call) => reply.answers(call),
            None => false,
        }
    }

    /// Where the fetch stands after a reply that passed the pending call's
    /// check.
    pub open spec fn proceed(self, reply: Reply) -> Progress {
        match self {
            Progress::AwaitingContext => Progress::AwaitingPermission,
            Progress::AwaitingPermission => Progress::AwaitingService,
            Progress::AwaitingService => Progress::AwaitingProvider,
            Progress::AwaitingProvider => Progress::AwaitingLocation,
            Progress::AwaitingLocation => Progress::AwaitingLatitude,
            Progress::AwaitingLatitude => match reply {
                Reply::Coordinate { bits } => Progress::AwaitingLongitude { latitude: bits },
                _ => self,
            },
            Progress::AwaitingLongitude { latitude } => match reply {
                Reply::Coordinate { bits } => Progress::Finished {
                    outcome: Outcome::Success { latitude, longitude: bits },
                },
                _ => self,
            },
            Progress::Finished { .. } => self,
        }
    }

    /// Where the fetch stands after `reply`.
    ///
    /// A reply that is not accepted changes nothing. An accepted reply that
    /// fails the pending call's check finishes the fetch with that check's
    /// reason; one that passes moves it on.
    pub open spec fn next(self, reply: Reply) -> Progress {
        match self.pending_call() {
            Some(call) => if reply.answers(call) {
                match refusal(call, reply) {
                    Some(reason) => Progress::Finished { outcome: Outcome::Failure { reason } },
                    None => self.proceed(reply),
                }
            } else {
                self
            },
            None => self,
        }
    }

    /// Where the fetch stands after the replies, taken in order.
    pub open spec fn after(self, replies: Seq<Reply>) -> Progress
        decreases replies.len(),
    {
        if replies.len() == 0 {
            self
        } else {
            self.after(replies.drop_last()).next(replies.last())
        }
    }
}

enum Phase {
    AwaitingContext,
    AwaitingPermission,
    AwaitingService,
    AwaitingProvider,
    AwaitingLocation,
    AwaitingLatitude,
    AwaitingLongitude { latitude: u64 },
    Finished { result: CoordinateResult },
}

impl Phase {
    spec fn progress(self) -> Progress {
        match self {
            Phase::AwaitingContext => Progress::AwaitingContext,
            Phase::AwaitingPermission => Progress::AwaitingPermission,
            Phase::AwaitingService => Progress::AwaitingService,
            Phase::AwaitingProvider => Progress::AwaitingProvider,
            Phase::AwaitingLocation => Progress::AwaitingLocation,
            Phase::AwaitingLatitude => Progress::AwaitingLatitude,
            Phase::AwaitingLongitude { latitude } => Progress::AwaitingLongitude { latitude },
            Phase::Finished { result } => Progress::Finished { outcome: result@ },
        }
    }

    fn refused(reason: &'static str) -> (phase: Phase)
        ensures
            phase.progress() == (Progress::Finished {
                outcome: Outcome::Failure { reason: reason@ },
            }),
    {
        Phase::Finished { result: CoordinateResult::Failure { reason: String::from_str(reason) } }
    }

    fn broken(message: String) -> (phase: Phase)
        ensures
            phase.progress() == (Progress::Finished {
                outcome: Outcome::Failure { reason: message@ },
            }),
    {
        Phase::Finished { result: CoordinateResult::Failure { reason: message } }
    }
}

/// One run of the fetch policy, from the first call to the result.
pub struct FetchSession {
    phase: Phase,
}

impl View for FetchSession {
    type V = Progress;

    closed spec fn view(&self) -> Progress {
        self.phase.progress()
    }
}

impl FetchSession {
    /// A session at its start: the context is the first thing asked for.
    pub fn new() -> (session: FetchSession)
        ensures
            session@ == Progress::start(),
    {
        FetchSession { phase: Phase::AwaitingContext }
    }

    /// The call the driver has to perform next; `None` once the session is
    /// finished.
    pub fn pending(&self) -> (call: Option<PlatformCall>)
        ensures
            call == self@.pending_call(),
    {
        match &self.phase {
            Phase::AwaitingContext => Some(PlatformCall::AcquireContext),
            Phase::AwaitingPermission => Some(PlatformCall::CheckPermission),
            Phase::AwaitingService => Some(PlatformCall::GetLocationService),
            Phase::AwaitingProvider => Some(PlatformCall::IsProviderEnabled),
            Phase::AwaitingLocation => Some(PlatformCall::GetLastKnownLocation),
            Phase::AwaitingLatitude => Some(PlatformCall::GetLatitude),
            Phase::AwaitingLongitude { .. } => Some(PlatformCall::GetLongitude),
            Phase::Finished { .. } => None,
        }
    }

    /// Whether the session has its result.
    pub fn is_finished(&self) -> (done: bool)
        ensures
            done == (self@ is Finished),
    {
        match &self.phase {
            Phase::Finished { .. } => true,
            _ => false,
        }
    }

    /// Takes the platform's reply to the pending call and moves the session
    /// on accordingly. Returns whether the reply was accepted; one that was
    /// not leaves the session as it was.
    pub fn advance(&mut self, reply: PlatformReply) -> (accepted: bool)
        ensures
            final(self)@ == old(self)@.next(reply@),
            accepted == old(self)@.accepts(reply@),
    {
        let phase = match &self.phase {
            Phase::AwaitingContext => match reply {
                PlatformReply::Failure { message } => Phase::broken(message),
                PlatformReply::Handle { present } => if present {
                    Phase::AwaitingPermission
                } else {
                    Phase::refused(CONTEXT_UNAVAILABLE)
                },
                _ => { return false; },
            },
            Phase::AwaitingPermission => match reply {
                PlatformReply::Failure { message } => Phase::broken(message),
                PlatformReply::Status { code } => if code == PERMISSION_GRANTED {
                    Phase::AwaitingService
                } else {
                    Phase::refused(PERMISSION_NOT_GRANTED)
                },
                _ => { return false; },
            },
            Phase::AwaitingService => match reply {
                PlatformReply::Failure { message } => Phase::broken(message),
                PlatformReply::Handle { present } => if present {
                    Phase::AwaitingProvider
                } else {
                    Phase::refused(SERVICE_UNAVAILABLE)
                },
                _ => { return false; },
            },
            Phase::AwaitingProvider => match reply {
                PlatformReply::Failure { message } => Phase::broken(message),
                PlatformReply::Flag { set } => if set {
                    Phase::AwaitingLocation
                } else {
                    Phase::refused(PROVIDER_DISABLED)
                },
                _ => { return false; },
            },
            Phase::AwaitingLocation => match reply {
                PlatformReply::Failure { message } => Phase::broken(message),
                PlatformReply::Handle { present } => if present {
                    Phase::AwaitingLatitude
                } else {
                    Phase::refused(NO_KNOWN_LOCATION)
                },
                _ => { return false; },
            },
            Phase::AwaitingLatitude => match reply {
                PlatformReply::Failure { message } => Phase::broken(message),
                PlatformReply::Coordinate { bits } => Phase::AwaitingLongitude { latitude: bits },
                _ => { return false; },
            },
            Phase::AwaitingLongitude { latitude } => match reply {
                PlatformReply::Failure { message } => Phase::broken(message),
                PlatformReply::Coordinate { bits } => Phase::Finished {
                    result: CoordinateResult::Success { latitude: *latitude, longitude: bits },
                },
                _ => { return false; },
            },
            Phase::Finished { .. } => { return false; },
        };
        self.phase = phase;
        true
    }

    /// The result, once the session is finished.
    pub fn result(&self) -> (result: Option<&CoordinateResult>)
        ensures
            match result {
                Some(found) => self@.outcome() == Some(found@),
                None => self@.outcome() is None,
            },
    {
        match &self.phase {
            Phase::Finished { result } => Some(result),
            _ => None,
        }
    }

    /// Gives the result up, ending the session; `None` if the session was
    /// not finished.
    pub fn into_result(self) -> (result: Option<CoordinateResult>)
        ensures
            match result {
                Some(found) => self@.outcome() == Some(found@),
                None => self@.outcome() is None,
            },
    {
        match self.phase {
            Phase::Finished { result } => Some(result),
            _ => None,
        }
    }
}

/// Taking replies one after another is the same as taking them all at once.
pub proof fn after_appended(from: Progress, first: Seq<Reply>, second: Seq<Reply>)
    ensures
        from.after(first + second) == from.after(first).after(second),
    decreases second.len(),
{
    if second.len() == 0 {
        assert(first + second =~= first);
    } else {
        after_appended(from, first, second.drop_last());
        assert((first + second).drop_last() =~= first + second.drop_last());
        assert((first + second).last() == second.last());
    }
}

/// A finished fetch stays finished with the same result, whatever replies
/// are still handed to it, and asks for no further call.
pub proof fn finished_is_final(outcome: Outcome, later: Seq<Reply>)
    ensures
        (Progress::Finished { outcome }).after(later) == (Progress::Finished { outcome }),
        (Progress::Finished { outcome }).pending_call() is None,
    decreases later.len(),
{
    if later.len() > 0 {
        finished_is_final(outcome, later.drop_last());
    }
}

/// The first failing check decides the result and ends the fetch.
///
/// Let the replies in `passed` leave the fetch waiting on `call`, and let
/// `failing` be a reply that fails that call's check with `reason`. Then the
/// fetch is finished with a failure that carries exactly `reason`, no call
/// is pending any more, and nothing that is handed in later changes this.
pub proof fn first_failure_decides(
    passed: Seq<Reply>,
    call: PlatformCall,
    failing: Reply,
    reason: Seq<char>,
    later: Seq<Reply>,
)
    requires
        Progress::start().after(passed).pending_call() == Some(call),
        refusal(call, failing) == Some(reason),
    ensures
        Progress::start().after(passed.push(failing)) == (Progress::Finished {
            outcome: Outcome::Failure { reason },
        }),
        Progress::start().after(passed.push(failing)).pending_call() is None,
        Progress::start().after(passed.push(failing) + later) == (Progress::Finished {
            outcome: Outcome::Failure { reason },
        }),
{
    let failed = Outcome::Failure { reason };
    assert(passed.push(failing).drop_last() =~= passed);
    after_appended(Progress::start(), passed.push(failing), later);
    finished_is_final(failed, later);
}

/// The replies of a platform on which every check passes.
pub open spec fn passing_replies(latitude: u64, longitude: u64) -> Seq<Reply> {
    seq![
        Reply::Handle { present: true },
        Reply::Status { code: PERMISSION_GRANTED },
        Reply::Handle { present: true },
        Reply::Flag { set: true },
        Reply::Handle { present: true },
        Reply::Coordinate { bits: latitude },
        Reply::Coordinate { bits: longitude },
    ]
}

/// When every check passes, the result holds the two coordinates exactly as
/// the platform returned them, latitude first, and later replies change
/// nothing.
pub proof fn passing_fetch_keeps_coordinates(latitude: u64, longitude: u64, later: Seq<Reply>)
    ensures
        Progress::start().after(passing_replies(latitude, longitude) + later) == (
        Progress::Finished { outcome: Outcome::Success { latitude, longitude } }),
{
    let replies = passing_replies(latitude, longitude);
    let found = Outcome::Success { latitude, longitude };
    assert(Progress::start().after(replies) == (Progress::Finished { outcome: found })) by {
        reveal_with_fuel(Progress::after, 8);
        assert(replies.drop_last() =~= replies.take(6));
        assert(replies.take(6).drop_last() =~= replies.take(5));
        assert(replies.take(5).drop_last() =~= replies.take(4));
        assert(replies.take(4).drop_last() =~= replies.take(3));
        assert(replies.take(3).drop_last() =~= replies.take(2));
        assert(replies.take(2).drop_last() =~= replies.take(1));
        assert(replies.take(1).drop_last() =~= replies.take(0));
    }
    after_appended(Progress::start(), replies, later);
    finished_is_final(found, later);
}

/// A fetch succeeds only through its last step: the reply that finishes it
/// with coordinates is the longitude, and the latitude is the one read just
/// before.
pub proof fn success_comes_last(progress: Progress, reply: Reply)
    requires
        !(progress is Finished),
        progress.next(reply) matches Progress::Finished { outcome } && outcome is Success,
    ensures
        progress matches Progress::AwaitingLongitude { latitude } && reply matches Reply::Coordinate {
            bits,
        } && progress.next(reply) == (Progress::Finished {
            outcome: Outcome::Success { latitude, longitude: bits },
        }),
{
}

/// Calls are made one at a time in the fixed order. After a reply the fetch
/// either waits on the same call (the reply was not accepted), or is
/// finished with a failure (the check failed), or has moved to the call that
/// follows in the order (the check passed), being finished after the last.
pub proof fn calls_follow_the_order(progress: Progress, call: PlatformCall, reply: Reply)
    requires
        progress.pending_call() == Some(call),
    ensures
        !progress.accepts(reply) ==> progress.next(reply) == progress,
        progress.accepts(reply) && refusal(call, reply) is Some ==> progress.next(reply).outcome()
            == Some(Outcome::Failure { reason: refusal(call, reply).unwrap() }),
        progress.accepts(reply) && refusal(call, reply) is None ==> progress.next(
            reply,
        ).pending_call() == call.spec_successor(),
{
}

/// Every accepted reply brings the fetch closer to its end, so a driver that
/// keeps answering the pending call is done after at most seven calls.
pub proof fn accepted_reply_makes_progress(progress: Progress, reply: Reply)
    requires
        progress.accepts(reply),
    ensures
        progress.next(reply).calls_left() < progress.calls_left(),
        progress.calls_left() <= 7,
        progress.calls_left() == 0 <==> progress is Finished,
{
}

/// The five fixed reasons are pairwise distinct, so the reason tells which
/// check failed.
pub proof fn fixed_reasons_differ()
    ensures
        CONTEXT_UNAVAILABLE@ != PERMISSION_NOT_GRANTED@,
        CONTEXT_UNAVAILABLE@ != SERVICE_UNAVAILABLE@,
        CONTEXT_UNAVAILABLE@ != PROVIDER_DISABLED@,
        CONTEXT_UNAVAILABLE@ != NO_KNOWN_LOCATION@,
        PERMISSION_NOT_GRANTED@ != SERVICE_UNAVAILABLE@,
        PERMISSION_NOT_GRANTED@ != PROVIDER_DISABLED@,
        PERMISSION_NOT_GRANTED@ != NO_KNOWN_LOCATION@,
        SERVICE_UNAVAILABLE@ != PROVIDER_DISABLED@,
        SERVICE_UNAVAILABLE@ != NO_KNOWN_LOCATION@,
        PROVIDER_DISABLED@ != NO_KNOWN_LOCATION@,
{
    reveal_strlit("context unavailable");
    reveal_strlit("permission not granted");
    reveal_strlit("service unavailable");
    reveal_strlit("provider disabled");
    reveal_strlit("no known location");
    // The first letters tell the reasons apart, the second where two share
    // the first.
    assert(CONTEXT_UNAVAILABLE@[0] == 'c');
    assert(PERMISSION_NOT_GRANTED@[0] == 'p' && PERMISSION_NOT_GRANTED@[1] == 'e');
    assert(SERVICE_UNAVAILABLE@[0] == 's');
    assert(PROVIDER_DISABLED@[0] == 'p' && PROVIDER_DISABLED@[1] == 'r');
    assert(NO_KNOWN_LOCATION@[0] == 'n');
}

} // verus!
