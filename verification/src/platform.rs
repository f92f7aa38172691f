//! The vocabulary shared with whoever talks to the platform: the calls the
//! fetch asks for, how each is invoked, and the replies it understands.

use vstd::prelude::*;

verus! {

/// The permission the fetch checks; it is never requested, only checked.
pub const FINE_LOCATION_PERMISSION: &'static str = "android.permission.ACCESS_FINE_LOCATION";

/// The name under which the platform registers its location service.
pub const LOCATION_SERVICE: &'static str = "location";

/// The only provider the fetch consults.
pub const GPS_PROVIDER: &'static str = "gps";

/// A call the fetch makes of the platform. The variants stand in the order
/// in which the calls are made.
#[derive(Clone, Copy, Debug, PartialEq, Eq, Structural)]
pub enum PlatformCall {
    /// Obtain the platform runtime and the application context.
    AcquireContext,
    /// Ask whether fine-location permission is granted.
    CheckPermission,
    /// Look the location service up by name.
    GetLocationService,
    /// Ask whether the GPS provider is enabled.
    IsProviderEnabled,
    /// Ask the GPS provider for its last known location.
    GetLastKnownLocation,
    /// Read the latitude of that location.
    GetLatitude,
    /// Read the longitude of that location.
    GetLongitude,
}

/// The object a platform method is invoked on.
#[derive(Clone, Copy, Debug, PartialEq, Eq, Structural)]
pub enum Receiver {
    /// The application context.
    Context,
    /// The location service obtained from the context.
    LocationService,
    /// The location obtained from the location service.
    Location,
}

/// The kind of value that answers a call.
#[derive(Clone, Copy, Debug, PartialEq, Eq, Structural)]
pub enum ReplyKind {
    /// An object handle, which may be absent.
    Handle,
    /// An integer status code.
    Status,
    /// A boolean.
    Flag,
    /// A 64-bit floating value, as its bits.
    Coordinate,
}

/// How a call is made across the interop bridge, as contracts see it.
pub struct InvocationView {
    pub receiver: Receiver,
    pub method: Seq<char>,
    pub signature: Seq<char>,
    pub argument: Option<Seq<char>>,
}

/// How a call is made across the interop bridge: the object it is invoked
/// on, the method's name and type signature, and its one string argument
/// where it takes one.
#[derive(Clone, Copy, Debug, PartialEq, Eq)]
pub struct Invocation {
    pub receiver: Receiver,
    pub method: &'static str,
    pub signature: &'static str,
    pub argument: Option<&'static str>,
}

impl View for Invocation {
    type V = InvocationView;

    open spec fn view(&self) -> InvocationView {
        InvocationView {
            receiver: self.receiver,
            method: self.method@,
            signature: self.signature@,
            argument: match self.argument {
                Some(text) => Some(text@),
                None => None,
            },
        }
    }
}

impl PlatformCall {
    /// The call made after this one when this one's check passes; `None`
    /// after the last.
    pub open spec fn spec_successor(self) -> Option<PlatformCall> {
        match self {
            PlatformCall::AcquireContext => Some(PlatformCall::CheckPermission),
            PlatformCall::CheckPermission => Some(PlatformCall::GetLocationService),
            PlatformCall::GetLocationService => Some(PlatformCall::IsProviderEnabled),
            PlatformCall::IsProviderEnabled => Some(PlatformCall::GetLastKnownLocation),
            PlatformCall::GetLastKnownLocation => Some(PlatformCall::GetLatitude),
            PlatformCall::GetLatitude => Some(PlatformCall::GetLongitude),
            PlatformCall::GetLongitude => None,
        }
    }

    /// The kind of value that answers this call.
    pub open spec fn spec_reply_kind(self) -> ReplyKind {
        match self {
            PlatformCall::AcquireContext => ReplyKind::Handle,
            PlatformCall::CheckPermission => ReplyKind::Status,
            PlatformCall::GetLocationService => ReplyKind::Handle,
            PlatformCall::IsProviderEnabled => ReplyKind::Flag,
            PlatformCall::GetLastKnownLocation => ReplyKind::Handle,
            PlatformCall::GetLatitude => ReplyKind::Coordinate,
            PlatformCall::GetLongitude => ReplyKind::Coordinate,
        }
    }

    /// The object that a reply with a handle to this call hands over; `None`
    /// for calls that return no object.
    pub open spec fn spec_provides(self) -> Option<Receiver> {
        match self {
            PlatformCall::AcquireContext => Some(Receiver::Context),
            PlatformCall::GetLocationService => Some(Receiver::LocationService),
            PlatformCall::GetLastKnownLocation => Some(Receiver::Location),
            _ => None,
        }
    }

    /// The place of the call in the order of calls, counted from zero.
    pub open spec fn position(self) -> nat {
        match self {
            PlatformCall::AcquireContext => 0,
            PlatformCall::CheckPermission => 1,
            PlatformCall::GetLocationService => 2,
            PlatformCall::IsProviderEnabled => 3,
            PlatformCall::GetLastKnownLocation => 4,
            PlatformCall::GetLatitude => 5,
            PlatformCall::GetLongitude => 6,
        }
    }

    /// The method invocation that performs this call. Acquiring the context
    /// is not a method invocation and has none.
    pub open spec fn spec_invocation(self) -> Option<InvocationView> {
        match self {
            PlatformCall::AcquireContext => None,
            PlatformCall::CheckPermission => Some(
                InvocationView {
                    receiver: Receiver::Context,
                    method: "checkSelfPermission"@,
                    signature: "(Ljava/lang/String;)I"@,
                    argument: Some(FINE_LOCATION_PERMISSION@),
                },
            ),
            PlatformCall::GetLocationService => Some(
                InvocationView {
                    receiver: Receiver::Context,
                    method: "getSystemService"@,
                    signature: "(Ljava/lang/String;)Ljava/lang/Object;"@,
                    argument: Some(LOCATION_SERVICE@),
                },
            ),
            PlatformCall::IsProviderEnabled => Some(
                InvocationView {
                    receiver: Receiver::LocationService,
                    method: "isProviderEnabled"@,
                    signature: "(Ljava/lang/String;)Z"@,
                    argument: Some(GPS_PROVIDER@),
                },
            ),
            PlatformCall::GetLastKnownLocation => Some(
                InvocationView {
                    receiver: Receiver::LocationService,
                    method: "getLastKnownLocation"@,
                    signature: "(Ljava/lang/String;)Landroid/location/Location;"@,
                    argument: Some(GPS_PROVIDER@),
                },
            ),
            PlatformCall::GetLatitude => Some(
                InvocationView {
                    receiver: Receiver::Location,
                    method: "getLatitude"@,
                    signature: "()D"@,
                    argument: None,
                },
            ),
            PlatformCall::GetLongitude => Some(
                InvocationView {
                    receiver: Receiver::Location,
                    method: "getLongitude"@,
                    signature: "()D"@,
                    argument: None,
                },
            ),
        }
    }

    /// The call made after this one when this one's check passes.
    pub fn successor(self) -> (following: Option<PlatformCall>)
        ensures
            following == self.spec_successor(),
    {
        match self {
            PlatformCall::AcquireContext => Some(PlatformCall::CheckPermission),
            PlatformCall::CheckPermission => Some(PlatformCall::GetLocationService),
            PlatformCall::GetLocationService => Some(PlatformCall::IsProviderEnabled),
            PlatformCall::IsProviderEnabled => Some(PlatformCall::GetLastKnownLocation),
            PlatformCall::GetLastKnownLocation => Some(PlatformCall::GetLatitude),
            PlatformCall::GetLatitude => Some(PlatformCall::GetLongitude),
            PlatformCall::GetLongitude => None,
        }
    }

    /// The kind of value that answers this call.
    pub fn reply_kind(self) -> (kind: ReplyKind)
        ensures
            kind == self.spec_reply_kind(),
    {
        match self {
            PlatformCall::AcquireContext => ReplyKind::Handle,
            PlatformCall::CheckPermission => ReplyKind::Status,
            PlatformCall::GetLocationService => ReplyKind::Handle,
            PlatformCall::IsProviderEnabled => ReplyKind::Flag,
            PlatformCall::GetLastKnownLocation => ReplyKind::Handle,
            PlatformCall::GetLatitude => ReplyKind::Coordinate,
            PlatformCall::GetLongitude => ReplyKind::Coordinate,
        }
    }

    /// The object that a reply with a handle to this call hands over; `None`
    /// for calls that return no object.
    pub fn provides(self) -> (object: Option<Receiver>)
        ensures
            object == self.spec_provides(),
    {
        match self {
            PlatformCall::AcquireContext => Some(Receiver::Context),
            PlatformCall::GetLocationService => Some(Receiver::LocationService),
            PlatformCall::GetLastKnownLocation => Some(Receiver::Location),
            _ => None,
        }
    }

    /// The method invocation that performs this call; `None` for acquiring
    /// the context, which the driver does by its own means.
    pub fn invocation(self) -> (made: Option<Invocation>)
        ensures
            match made {
                Some(invocation) => self.spec_invocation() == Some(invocation@),
                None => self.spec_invocation() is None,
            },
    {
        match self {
            PlatformCall::AcquireContext => None,
            PlatformCall::CheckPermission => Some(
                Invocation {
                    receiver: Receiver::Context,
                    method: "checkSelfPermission",
                    signature: "(Ljava/lang/String;)I",
                    argument: Some(FINE_LOCATION_PERMISSION),
                },
            ),
            PlatformCall::GetLocationService => Some(
                Invocation {
                    receiver: Receiver::Context,
                    method: "getSystemService",
                    signature: "(Ljava/lang/String;)Ljava/lang/Object;",
                    argument: Some(LOCATION_SERVICE),
                },
            ),
            PlatformCall::IsProviderEnabled => Some(
                Invocation {
                    receiver: Receiver::LocationService,
                    method: "isProviderEnabled",
                    signature: "(Ljava/lang/String;)Z",
                    argument: Some(GPS_PROVIDER),
                },
            ),
            PlatformCall::GetLastKnownLocation => Some(
                Invocation {
                    receiver: Receiver::LocationService,
                    method: "getLastKnownLocation",
                    signature: "(Ljava/lang/String;)Landroid/location/Location;",
                    argument: Some(GPS_PROVIDER),
                },
            ),
            PlatformCall::GetLatitude => Some(
                Invocation {
                    receiver: Receiver::Location,
                    method: "getLatitude",
                    signature: "()D",
                    argument: None,
                },
            ),
            PlatformCall::GetLongitude => Some(
                Invocation {
                    receiver: Receiver::Location,
                    method: "getLongitude",
                    signature: "()D",
                    argument: None,
                },
            ),
        }
    }
}

/// A reply as contracts see it: a failure message is a sequence of
/// characters.
pub enum Reply {
    Handle { present: bool },
    Status { code: i32 },
    Flag { set: bool },
    Coordinate { bits: u64 },
    Failure { message: Seq<char> },
}

impl Reply {
    /// The kind of value the reply carries; a failure carries none.
    pub open spec fn kind(self) -> Option<ReplyKind> {
        match self {
            Reply::Handle { .. } => Some(ReplyKind::Handle),
            Reply::Status { .. } => Some(ReplyKind::Status),
            Reply::Flag { .. } => Some(ReplyKind::Flag),
            Reply::Coordinate { .. } => Some(ReplyKind::Coordinate),
            Reply::Failure { .. } => None,
        }
    }

    /// Whether the reply can answer the call: it is a failure of the bridge,
    /// which can answer any call, or it carries the kind of value the call
    /// returns.
    pub open spec fn answers(self, call: PlatformCall) -> bool {
        self.kind() is None || self.kind() == Some(call.spec_reply_kind())
    }
}

/// What the platform answered to one call.
#[derive(Debug, PartialEq, Eq)]
pub enum PlatformReply {
    /// An object handle was asked for; `present` says whether one came back.
    Handle { present: bool },
    /// The integer a status query returned.
    Status { code: i32 },
    /// The boolean a yes-or-no query returned.
    Flag { set: bool },
    /// The bits of the 64-bit floating value a coordinate getter returned.
    Coordinate { bits: u64 },
    /// The interop bridge itself failed; `message` is its error text.
    Failure { message: String },
}

impl View for PlatformReply {
    type V = Reply;

    open spec fn view(&self) -> Reply {
        match *self {
            PlatformReply::Handle { present } => Reply::Handle { present },
            PlatformReply::Status { code } => Reply::Status { code },
            PlatformReply::Flag { set } => Reply::Flag { set },
            PlatformReply::Coordinate { bits } => Reply::Coordinate { bits },
            PlatformReply::Failure { message } => Reply::Failure { message: message@ },
        }
    }
}

impl PlatformReply {
    /// The kind of value the reply carries; a failure carries none.
    pub fn kind(&self) -> (kind: Option<ReplyKind>)
        ensures
            kind == self@.kind(),
    {
        match self {
            PlatformReply::Handle { .. } => Some(ReplyKind::Handle),
            PlatformReply::Status { .. } => Some(ReplyKind::Status),
            PlatformReply::Flag { .. } => Some(ReplyKind::Flag),
            PlatformReply::Coordinate { .. } => Some(ReplyKind::Coordinate),
            PlatformReply::Failure { .. } => None,
        }
    }

    /// Whether the reply can answer the call.
    pub fn answers(&self, call: PlatformCall) -> (yes: bool)
        ensures
            yes == self@.answers(call),
    {
        match self.kind() {
            None => true,
            Some(kind) => kind == call.reply_kind(),
        }
    }
}

impl ReplyKind {
    /// The letter with which a method's type signature ends when the method
    /// returns a value of this kind. An object type ends in a semicolon.
    pub open spec fn signature_end(self) -> char {
        match self {
            ReplyKind::Handle => ';',
            ReplyKind::Status => 'I',
            ReplyKind::Flag => 'Z',
            ReplyKind::Coordinate => 'D',
        }
    }
}

/// The calls stand in one order: each call but the last is followed by the
/// one at the next position.
pub proof fn successor_is_next_in_order(call: PlatformCall)
    ensures
        match call.spec_successor() {
            Some(following) => following.position() == call.position() + 1,
            None => call.position() == 6,
        },
{
}

/// A method is invoked only on an object that an earlier call has handed
/// over: for every invocation there is a call before it in the order that
/// is answered with a handle and provides the invocation's receiver.
pub proof fn receiver_is_obtained_first(call: PlatformCall) -> (earlier: PlatformCall)
    requires
        call.spec_invocation() is Some,
    ensures
        earlier.position() < call.position(),
        earlier.spec_reply_kind() == ReplyKind::Handle,
        earlier.spec_provides() == Some(call.spec_invocation().unwrap().receiver),
{
    match call.spec_invocation().unwrap().receiver {
        Receiver::Context => PlatformCall::AcquireContext,
        Receiver::LocationService => PlatformCall::GetLocationService,
        Receiver::Location => PlatformCall::GetLastKnownLocation,
    }
}

/// A call provides an object exactly when it is answered with a handle.
pub proof fn handles_are_what_calls_provide(call: PlatformCall)
    ensures
        call.spec_provides() is Some <==> call.spec_reply_kind() == ReplyKind::Handle,
{
}

/// Each invocation's type signature fits the call: it ends in the letter of
/// the kind of value the call is answered with, and it opens with one string
/// parameter exactly when the invocation carries an argument.
pub proof fn signature_fits_the_call(call: PlatformCall)
    requires
        call.spec_invocation() is Some,
    ensures
        ({
            let invocation = call.spec_invocation().unwrap();
            &&& invocation.signature.len() >= 3
            &&& invocation.signature.last() == call.spec_reply_kind().signature_end()
            &&& invocation.signature[0] == '('
            &&& invocation.argument is Some ==> invocation.signature.subrange(1, 20)
                == "Ljava/lang/String;)"@
            &&& invocation.argument is None ==> invocation.signature[1] == ')'
        }),
{
    reveal_strlit("(Ljava/lang/String;)I");
    reveal_strlit("(Ljava/lang/String;)Ljava/lang/Object;");
    reveal_strlit("(Ljava/lang/String;)Z");
    reveal_strlit("(Ljava/lang/String;)Landroid/location/Location;");
    reveal_strlit("()D");
    reveal_strlit("Ljava/lang/String;)");
}

} // verus!
