//! The closed error taxonomy of the core.
//!
//! Every operation of the library reports its failures through this one
//! enum; store-level or protocol-level faults never leak through in another
//! shape.

use vstd::prelude::*;

verus! {

/// All failures the core can report.
///
/// Not-found outcomes, validation failures, conflicts, authorization
/// denials and infrastructure faults share this enum so that callers see a
/// single closed set of outcomes.
#[derive(Clone, Copy, Debug, PartialEq, Eq, Structural)]
pub enum Error {
    /// No user record carries the given username.
    UserNotFound,
    /// The user exists but has not completed activation.
    NotActivated,
    /// Password or one-time code did not match.
    WrongCredentials,
    /// A second-factor completion was attempted while none was pending,
    /// the chosen factor kind is not enabled for the user, or a hardware
    /// login was opened with no credential enrolled.
    SecondFactorMissing,
    /// No live hardware-authenticator challenge of the required kind exists
    /// for the user.
    ChallengeNotFound,
    /// A hardware-authenticator response failed verification (bad
    /// credential, bad signature, or a replayed signature counter).
    AuthenticationFailure,
    /// No room record carries the given id.
    RoomNotFound,
    /// The user is in no room although activated; an invariant violation of
    /// the stored data, not a user error.
    UserNotInAnyRoom,
    /// The requested riddle is not behind any doorway of the user's current
    /// room.  Deliberately the same shape whether or not the riddle exists
    /// at all, so a prober learns nothing of the graph.
    DoorwayNotAccessible,
    /// No riddle record carries the given id.
    RiddleNotFound,
    /// The submitted solution does not match the riddle's canonical one.
    RiddleNotSolved,
    /// No room lies on the opposite side of the solved doorway; a
    /// data-integrity fault, not a user error.
    RoomBehindNotFound,
    /// The session token's lifetime has passed.
    TokenExpired,
    /// The session token's signature does not match its payload.
    TokenInvalid,
    /// A user may not change their own role.
    CannotChangeOwnRole,
    /// A role change must move the target to a strictly higher rank.
    CannotChangeToSameOrLowerRole,
    /// The acting user's role does not permit the operation.
    InsufficientRights,
    /// Username or email is already taken by another record.
    UsernameOrEmailNotAvailable,
    /// A guarded update found its guard false at commit time; the caller
    /// may retry against the fresh state.
    Conflict,
}

impl Error {
    /// A short stable wire name for the error, for the surrounding process
    /// to log or map to transport status codes.
    pub fn code(&self) -> (r: &'static str)
        ensures
            r@ == self.code_spec(),
    {
        match self {
            Error::UserNotFound => "user not found",
            Error::NotActivated => "user not activated",
            Error::WrongCredentials => "wrong credentials",
            Error::SecondFactorMissing => "second factor missing",
            Error::ChallengeNotFound => "challenge not found",
            Error::AuthenticationFailure => "authentication failure",
            Error::RoomNotFound => "room not found",
            Error::UserNotInAnyRoom => "user is in no room",
            Error::DoorwayNotAccessible => "doorway not accessible",
            Error::RiddleNotFound => "riddle not found",
            Error::RiddleNotSolved => "riddle not solved",
            Error::RoomBehindNotFound => "room behind not found",
            Error::TokenExpired => "token expired",
            Error::TokenInvalid => "token invalid",
            Error::CannotChangeOwnRole => "user cannot change own role",
            Error::CannotChangeToSameOrLowerRole => "cannot change to same or lower-ranked role",
            Error::InsufficientRights => "insufficient rights",
            Error::UsernameOrEmailNotAvailable => "username or email not available",
            Error::Conflict => "conflict",
        }
    }

    /// What `code` returns, as a sequence of characters.
    pub open spec fn code_spec(self) -> Seq<char> {
        match self {
            Error::UserNotFound => "user not found"@,
            Error::NotActivated => "user not activated"@,
            Error::WrongCredentials => "wrong credentials"@,
            Error::SecondFactorMissing => "second factor missing"@,
            Error::ChallengeNotFound => "challenge not found"@,
            Error::AuthenticationFailure => "authentication failure"@,
            Error::RoomNotFound => "room not found"@,
            Error::UserNotInAnyRoom => "user is in no room"@,
            Error::DoorwayNotAccessible => "doorway not accessible"@,
            Error::RiddleNotFound => "riddle not found"@,
            Error::RiddleNotSolved => "riddle not solved"@,
            Error::RoomBehindNotFound => "room behind not found"@,
            Error::TokenExpired => "token expired"@,
            Error::TokenInvalid => "token invalid"@,
            Error::CannotChangeOwnRole => "user cannot change own role"@,
            Error::CannotChangeToSameOrLowerRole => "cannot change to same or lower-ranked role"@,
            Error::InsufficientRights => "insufficient rights"@,
            Error::UsernameOrEmailNotAvailable => "username or email not available"@,
            Error::Conflict => "conflict"@,
        }
    }
}

} // verus!
