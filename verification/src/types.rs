//! The data model: users, rooms, riddles and the values that hang off them.
//!
//! Every record is plain data — integers, strings, vectors — so that every
//! rule written over it can be checked.  Record ids are plain numbers; the
//! surrounding process maps them to whatever identifiers its store uses.

use vstd::prelude::*;

verus! {

/// Activation pin, present only before a user has activated their account.
pub type PinType = u32;

/// Ranked user role; the order of the ranks drives authorization checks.
#[derive(Clone, Copy, Debug, PartialEq, Eq, Structural)]
pub enum Role {
    Regular,
    Moderator,
    Admin,
}

impl Role {
    /// The rank of the role: higher means more rights.
    pub open spec fn rank_spec(self) -> int {
        match self {
            Role::Regular => 0,
            Role::Moderator => 1,
            Role::Admin => 2,
        }
    }

    /// The rank of the role: higher means more rights.
    pub fn rank(&self) -> (r: u8)
        ensures
            r as int == self.rank_spec(),
    {
        match self {
            Role::Regular => 0,
            Role::Moderator => 1,
            Role::Admin => 2,
        }
    }
}

/// The kinds of second factor a user may enable.  Either one on its own
/// satisfies the second-factor requirement.
#[derive(Clone, Copy, Debug, PartialEq, Eq, Structural)]
pub enum SecondFactor {
    /// A time-based one-time code derived from a shared secret.
    Totp,
    /// A hardware or platform authenticator driven by a challenge/response
    /// ceremony.
    Fido2,
}

impl SecondFactor {
    /// Parses the factor's wire name; anything unrecognised falls back to
    /// the one-time-code kind.
    pub fn from_str(factor: &str) -> (r: SecondFactor)
        ensures
            r == Self::from_str_spec(factor@),
    {
        if crate::strutil::str_eq(factor, "FIDO2") {
            SecondFactor::Fido2
        } else {
            SecondFactor::Totp
        }
    }

    /// What `from_str` returns for a given character sequence.
    pub open spec fn from_str_spec(factor: Seq<char>) -> SecondFactor {
        if factor == "FIDO2"@ {
            SecondFactor::Fido2
        } else {
            SecondFactor::Totp
        }
    }

    /// The factor's wire name, the inverse of `from_str` on its range.
    pub fn as_str(&self) -> (r: &'static str)
        ensures
            self is Totp ==> r@ == "TOTP"@,
            self is Fido2 ==> r@ == "FIDO2"@,
    {
        match self {
            SecondFactor::Totp => "TOTP",
            SecondFactor::Fido2 => "FIDO2",
        }
    }
}

/// The two kinds of hardware-authenticator ceremony.
#[derive(Clone, Copy, Debug, PartialEq, Eq, Structural)]
pub enum ChallengeKind {
    /// Enrolling a new authenticator.
    Registration,
    /// Logging in with an enrolled authenticator.
    Authentication,
}

/// The single in-flight hardware-authenticator challenge of a user.
///
/// A user holds at most one, of either kind; issuing a new one overwrites
/// it and a verification consumes it exactly once.
pub struct Challenge {
    pub kind: ChallengeKind,
    /// Opaque protocol state, kept only between the two ceremony steps.
    pub state: Vec<u8>,
    /// When the challenge was issued, in seconds.
    pub created: i64,
}

/// One enrolled hardware-authenticator credential.
pub struct HardwareCredential {
    /// The authenticator-chosen credential id.
    pub cred_id: Vec<u8>,
    /// Public key material the authenticator signs with.
    pub public_key: Vec<u8>,
    /// Anti-replay signature counter; a valid assertion must carry a
    /// strictly larger one.
    pub counter: u32,
}

/// A scaled variant of an uploaded file.
pub struct UploadedFileVariant {
    pub file_id: u64,
    pub name: String,
    pub scale: u32,
}

/// A file attached to a riddle's task or debriefing.
pub struct UploadedFile {
    pub file_id: u64,
    pub name: String,
    pub retina: Option<String>,
    pub mime_type: String,
    pub width: Option<u32>,
    pub height: Option<u32>,
    pub scale: Option<u32>,
    pub variants: Option<Vec<UploadedFileVariant>>,
}

/// A puzzle node, referenced by doorways and never owned by a single room.
pub struct Riddle {
    pub id: u64,
    pub difficulty: u32,
    pub deduction: Option<u32>,
    pub level: u32,
    pub files: Option<Vec<UploadedFile>>,
    /// When set, solutions are compared ignoring ASCII case.
    pub ignore_case: Option<bool>,
    /// The canonical solution.
    pub solution: String,
    pub debriefing: Option<String>,
    pub task: Option<String>,
    pub credits: Option<String>,
}

impl Riddle {
    /// Whether solutions are compared ignoring ASCII case.
    pub open spec fn ignores_case(self) -> bool {
        self.ignore_case == Some(true)
    }
}

/// A doorway out of a room: a direction label gated by a riddle.
pub struct Direction {
    pub direction: String,
    pub riddle_id: u64,
    pub level: u32,
}

/// One game, a root for rooms.
pub struct Game {
    pub id: u64,
    pub name: String,
}

/// A graph node: a room with riddle-gated doorways to its neighbours.
pub struct Room {
    pub id: u64,
    pub number: u32,
    pub coords: Option<String>,
    pub neighbors: Vec<Direction>,
    pub game_id: u64,
    /// At most one room per game is the entry.
    pub entry: Option<bool>,
    pub exit: Option<bool>,
}

impl Room {
    /// Whether some doorway of the room is gated by the given riddle.
    pub open spec fn has_doorway(self, riddle_id: u64) -> bool {
        exists|i: int|
            0 <= i < self.neighbors@.len() && self.neighbors@[i].riddle_id == riddle_id
    }

    /// The first doorway gated by the given riddle; list order breaks ties.
    pub open spec fn first_doorway(self, riddle_id: u64) -> int
        decreases self.neighbors@.len(),
    {
        Self::first_doorway_in(self.neighbors@, riddle_id)
    }

    /// The index of the first doorway in `ds` gated by `riddle_id`, or the
    /// length of `ds` if none is.
    pub open spec fn first_doorway_in(ds: Seq<Direction>, riddle_id: u64) -> int
        decreases ds.len(),
    {
        if ds.len() == 0 {
            0
        } else if ds[0].riddle_id == riddle_id {
            0
        } else {
            1 + Self::first_doorway_in(ds.skip(1), riddle_id)
        }
    }

    /// Whether the room is an entry room.
    pub open spec fn is_entry(self) -> bool {
        self.entry == Some(true)
    }
}

/// An identity and progression record.
pub struct User {
    pub id: u64,
    pub username: String,
    pub email: String,
    pub role: Role,
    /// Salted one-way hash of the password, as produced by `hash_password`.
    pub hash: String,
    /// Activation pin, cleared on activation.
    pub pin: Option<PinType>,
    pub activated: bool,
    pub created: Option<i64>,
    pub registered: Option<i64>,
    pub last_login: Option<i64>,
    /// Ids of the riddles the user has solved, without duplicates.
    pub solved: Vec<u64>,
    /// Ids of the rooms entered, in order, repeats allowed.
    pub rooms_entered: Vec<u64>,
    pub level: u32,
    pub score: u32,
    /// The room the user stands in; absent exactly before activation.
    pub in_room: Option<u64>,
    /// Set between a successful password step and the second-factor step.
    pub awaiting_second_factor: bool,
    /// The enabled second-factor kinds; empty means password-only login.
    pub second_factors: Vec<SecondFactor>,
    /// Shared secret for the time-based one-time code.
    pub totp_key: Vec<u8>,
    /// Ten single-use recovery strings, assigned on activation.
    pub recovery_keys: Vec<String>,
    /// The single in-flight hardware-authenticator challenge, if any.
    pub challenge: Option<Challenge>,
    /// Enrolled hardware-authenticator credentials.
    pub webauthn_credentials: Vec<HardwareCredential>,
}

impl User {
    /// Per-record invariant: a user is roomless exactly before activation,
    /// the activation pin does not survive activation, and the solved list
    /// is a set — no riddle id appears twice.
    pub open spec fn wf(self) -> bool {
        &&& self.in_room is None <==> !self.activated
        &&& self.activated ==> self.pin is None
        &&& self.solved@.no_duplicates()
    }

    /// Whether the given second-factor kind is enabled for the user.
    pub open spec fn has_factor(self, f: SecondFactor) -> bool {
        exists|i: int| 0 <= i < self.second_factors@.len() && self.second_factors@[i] == f
    }

    /// Whether the user has solved the riddle with the given id.
    pub open spec fn has_solved(self, riddle_id: u64) -> bool {
        exists|i: int| 0 <= i < self.solved@.len() && self.solved@[i] == riddle_id
    }

    /// Whether a credential with the given id is enrolled.
    pub open spec fn has_credential(self, cred_id: Seq<u8>) -> bool {
        exists|i: int|
            0 <= i < self.webauthn_credentials@.len()
                && self.webauthn_credentials@[i].cred_id@ == cred_id
    }

    /// A fresh, not yet activated user record.  The store assigns the id
    /// when the record is created.
    pub fn new(
        username: &str,
        email: &str,
        role: Role,
        hash: String,
        second_factor: SecondFactor,
        pin: Option<PinType>,
        now: i64,
    ) -> (u: User)
        ensures
            u.id == 0,
            u.username@ == username@,
            u.email@ == email@,
            u.role == role,
            u.hash@ == hash@,
            u.pin == pin,
            !u.activated,
            u.created == Some(now),
            u.registered is None,
            u.last_login is None,
            u.solved@.len() == 0,
            u.rooms_entered@.len() == 0,
            u.level == 0,
            u.score == 0,
            u.in_room is None,
            !u.awaiting_second_factor,
            u.second_factors@ =~= seq![second_factor],
            u.totp_key@.len() == 0,
            u.recovery_keys@.len() == 0,
            u.challenge is None,
            u.webauthn_credentials@.len() == 0,
            u.wf(),
    {
        let mut factors: Vec<SecondFactor> = Vec::new();
        factors.push(second_factor);
        User {
            id: 0,
            username: username.to_owned(),
            email: email.to_owned(),
            role,
            hash,
            pin,
            activated: false,
            created: Some(now),
            registered: None,
            last_login: None,
            solved: Vec::new(),
            rooms_entered: Vec::new(),
            level: 0,
            score: 0,
            in_room: None,
            awaiting_second_factor: false,
            second_factors: factors,
            totp_key: Vec::new(),
            recovery_keys: Vec::new(),
            challenge: None,
            webauthn_credentials: Vec::new(),
        }
    }
}

/// The alphabet recovery keys are drawn from: the lower-case letters
/// without `l`, and the ten digits.
pub struct KeyChars;

impl KeyChars {
    /// Whether a byte lies in the recovery-key alphabet.
    pub open spec fn is_key_char(c: u8) -> bool {
        (97 <= c <= 122 && c != 108) || (48 <= c <= 57)
    }

    /// What `sample` returns: the alphabet has 35 characters, indexed by
    /// the draw modulo 35 — letters `a` to `k`, then `m` to `z`, then the
    /// digits.
    pub open spec fn sample_spec(x: u32) -> u8 {
        let idx = x % 35;
        if idx <= 10 {
            (97 + idx) as u8
        } else if idx <= 24 {
            (98 + idx) as u8
        } else {
            (23 + idx) as u8
        }
    }

    /// Maps a uniform draw to a character of the alphabet.
    pub fn sample(&self, x: u32) -> (c: u8)
        ensures
            c == Self::sample_spec(x),
            Self::is_key_char(c),
    {
        let idx: u32 = x % 35;
        if idx <= 10 {
            (97 + idx) as u8
        } else if idx <= 24 {
            (98 + idx) as u8
        } else {
            (23 + idx) as u8
        }
    }
}

} // verus!
