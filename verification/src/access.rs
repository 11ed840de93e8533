//! Access control over the room graph: whether a riddle is reachable from
//! where the user stands, and how the user advances once it is solved.

use vstd::prelude::*;
use crate::error::Error;
use crate::store::Store;
use crate::types::{Direction, Riddle, Room, User};
use crate::strutil::{str_eq_nocase, str_eq, eq_ignore_ascii_case};

verus! {

/// The label on the far side of a doorway: rooms joined by a solved riddle
/// carry opposite direction labels.  Labels themselves are free-form
/// strings; only the six paired ones here have a known opposite, so a
/// doorway under any other label cannot be traversed — its solve ends in
/// `RoomBehindNotFound`, the data-integrity denial, rather than a guess at
/// which room lies behind.
pub open spec fn opposite_label(direction: Seq<char>) -> Option<Seq<char>> {
    if direction == "north"@ {
        Some("south"@)
    } else if direction == "south"@ {
        Some("north"@)
    } else if direction == "east"@ {
        Some("west"@)
    } else if direction == "west"@ {
        Some("east"@)
    } else if direction == "up"@ {
        Some("down"@)
    } else if direction == "down"@ {
        Some("up"@)
    } else {
        None
    }
}

/// Computes the opposite direction label.
pub fn opposite_of(direction: &str) -> (r: Option<&'static str>)
    ensures
        r is Some <==> opposite_label(direction@) is Some,
        r matches Some(o) ==> Some(o@) == opposite_label(direction@),
{
    if str_eq(direction, "north") {
        Some("south")
    } else if str_eq(direction, "south") {
        Some("north")
    } else if str_eq(direction, "east") {
        Some("west")
    } else if str_eq(direction, "west") {
        Some("east")
    } else if str_eq(direction, "up") {
        Some("down")
    } else if str_eq(direction, "down") {
        Some("up")
    } else {
        None
    }
}

/// Whether the submitted solution counts: verbatim, or blind to ASCII case
/// when the riddle says so.
pub open spec fn solution_ok(riddle: Riddle, submitted: Seq<char>) -> bool {
    if riddle.ignores_case() {
        str_eq_nocase(riddle.solution@, submitted)
    } else {
        riddle.solution@ == submitted
    }
}

/// Compares a submitted solution against the riddle's canonical one.
pub fn solution_matches(riddle: &Riddle, submitted: &str) -> (r: bool)
    ensures
        r == solution_ok(*riddle, submitted@),
{
    let ignore = match riddle.ignore_case {
        Some(b) => b,
        None => false,
    };
    if ignore {
        eq_ignore_ascii_case(riddle.solution.as_str(), submitted)
    } else {
        str_eq(riddle.solution.as_str(), submitted)
    }
}

/// The first doorway of `ds` gated by the riddle is at the index the
/// recursion names, provided nothing before `i` matches and `i` does.
proof fn lemma_first_doorway_in(ds: Seq<Direction>, riddle_id: u64, i: int)
    requires
        0 <= i <= ds.len(),
        forall|j: int| 0 <= j < i ==> ds[j].riddle_id != riddle_id,
        i < ds.len() ==> ds[i].riddle_id == riddle_id,
    ensures
        Room::first_doorway_in(ds, riddle_id) == i,
    decreases ds.len(),
{
    if ds.len() == 0 {
    } else if i == 0 {
    } else {
        lemma_first_doorway_in(ds.skip(1), riddle_id, i - 1);
    }
}

/// Finds the first doorway of the room gated by the given riddle; list
/// order breaks ties when the data holds two.
pub fn find_doorway(room: &Room, riddle_id: u64) -> (r: Option<usize>)
    ensures
        r is Some <==> room.has_doorway(riddle_id),
        r matches Some(i) ==> i < room.neighbors@.len() && i as int == room.first_doorway(
            riddle_id,
        ) && room.neighbors@[i as int].riddle_id == riddle_id,
{
    let n = room.neighbors.len();
    let mut i: usize = 0;
    while i < n
        invariant
            i <= n,
            n == room.neighbors@.len(),
            forall|j: int| 0 <= j < i ==> room.neighbors@[j].riddle_id != riddle_id,
        decreases n - i,
    {
        if room.neighbors[i].riddle_id == riddle_id {
            proof {
                assert(room.has_doorway(riddle_id));
                lemma_first_doorway_in(room.neighbors@, riddle_id, i as int);
            }
            return Some(i);
        }
        i += 1;
    }
    None
}

/// Whether the room has a doorway with the given direction label gated by
/// the given riddle.
pub open spec fn room_has_dir_doorway(room: Room, dir: Seq<char>, riddle_id: u64) -> bool {
    exists|i: int|
        0 <= i < room.neighbors@.len() && room.neighbors@[i].direction@ == dir
            && room.neighbors@[i].riddle_id == riddle_id
}

/// The index of the first room in `rooms` with such a doorway, or the
/// length of `rooms` if none has one.
pub open spec fn first_room_behind(rooms: Seq<Room>, dir: Seq<char>, riddle_id: u64) -> int
    decreases rooms.len(),
{
    if rooms.len() == 0 {
        0
    } else if room_has_dir_doorway(rooms[0], dir, riddle_id) {
        0
    } else {
        1 + first_room_behind(rooms.skip(1), dir, riddle_id)
    }
}

/// The first room with such a doorway is at the index the recursion names,
/// provided nothing before `i` matches and `i` does.
proof fn lemma_first_room_behind(rooms: Seq<Room>, dir: Seq<char>, riddle_id: u64, i: int)
    requires
        0 <= i <= rooms.len(),
        forall|j: int| 0 <= j < i ==> !room_has_dir_doorway(rooms[j], dir, riddle_id),
        i < rooms.len() ==> room_has_dir_doorway(rooms[i], dir, riddle_id),
    ensures
        first_room_behind(rooms, dir, riddle_id) == i,
    decreases rooms.len(),
{
    if rooms.len() == 0 {
    } else if i == 0 {
    } else {
        lemma_first_room_behind(rooms.skip(1), dir, riddle_id, i - 1);
    }
}

/// Whether the room has a doorway with the given label and riddle (the
/// runtime check).
fn room_matches(room: &Room, dir: &str, riddle_id: u64) -> (r: bool)
    ensures
        r == room_has_dir_doorway(*room, dir@, riddle_id),
{
    let n = room.neighbors.len();
    let mut i: usize = 0;
    while i < n
        invariant
            i <= n,
            n == room.neighbors@.len(),
            forall|j: int|
                0 <= j < i ==> !(room.neighbors@[j].direction@ == dir@ && room.neighbors@[j].riddle_id
                    == riddle_id),
        decreases n - i,
    {
        if room.neighbors[i].riddle_id == riddle_id && str_eq(
            room.neighbors[i].direction.as_str(),
            dir,
        ) {
            proof {
                assert(room_has_dir_doorway(*room, dir@, riddle_id));
            }
            return true;
        }
        i += 1;
    }
    false
}

impl Store {
    /// Whether some room has a doorway with the given label and riddle.
    pub open spec fn has_room_behind(self, dir: Seq<char>, riddle_id: u64) -> bool {
        exists|i: int|
            0 <= i < self.rooms@.len() && room_has_dir_doorway(self.rooms@[i], dir, riddle_id)
    }

    /// Finds the index of the first room with such a doorway.
    fn find_room_behind_ix(&self, dir: &str, riddle_id: u64) -> (r: Option<usize>)
        ensures
            r is Some <==> self.has_room_behind(dir@, riddle_id),
            r matches Some(i) ==> i < self.rooms@.len() && i as int == first_room_behind(
                self.rooms@,
                dir@,
                riddle_id,
            ) && room_has_dir_doorway(self.rooms@[i as int], dir@, riddle_id),
    {
        let n = self.rooms.len();
        let mut i: usize = 0;
        while i < n
            invariant
                i <= n,
                n == self.rooms@.len(),
                forall|j: int| 0 <= j < i ==> !room_has_dir_doorway(self.rooms@[j], dir@, riddle_id),
            decreases n - i,
        {
            if room_matches(&self.rooms[i], dir, riddle_id) {
                proof {
                    assert(self.has_room_behind(dir@, riddle_id));
                    lemma_first_room_behind(self.rooms@, dir@, riddle_id, i as int);
                }
                return Some(i);
            }
            i += 1;
        }
        None
    }

    /// The room on the far side of a doorway: the first room whose doorway
    /// list carries the opposite direction label and the same riddle.
    pub fn get_room_behind(&self, opposite: &str, riddle_id: u64) -> (r: Result<&Room, Error>)
        ensures
            r is Ok <==> self.has_room_behind(opposite@, riddle_id),
            r matches Ok(m) ==> *m == self.rooms@[first_room_behind(
                self.rooms@,
                opposite@,
                riddle_id,
            )] && room_has_dir_doorway(*m, opposite@, riddle_id),
            r is Err ==> r == Err::<&Room, Error>(Error::RoomBehindNotFound),
    {
        match self.find_room_behind_ix(opposite, riddle_id) {
            Some(i) => Ok(&self.rooms[i]),
            None => Err(Error::RoomBehindNotFound),
        }
    }
}

/// The access decision for a riddle request: the riddle's index when the
/// requested id hangs behind a doorway of the user's current room, and the
/// governing denial otherwise.
pub open spec fn access_check(s: Store, name: Seq<char>, riddle_id: u64) -> Result<int, Error> {
    if !s.has_user(name) {
        Err(Error::UserNotFound)
    } else {
        let u = s.user_named(name);
        if u.in_room is None {
            Err(Error::UserNotInAnyRoom)
        } else if !s.has_room(u.in_room->0) {
            Err(Error::RoomNotFound)
        } else if !s.room_with_id(u.in_room->0).has_doorway(riddle_id) {
            Err(Error::DoorwayNotAccessible)
        } else if !s.has_riddle(riddle_id) {
            Err(Error::RiddleNotFound)
        } else {
            Ok(s.riddle_ix(riddle_id))
        }
    }
}

/// Law: the riddle is granted exactly when the requested id hangs behind a
/// doorway of the user's current room (and the riddle record exists); and
/// when no doorway of the room carries the id, the denial is
/// `DoorwayNotAccessible` whether or not a riddle with that id exists at
/// all, so its shape reveals nothing of the wider graph.
pub proof fn lemma_riddle_access_iff(s: Store, name: Seq<char>, riddle_id: u64)
    ensures
        access_check(s, name, riddle_id) is Ok <==> s.has_user(name) && s.user_named(
            name,
        ).in_room is Some && s.has_room(s.user_named(name).in_room->0) && s.room_with_id(
            s.user_named(name).in_room->0,
        ).has_doorway(riddle_id) && s.has_riddle(riddle_id),
        s.has_user(name) && s.user_named(name).in_room is Some && s.has_room(
            s.user_named(name).in_room->0,
        ) && !s.room_with_id(s.user_named(name).in_room->0).has_doorway(riddle_id)
            ==> access_check(s, name, riddle_id) == Err::<int, Error>(Error::DoorwayNotAccessible),
{
}

/// How solving a riddle rewrites the user record: the riddle id joins the
/// solved set (once), the score grows by the riddle's difficulty (once,
/// saturating), the level rises to the riddle's, and the user steps into
/// the room behind the doorway.  Everything else stays.
pub open spec fn record_solved_rel(u0: User, u1: User, riddle: Riddle, room_id: u64) -> bool {
    &&& u1.solved@ == if u0.has_solved(riddle.id) {
        u0.solved@
    } else {
        u0.solved@.push(riddle.id)
    }
    &&& u1.score == if u0.has_solved(riddle.id) {
        u0.score
    } else {
        score_after(u0.score, riddle.difficulty)
    }
    &&& u1.level == if u0.level >= riddle.level {
        u0.level
    } else {
        riddle.level
    }
    &&& u1.in_room == Some(room_id)
    &&& u1.rooms_entered@ == u0.rooms_entered@.push(room_id)
    &&& u1.id == u0.id
    &&& u1.username == u0.username
    &&& u1.email == u0.email
    &&& u1.role == u0.role
    &&& u1.hash == u0.hash
    &&& u1.pin == u0.pin
    &&& u1.activated == u0.activated
    &&& u1.created == u0.created
    &&& u1.registered == u0.registered
    &&& u1.last_login == u0.last_login
    &&& u1.awaiting_second_factor == u0.awaiting_second_factor
    &&& u1.second_factors == u0.second_factors
    &&& u1.totp_key == u0.totp_key
    &&& u1.recovery_keys == u0.recovery_keys
    &&& u1.challenge == u0.challenge
    &&& u1.webauthn_credentials == u0.webauthn_credentials
}

/// A score grown by an award, stopping at the top of the range.
pub open spec fn score_after(score: u32, award: u32) -> u32 {
    if score + award > u32::MAX {
        u32::MAX
    } else {
        (score + award) as u32
    }
}

/// Law: recording a solve is idempotent on the solved set and the score —
/// recording the same riddle again leaves both exactly as they were — and
/// the solved set never picks up a duplicate id.
pub proof fn lemma_solve_idempotent(
    u0: User,
    u1: User,
    u2: User,
    riddle: Riddle,
    room_a: u64,
    room_b: u64,
)
    requires
        record_solved_rel(u0, u1, riddle, room_a),
        record_solved_rel(u1, u2, riddle, room_b),
    ensures
        u2.solved@ == u1.solved@,
        u2.score == u1.score,
        u0.solved@.no_duplicates() ==> u1.solved@.no_duplicates(),
{
    if u0.has_solved(riddle.id) {
        assert(u1.has_solved(riddle.id));
    } else {
        assert(u1.solved@.last() == riddle.id);
        assert(u1.has_solved(riddle.id));
    }
    if !u0.has_solved(riddle.id) && u0.solved@.no_duplicates() {
        assert forall|i: int, j: int|
            0 <= i < u1.solved@.len() && 0 <= j < u1.solved@.len() && i != j implies u1.solved@[i]
            != u1.solved@[j] by {
            if i < u0.solved@.len() && j < u0.solved@.len() {
            } else if i < u0.solved@.len() {
                assert(u1.solved@[j] == riddle.id);
            } else if j < u0.solved@.len() {
                assert(u1.solved@[i] == riddle.id);
            }
        }
    }
}

/// The decision an advance request comes to: the index of the room behind
/// the solved doorway, or the governing denial.  The first doorway of the
/// user's room gated by the riddle names the direction whose opposite the
/// room behind must carry.
pub open spec fn advance_check(
    s: Store,
    name: Seq<char>,
    riddle_id: u64,
    submitted: Seq<char>,
) -> Result<int, Error> {
    match access_check(s, name, riddle_id) {
        Err(e) => Err(e),
        Ok(qi) => {
            if !solution_ok(s.riddles@[qi], submitted) {
                Err(Error::RiddleNotSolved)
            } else {
                let u = s.user_named(name);
                let room = s.room_with_id(u.in_room->0);
                let d = room.neighbors@[room.first_doorway(riddle_id)];
                match opposite_label(d.direction@) {
                    None => Err(Error::RoomBehindNotFound),
                    Some(opp) => if !s.has_room_behind(opp, riddle_id) {
                        Err(Error::RoomBehindNotFound)
                    } else {
                        Ok(first_room_behind(s.rooms@, opp, riddle_id))
                    },
                }
            }
        },
    }
}

impl Store {
    /// Whether the riddle is reachable from the user's current room: walks
    /// user, room and doorway list and yields the riddle's index, or the
    /// denial `access_check` names.  A user can never fetch a riddle that
    /// no doorway of their room carries, however well they know its id.
    pub fn is_riddle_accessible(&self, oid: u64, username: &str) -> (r: Result<usize, Error>)
        requires
            self.wf(),
        ensures
            r matches Ok(i) ==> Ok::<int, Error>(i as int) == access_check(*self, username@, oid)
                && i < self.riddles@.len() && self.riddles@[i as int].id == oid,
            r matches Err(e) ==> Err::<int, Error>(e) == access_check(*self, username@, oid),
    {
        let ui = match self.find_user(username) {
            None => {
                return Err(Error::UserNotFound);
            },
            Some(i) => i,
        };
        let room_id = match self.users[ui].in_room {
            Some(rid) => rid,
            None => {
                return Err(Error::UserNotInAnyRoom);
            },
        };
        let ri = match self.find_room(room_id) {
            None => {
                return Err(Error::RoomNotFound);
            },
            Some(i) => i,
        };
        match find_doorway(&self.rooms[ri], oid) {
            None => {
                return Err(Error::DoorwayNotAccessible);
            },
            Some(_) => {},
        };
        match self.find_riddle(oid) {
            None => Err(Error::RiddleNotFound),
            Some(qi) => Ok(qi),
        }
    }

    /// Settles a solve attempt: the riddle must be reachable as in
    /// `is_riddle_accessible`, the solution must match, and a room must
    /// lie behind the doorway; then the user's record advances in one
    /// step — solved set, score, level, room, and room history — and the
    /// index of the room entered comes back.  On any denial the store is
    /// exactly as it was.
    pub fn advance_on_solve(&mut self, username: &str, riddle_id: u64, solution: &str) -> (r:
        Result<usize, Error>)
        requires
            old(self).wf(),
        ensures
            final(self).wf(),
            final(self).rooms == old(self).rooms,
            final(self).riddles == old(self).riddles,
            r matches Err(e) ==> Err::<int, Error>(e) == advance_check(
                *old(self),
                username@,
                riddle_id,
                solution@,
            ) && *final(self) == *old(self),
            r matches Ok(i) ==> {
                &&& Ok::<int, Error>(i as int) == advance_check(
                    *old(self),
                    username@,
                    riddle_id,
                    solution@,
                )
                &&& i < old(self).rooms@.len()
                &&& final(self).users@ == old(self).users@.update(
                    old(self).user_ix(username@),
                    final(self).users@[old(self).user_ix(username@)],
                )
                &&& record_solved_rel(
                    old(self).user_named(username@),
                    final(self).users@[old(self).user_ix(username@)],
                    old(self).riddle_with_id(riddle_id),
                    old(self).rooms@[i as int].id,
                )
            },
    {
        let ui = match self.find_user(username) {
            None => {
                return Err(Error::UserNotFound);
            },
            Some(i) => i,
        };
        let room_id = match self.users[ui].in_room {
            Some(rid) => rid,
            None => {
                return Err(Error::UserNotInAnyRoom);
            },
        };
        let ri = match self.find_room(room_id) {
            None => {
                return Err(Error::RoomNotFound);
            },
            Some(i) => i,
        };
        let di = match find_doorway(&self.rooms[ri], riddle_id) {
            None => {
                return Err(Error::DoorwayNotAccessible);
            },
            Some(i) => i,
        };
        let qi = match self.find_riddle(riddle_id) {
            None => {
                return Err(Error::RiddleNotFound);
            },
            Some(i) => i,
        };
        if !solution_matches(&self.riddles[qi], solution) {
            return Err(Error::RiddleNotSolved);
        }
        let opp = match opposite_of(self.rooms[ri].neighbors[di].direction.as_str()) {
            None => {
                return Err(Error::RoomBehindNotFound);
            },
            Some(o) => o,
        };
        let bi = match self.find_room_behind_ix(opp, riddle_id) {
            None => {
                return Err(Error::RoomBehindNotFound);
            },
            Some(i) => i,
        };
        let behind_id = self.rooms[bi].id;
        let award = self.riddles[qi].difficulty;
        let riddle_level = self.riddles[qi].level;
        let mut u = self.users.remove(ui);
        let already = crate::store::contains_u64(&u.solved, riddle_id);
        if !already {
            u.solved.push(riddle_id);
            u.score = if u.score > u32::MAX - award {
                u32::MAX
            } else {
                u.score + award
            };
        }
        if u.level < riddle_level {
            u.level = riddle_level;
        }
        u.in_room = Some(behind_id);
        u.rooms_entered.push(behind_id);
        self.users.insert(ui, u);
        proof {
            assert(final(self).users@ =~= old(self).users@.update(
                ui as int,
                final(self).users@[ui as int],
            ));
            let u0 = old(self).user_named(username@);
            let u1 = final(self).users@[ui as int];
            assert(u0.has_solved(riddle_id) == u0.solved@.contains(riddle_id));
            if !u0.solved@.contains(riddle_id) {
                assert(u1.solved@ =~= u0.solved@.push(riddle_id));
            }
            assert(u1.solved@.no_duplicates());
        }
        Ok(bi)
    }
}

} // verus!
