//! The credential store: user, room and riddle records, held in memory.
//!
//! The store owns all durable state; the request processors in the other
//! modules are stateless over it.  Every read-then-update sequence is a
//! single call here, guarded by the predicate the update assumes (a user
//! still activated, a challenge still live), so a stale precondition
//! surfaces as a `Conflict`-class error and never as silent corruption.

use vstd::prelude::*;
use crate::error::Error;
use crate::types::{Direction, PinType, Room, Riddle, User};

verus! {

/// The record store.  All ids are plain numbers, unique per record kind;
/// usernames and emails are unique over users.
pub struct Store {
    pub users: Vec<User>,
    pub rooms: Vec<Room>,
    pub riddles: Vec<Riddle>,
}

impl Store {
    /// The store's invariant: unique keys, and every user well-formed.
    pub open spec fn wf(self) -> bool {
        &&& forall|i: int, j: int|
            0 <= i < j < self.users@.len() ==> self.users@[i].username@ != self.users@[j].username@
        &&& forall|i: int, j: int|
            0 <= i < j < self.users@.len() ==> self.users@[i].email@ != self.users@[j].email@
        &&& forall|i: int, j: int|
            0 <= i < j < self.users@.len() ==> self.users@[i].id != self.users@[j].id
        &&& forall|i: int, j: int|
            0 <= i < j < self.rooms@.len() ==> self.rooms@[i].id != self.rooms@[j].id
        &&& forall|i: int, j: int|
            0 <= i < j < self.riddles@.len() ==> self.riddles@[i].id != self.riddles@[j].id
        &&& forall|i: int| 0 <= i < self.users@.len() ==> (#[trigger] self.users@[i]).wf()
    }

    /// Whether some user carries the given username.
    pub open spec fn has_user(self, name: Seq<char>) -> bool {
        exists|i: int| 0 <= i < self.users@.len() && self.users@[i].username@ == name
    }

    /// The index of the user carrying the given username; meaningful only
    /// when `has_user` holds (and then unique under `wf`).
    pub open spec fn user_ix(self, name: Seq<char>) -> int {
        choose|i: int| 0 <= i < self.users@.len() && self.users@[i].username@ == name
    }

    /// The user carrying the given username.
    pub open spec fn user_named(self, name: Seq<char>) -> User {
        self.users@[self.user_ix(name)]
    }

    /// Whether some room carries the given id.
    pub open spec fn has_room(self, id: u64) -> bool {
        exists|i: int| 0 <= i < self.rooms@.len() && self.rooms@[i].id == id
    }

    /// The index of the room carrying the given id.
    pub open spec fn room_ix(self, id: u64) -> int {
        choose|i: int| 0 <= i < self.rooms@.len() && self.rooms@[i].id == id
    }

    /// The room carrying the given id.
    pub open spec fn room_with_id(self, id: u64) -> Room {
        self.rooms@[self.room_ix(id)]
    }

    /// Whether some riddle carries the given id.
    pub open spec fn has_riddle(self, id: u64) -> bool {
        exists|i: int| 0 <= i < self.riddles@.len() && self.riddles@[i].id == id
    }

    /// The index of the riddle carrying the given id.
    pub open spec fn riddle_ix(self, id: u64) -> int {
        choose|i: int| 0 <= i < self.riddles@.len() && self.riddles@[i].id == id
    }

    /// The riddle carrying the given id.
    pub open spec fn riddle_with_id(self, id: u64) -> Riddle {
        self.riddles@[self.riddle_ix(id)]
    }

    /// An empty store.
    pub fn new() -> (r: Store)
        ensures
            r.users@.len() == 0,
            r.rooms@.len() == 0,
            r.riddles@.len() == 0,
            r.wf(),
    {
        Store { users: Vec::new(), rooms: Vec::new(), riddles: Vec::new() }
    }

    /// Finds the index of the user carrying the given username.
    pub fn find_user(&self, username: &str) -> (r: Option<usize>)
        requires
            self.wf(),
        ensures
            r is Some <==> self.has_user(username@),
            r matches Some(i) ==> i < self.users@.len() && i as int == self.user_ix(username@)
                && self.users@[i as int].username@ == username@,
    {
        let n = self.users.len();
        let mut i: usize = 0;
        while i < n
            invariant
                self.wf(),
                i <= n,
                n == self.users@.len(),
                forall|j: int| 0 <= j < i ==> self.users@[j].username@ != username@,
            decreases n - i,
        {
            if crate::strutil::str_eq(self.users[i].username.as_str(), username) {
                proof {
                    assert(self.has_user(username@));
                    let k = self.user_ix(username@);
                    assert(0 <= k < self.users@.len() && self.users@[k].username@ == username@);
                    assert(k == i as int);
                }
                return Some(i);
            }
            i += 1;
        }
        None
    }

    /// Finds the index of the room carrying the given id.
    pub fn find_room(&self, id: u64) -> (r: Option<usize>)
        requires
            self.wf(),
        ensures
            r is Some <==> self.has_room(id),
            r matches Some(i) ==> i < self.rooms@.len() && i as int == self.room_ix(id)
                && self.rooms@[i as int].id == id,
    {
        let n = self.rooms.len();
        let mut i: usize = 0;
        while i < n
            invariant
                self.wf(),
                i <= n,
                n == self.rooms@.len(),
                forall|j: int| 0 <= j < i ==> self.rooms@[j].id != id,
            decreases n - i,
        {
            if self.rooms[i].id == id {
                proof {
                    assert(self.has_room(id));
                    let k = self.room_ix(id);
                    assert(0 <= k < self.rooms@.len() && self.rooms@[k].id == id);
                    assert(k == i as int);
                }
                return Some(i);
            }
            i += 1;
        }
        None
    }

    /// Finds the index of the riddle carrying the given id.
    pub fn find_riddle(&self, id: u64) -> (r: Option<usize>)
        requires
            self.wf(),
        ensures
            r is Some <==> self.has_riddle(id),
            r matches Some(i) ==> i < self.riddles@.len() && i as int == self.riddle_ix(id)
                && self.riddles@[i as int].id == id,
    {
        let n = self.riddles.len();
        let mut i: usize = 0;
        while i < n
            invariant
                self.wf(),
                i <= n,
                n == self.riddles@.len(),
                forall|j: int| 0 <= j < i ==> self.riddles@[j].id != id,
            decreases n - i,
        {
            if self.riddles[i].id == id {
                proof {
                    assert(self.has_riddle(id));
                    let k = self.riddle_ix(id);
                    assert(0 <= k < self.riddles@.len() && self.riddles@[k].id == id);
                    assert(k == i as int);
                }
                return Some(i);
            }
            i += 1;
        }
        None
    }

    /// The user carrying the given username, or `UserNotFound`.
    pub fn get_user(&self, username: &str) -> (r: Result<&User, Error>)
        requires
            self.wf(),
        ensures
            r is Ok <==> self.has_user(username@),
            r matches Ok(u) ==> *u == self.user_named(username@),
            r is Err ==> r == Err::<&User, Error>(Error::UserNotFound),
    {
        match self.find_user(username) {
            Some(i) => Ok(&self.users[i]),
            None => Err(Error::UserNotFound),
        }
    }

    /// The room carrying the given id, or `RoomNotFound`.
    pub fn get_room(&self, oid: u64) -> (r: Result<&Room, Error>)
        requires
            self.wf(),
        ensures
            r is Ok <==> self.has_room(oid),
            r matches Ok(m) ==> *m == self.room_with_id(oid),
            r is Err ==> r == Err::<&Room, Error>(Error::RoomNotFound),
    {
        match self.find_room(oid) {
            Some(i) => Ok(&self.rooms[i]),
            None => Err(Error::RoomNotFound),
        }
    }

    /// The riddle carrying the given id, if any.
    pub fn get_riddle_by_oid(&self, oid: u64) -> (r: Option<&Riddle>)
        requires
            self.wf(),
        ensures
            r is Some <==> self.has_riddle(oid),
            r matches Some(q) ==> *q == self.riddle_with_id(oid),
    {
        match self.find_riddle(oid) {
            Some(i) => Some(&self.riddles[i]),
            None => None,
        }
    }

    /// Some riddle pitched at the given level, if any carries it.
    pub fn get_riddle_by_level(&self, level: u32) -> (r: Option<&Riddle>)
        ensures
            r is Some <==> exists|i: int|
                0 <= i < self.riddles@.len() && self.riddles@[i].level == level,
            r matches Some(q) ==> exists|i: int|
                0 <= i < self.riddles@.len() && self.riddles@[i] == *q && q.level == level,
    {
        let n = self.riddles.len();
        let mut i: usize = 0;
        while i < n
            invariant
                i <= n,
                n == self.riddles@.len(),
                forall|j: int| 0 <= j < i ==> self.riddles@[j].level != level,
            decreases n - i,
        {
            if self.riddles[i].level == level {
                return Some(&self.riddles[i]);
            }
            i += 1;
        }
        None
    }

    /// The riddle, but only if the given user has already solved it.
    pub fn get_riddle_if_solved(&self, riddle_id: u64, username: &str) -> (r: Option<&Riddle>)
        requires
            self.wf(),
        ensures
            r is Some <==> self.has_user(username@) && self.user_named(username@).has_solved(
                riddle_id,
            ) && self.has_riddle(riddle_id),
            r matches Some(q) ==> *q == self.riddle_with_id(riddle_id),
    {
        match self.find_user(username) {
            None => None,
            Some(ui) => {
                let solved = contains_u64(&self.users[ui].solved, riddle_id);
                if solved {
                    self.get_riddle_by_oid(riddle_id)
                } else {
                    None
                }
            },
        }
    }

    /// The user, but only when the pin matches and the account still awaits
    /// activation; anything else is `UserNotFound`, so a prober learns
    /// nothing from the shape of the denial.
    pub fn get_user_with_pin(&self, username: &str, pin: PinType) -> (r: Result<&User, Error>)
        requires
            self.wf(),
        ensures
            r is Ok <==> self.has_user(username@) && self.user_named(username@).pin == Some(pin)
                && !self.user_named(username@).activated,
            r matches Ok(u) ==> *u == self.user_named(username@),
            r is Err ==> r == Err::<&User, Error>(Error::UserNotFound),
    {
        match self.find_user(username) {
            None => Err(Error::UserNotFound),
            Some(i) => {
                let u = &self.users[i];
                let pin_matches = match u.pin {
                    Some(p) => p == pin,
                    None => false,
                };
                if pin_matches && !u.activated {
                    Ok(u)
                } else {
                    Err(Error::UserNotFound)
                }
            },
        }
    }

    /// How many rooms belong to the given game.
    pub fn get_num_rooms(&self, game_id: u64) -> (r: usize)
        ensures
            r as int == count_rooms_of(self.rooms@, game_id),
    {
        let n = self.rooms.len();
        let mut count: usize = 0;
        let mut i: usize = 0;
        while i < n
            invariant
                i <= n,
                n == self.rooms@.len(),
                count as int == count_rooms_of(self.rooms@.take(i as int), game_id),
                count <= i,
            decreases n - i,
        {
            proof {
                assert(self.rooms@.take(i + 1).drop_last() =~= self.rooms@.take(i as int));
                assert(self.rooms@.take(i + 1).last() == self.rooms@[i as int]);
            }
            if self.rooms[i].game_id == game_id {
                count += 1;
            }
            i += 1;
        }
        proof {
            assert(self.rooms@.take(n as int) =~= self.rooms@);
        }
        count
    }

    /// Whether some user carries the given email.
    pub open spec fn has_email(self, email: Seq<char>) -> bool {
        exists|i: int| 0 <= i < self.users@.len() && self.users@[i].email@ == email
    }

    /// Whether some room is an entry room.
    pub open spec fn has_entry_room(self) -> bool {
        exists|i: int| 0 <= i < self.rooms@.len() && self.rooms@[i].is_entry()
    }

    /// Whether some user carries the given email (the runtime check).
    fn email_taken(&self, email: &str) -> (r: bool)
        ensures
            r == self.has_email(email@),
    {
        let n = self.users.len();
        let mut i: usize = 0;
        while i < n
            invariant
                i <= n,
                n == self.users@.len(),
                forall|j: int| 0 <= j < i ==> self.users@[j].email@ != email@,
            decreases n - i,
        {
            if crate::strutil::str_eq(self.users[i].email.as_str(), email) {
                proof {
                    assert(self.has_email(email@));
                }
                return true;
            }
            i += 1;
        }
        false
    }

    /// An id strictly above every user id in the store, or nothing if the
    /// id space is exhausted.
    fn fresh_user_id(&self) -> (r: Option<u64>)
        ensures
            r matches Some(id) ==> forall|j: int|
                0 <= j < self.users@.len() ==> self.users@[j].id < id,
            r is None <==> exists|j: int|
                0 <= j < self.users@.len() && self.users@[j].id == u64::MAX,
    {
        let n = self.users.len();
        let mut m: u64 = 0;
        let mut i: usize = 0;
        while i < n
            invariant
                i <= n,
                n == self.users@.len(),
                forall|j: int| 0 <= j < i ==> self.users@[j].id <= m,
                m == 0 || exists|j: int| 0 <= j < i && self.users@[j].id == m,
            decreases n - i,
        {
            if self.users[i].id > m {
                m = self.users[i].id;
            }
            i += 1;
        }
        if m == u64::MAX {
            None
        } else {
            Some(m + 1)
        }
    }

    /// Adds a fresh user record, assigning it an unused id.  The username
    /// and email must not be taken; the record must not be activated yet.
    pub fn create_user(&mut self, user: User) -> (r: Result<u64, Error>)
        requires
            old(self).wf(),
            user.wf(),
            !user.activated,
        ensures
            final(self).wf(),
            final(self).rooms == old(self).rooms,
            final(self).riddles == old(self).riddles,
            old(self).has_user(user.username@) || old(self).has_email(user.email@) ==> r
                == Err::<u64, Error>(Error::UsernameOrEmailNotAvailable) && *final(self) == *old(
                self,
            ),
            r is Err ==> *final(self) == *old(self),
            !old(self).has_user(user.username@) && !old(self).has_email(user.email@) && (forall|
                j: int,
            |
                0 <= j < old(self).users@.len() ==> old(self).users@[j].id != u64::MAX) ==> r
                is Ok,
            r matches Ok(id) ==> {
                &&& !old(self).has_user(user.username@)
                &&& !old(self).has_email(user.email@)
                &&& forall|j: int| 0 <= j < old(self).users@.len() ==> old(self).users@[j].id != id
                &&& final(self).users@.len() == old(self).users@.len() + 1
                &&& final(self).users@ == old(self).users@.push(
                    User { id, ..user },
                )
            },
    {
        if self.find_user(user.username.as_str()).is_some() || self.email_taken(
            user.email.as_str(),
        ) {
            return Err(Error::UsernameOrEmailNotAvailable);
        }
        let id = match self.fresh_user_id() {
            Some(id) => id,
            None => {
                return Err(Error::Conflict);
            },
        };
        let mut nu = user;
        nu.id = id;
        self.users.push(nu);
        Ok(id)
    }

    /// Marks the user as awaiting a second factor, guarded by the record
    /// still being activated.
    pub fn set_user_awaiting_2fa(&mut self, username: &str) -> (r: Result<(), Error>)
        requires
            old(self).wf(),
        ensures
            final(self).wf(),
            final(self).rooms == old(self).rooms,
            final(self).riddles == old(self).riddles,
            !old(self).has_user(username@) ==> r == Err::<(), Error>(Error::UserNotFound) && *final(self) == *old(self),
            old(self).has_user(username@) && !old(self).user_named(username@).activated ==> r
                == Err::<(), Error>(Error::Conflict) && *final(self) == *old(self),
            old(self).has_user(username@) && old(self).user_named(username@).activated ==> r is Ok
                && final(self).users@ == old(self).users@.update(
                old(self).user_ix(username@),
                User { awaiting_second_factor: true, ..old(self).user_named(username@) },
            ),
    {
        let ui = match self.find_user(username) {
            None => {
                return Err(Error::UserNotFound);
            },
            Some(i) => i,
        };
        if !self.users[ui].activated {
            return Err(Error::Conflict);
        }
        let mut u = self.users.remove(ui);
        u.awaiting_second_factor = true;
        self.users.insert(ui, u);
        proof {
            assert(final(self).users@ =~= old(self).users@.update(
                old(self).user_ix(username@),
                User { awaiting_second_factor: true, ..old(self).user_named(username@) },
            ));
        }
        Ok(())
    }

    /// Stamps a successful login: clears the second-factor wait and sets
    /// the login time, guarded by the record still being activated.
    pub fn login_user(&mut self, username: &str, now: i64) -> (r: Result<(), Error>)
        requires
            old(self).wf(),
        ensures
            final(self).wf(),
            final(self).rooms == old(self).rooms,
            final(self).riddles == old(self).riddles,
            !old(self).has_user(username@) ==> r == Err::<(), Error>(Error::UserNotFound) && *final(self) == *old(self),
            old(self).has_user(username@) && !old(self).user_named(username@).activated ==> r
                == Err::<(), Error>(Error::Conflict) && *final(self) == *old(self),
            old(self).has_user(username@) && old(self).user_named(username@).activated ==> r is Ok
                && final(self).users@ == old(self).users@.update(
                old(self).user_ix(username@),
                User {
                    awaiting_second_factor: false,
                    last_login: Some(now),
                    ..old(self).user_named(username@)
                },
            ),
    {
        let ui = match self.find_user(username) {
            None => {
                return Err(Error::UserNotFound);
            },
            Some(i) => i,
        };
        if !self.users[ui].activated {
            return Err(Error::Conflict);
        }
        let mut u = self.users.remove(ui);
        u.awaiting_second_factor = false;
        u.last_login = Some(now);
        self.users.insert(ui, u);
        proof {
            assert(final(self).users@ =~= old(self).users@.update(
                old(self).user_ix(username@),
                User {
                    awaiting_second_factor: false,
                    last_login: Some(now),
                    ..old(self).user_named(username@)
                },
            ));
        }
        Ok(())
    }

    /// Writes the user's solved set, level and score in one step, guarded
    /// by the record still being activated.
    pub fn set_user_solved(
        &mut self,
        username: &str,
        solutions: Vec<u64>,
        level: u32,
        score: u32,
    ) -> (r: Result<(), Error>)
        requires
            old(self).wf(),
            solutions@.no_duplicates(),
        ensures
            final(self).wf(),
            final(self).rooms == old(self).rooms,
            final(self).riddles == old(self).riddles,
            !old(self).has_user(username@) ==> r == Err::<(), Error>(Error::UserNotFound) && *final(self) == *old(self),
            old(self).has_user(username@) && !old(self).user_named(username@).activated ==> r
                == Err::<(), Error>(Error::Conflict) && *final(self) == *old(self),
            old(self).has_user(username@) && old(self).user_named(username@).activated ==> r is Ok
                && final(self).users@ == old(self).users@.update(
                old(self).user_ix(username@),
                User { solved: solutions, level, score, ..old(self).user_named(username@) },
            ),
    {
        let ui = match self.find_user(username) {
            None => {
                return Err(Error::UserNotFound);
            },
            Some(i) => i,
        };
        if !self.users[ui].activated {
            return Err(Error::Conflict);
        }
        let mut u = self.users.remove(ui);
        u.solved = solutions;
        u.level = level;
        u.score = score;
        self.users.insert(ui, u);
        proof {
            assert(final(self).users@ =~= old(self).users@.update(
                old(self).user_ix(username@),
                User { solved: solutions, level, score, ..old(self).user_named(username@) },
            ));
        }
        Ok(())
    }

    /// Rewrites the user's score, the one explicitly allowed non-monotonic
    /// update, guarded by the record still being activated.
    pub fn rewrite_user_score(&mut self, username: &str, score: u32) -> (r: Result<(), Error>)
        requires
            old(self).wf(),
        ensures
            final(self).wf(),
            final(self).rooms == old(self).rooms,
            final(self).riddles == old(self).riddles,
            !old(self).has_user(username@) ==> r == Err::<(), Error>(Error::UserNotFound) && *final(self) == *old(self),
            old(self).has_user(username@) && !old(self).user_named(username@).activated ==> r
                == Err::<(), Error>(Error::Conflict) && *final(self) == *old(self),
            old(self).has_user(username@) && old(self).user_named(username@).activated ==> r is Ok
                && final(self).users@ == old(self).users@.update(
                old(self).user_ix(username@),
                User { score, ..old(self).user_named(username@) },
            ),
    {
        let ui = match self.find_user(username) {
            None => {
                return Err(Error::UserNotFound);
            },
            Some(i) => i,
        };
        if !self.users[ui].activated {
            return Err(Error::Conflict);
        }
        let mut u = self.users.remove(ui);
        u.score = score;
        self.users.insert(ui, u);
        proof {
            assert(final(self).users@ =~= old(self).users@.update(
                old(self).user_ix(username@),
                User { score, ..old(self).user_named(username@) },
            ));
        }
        Ok(())
    }

    /// Finds the index of some entry room.
    fn find_entry_room(&self) -> (r: Option<usize>)
        ensures
            r is Some <==> self.has_entry_room(),
            r matches Some(i) ==> i < self.rooms@.len() && self.rooms@[i as int].is_entry(),
    {
        let n = self.rooms.len();
        let mut i: usize = 0;
        while i < n
            invariant
                i <= n,
                n == self.rooms@.len(),
                forall|j: int| 0 <= j < i ==> !self.rooms@[j].is_entry(),
            decreases n - i,
        {
            let is_entry = match self.rooms[i].entry {
                Some(b) => b,
                None => false,
            };
            if is_entry {
                proof {
                    assert(self.has_entry_room());
                }
                return Some(i);
            }
            i += 1;
        }
        None
    }

    /// Activates a user: checks the pin against a not yet activated
    /// record, places the user in the entry room, clears the pin, and
    /// assigns fresh recovery keys and a fresh one-time-code secret.
    ///
    /// A wrong pin and an already activated record are both answered with
    /// `UserNotFound`, so a prober cannot tell the cases apart.
    pub fn activate_user(&mut self, username: &str, pin: PinType, now: i64) -> (r: Result<
        (),
        Error,
    >)
        requires
            old(self).wf(),
        ensures
            final(self).wf(),
            final(self).rooms == old(self).rooms,
            final(self).riddles == old(self).riddles,
            r is Err ==> *final(self) == *old(self),
            r is Ok <==> old(self).has_user(username@) && old(self).user_named(username@).pin
                == Some(pin) && !old(self).user_named(username@).activated && old(
                self,
            ).has_entry_room(),
            !(old(self).has_user(username@) && old(self).user_named(username@).pin == Some(pin)
                && !old(self).user_named(username@).activated) ==> r == Err::<(), Error>(
                Error::UserNotFound,
            ),
            old(self).has_user(username@) && old(self).user_named(username@).pin == Some(pin)
                && !old(self).user_named(username@).activated && !old(self).has_entry_room() ==> r
                == Err::<(), Error>(Error::RoomNotFound),
            r is Ok ==> {
                let i = old(self).user_ix(username@);
                let u0 = old(self).users@[i];
                let u1 = final(self).users@[i];
                &&& final(self).users@.len() == old(self).users@.len()
                &&& forall|j: int|
                    0 <= j < old(self).users@.len() && j != i ==> final(self).users@[j] == old(
                        self,
                    ).users@[j]
                &&& u1.activated
                &&& u1.registered == Some(now)
                &&& u1.last_login == Some(now)
                &&& u1.pin is None
                &&& u1.in_room matches Some(rid) && exists|k: int|
                    0 <= k < old(self).rooms@.len() && old(self).rooms@[k].is_entry() && old(
                        self,
                    ).rooms@[k].id == rid
                &&& u1.rooms_entered@ == u0.rooms_entered@.push(u1.in_room->0)
                &&& u1.recovery_keys@.len() == 10
                &&& forall|k: int| 0 <= k < 10 ==> is_recovery_key(u1.recovery_keys@[k]@)
                &&& u1.totp_key@.len() == 32
                &&& u1.id == u0.id
                &&& u1.username == u0.username
                &&& u1.email == u0.email
                &&& u1.role == u0.role
                &&& u1.hash == u0.hash
                &&& u1.created == u0.created
                &&& u1.solved == u0.solved
                &&& u1.level == u0.level
                &&& u1.score == u0.score
                &&& u1.awaiting_second_factor == u0.awaiting_second_factor
                &&& u1.second_factors == u0.second_factors
                &&& u1.challenge == u0.challenge
                &&& u1.webauthn_credentials == u0.webauthn_credentials
            },
    {
        let ui = match self.find_user(username) {
            None => {
                return Err(Error::UserNotFound);
            },
            Some(i) => i,
        };
        {
            let u = &self.users[ui];
            let pin_ok = match u.pin {
                Some(p) => p == pin,
                None => false,
            };
            if !pin_ok || u.activated {
                return Err(Error::UserNotFound);
            }
        }
        let ri = match self.find_entry_room() {
            None => {
                return Err(Error::RoomNotFound);
            },
            Some(i) => i,
        };
        let room_id = self.rooms[ri].id;
        let keys = make_recovery_keys();
        let secret = crate::trusted::random_bytes32();
        let mut u = self.users.remove(ui);
        u.activated = true;
        u.registered = Some(now);
        u.last_login = Some(now);
        u.in_room = Some(room_id);
        u.rooms_entered.push(room_id);
        u.pin = None;
        u.recovery_keys = keys;
        u.totp_key = secret;
        self.users.insert(ui, u);
        proof {
            assert(final(self).users@ =~= old(self).users@.update(
                old(self).user_ix(username@),
                final(self).users@[old(self).user_ix(username@)],
            ));
        }
        Ok(())
    }

    /// How many distinct riddles gate doorways of the given game's rooms.
    pub fn get_num_riddles(&self, game_id: u64) -> (r: usize)
        ensures
            r as int == doorway_ids(self.rooms@, game_id).len(),
    {
        let nrooms = self.rooms.len();
        let mut seen: Vec<u64> = Vec::new();
        let mut i: usize = 0;
        while i < nrooms
            invariant
                i <= nrooms,
                nrooms == self.rooms@.len(),
                seen@.no_duplicates(),
                seen@.to_set() == doorway_ids(self.rooms@.take(i as int), game_id),
            decreases nrooms - i,
        {
            proof {
                assert(self.rooms@.take(i + 1).drop_last() =~= self.rooms@.take(i as int));
                assert(self.rooms@.take(i + 1).last() == self.rooms@[i as int]);
            }
            if self.rooms[i].game_id == game_id {
                let nd = self.rooms[i].neighbors.len();
                let mut j: usize = 0;
                while j < nd
                    invariant
                        j <= nd,
                        i < nrooms,
                        nrooms == self.rooms@.len(),
                        nd == self.rooms@[i as int].neighbors@.len(),
                        seen@.no_duplicates(),
                        seen@.to_set() == doorway_ids(self.rooms@.take(i as int), game_id).union(
                            dir_ids(self.rooms@[i as int].neighbors@.take(j as int)),
                        ),
                    decreases nd - j,
                {
                    let ghost prev = seen@;
                    let ghost ds = self.rooms@[i as int].neighbors@;
                    let id = self.rooms[i].neighbors[j].riddle_id;
                    proof {
                        assert(ds.take(j + 1).drop_last() =~= ds.take(j as int));
                        assert(ds.take(j + 1).last() == ds[j as int]);
                    }
                    let dup = contains_u64(&seen, id);
                    if !dup {
                        seen.push(id);
                        proof {
                            assert(seen@.drop_last() =~= prev);
                            assert(seen@.to_set() =~= prev.to_set().insert(id)) by {
                                assert forall|a: u64| #[trigger] seen@.contains(a) implies
                                    prev.contains(a) || a == id by {
                                    let k = choose|k: int|
                                        0 <= k < seen@.len() && seen@[k] == a;
                                    if k < prev.len() {
                                        assert(prev[k] == a);
                                    }
                                }
                                assert forall|a: u64| prev.contains(a) || a
                                    == id implies #[trigger] seen@.contains(a) by {
                                    if prev.contains(a) {
                                        let k = choose|k: int|
                                            0 <= k < prev.len() && prev[k] == a;
                                        assert(seen@[k] == a);
                                    } else {
                                        assert(seen@.last() == id);
                                    }
                                }
                            }
                            assert(doorway_ids(self.rooms@.take(i as int), game_id).union(
                                dir_ids(ds.take(j + 1)),
                            ) =~= doorway_ids(self.rooms@.take(i as int), game_id).union(
                                dir_ids(ds.take(j as int)),
                            ).insert(id));
                        }
                    } else {
                        proof {
                            assert(prev.to_set().contains(id));
                            assert(doorway_ids(self.rooms@.take(i as int), game_id).union(
                                dir_ids(ds.take(j + 1)),
                            ) =~= doorway_ids(self.rooms@.take(i as int), game_id).union(
                                dir_ids(ds.take(j as int)),
                            ).insert(id));
                            assert(doorway_ids(self.rooms@.take(i as int), game_id).union(
                                dir_ids(ds.take(j as int)),
                            ).insert(id) =~= doorway_ids(self.rooms@.take(i as int), game_id).union(
                                dir_ids(ds.take(j as int)),
                            ));
                        }
                    }
                    j += 1;
                }
                proof {
                    let ds = self.rooms@[i as int].neighbors@;
                    assert(ds.take(nd as int) =~= ds);
                    assert(doorway_ids(self.rooms@.take(i + 1), game_id) =~= doorway_ids(
                        self.rooms@.take(i as int),
                        game_id,
                    ).union(dir_ids(ds)));
                }
            } else {
                proof {
                    assert(doorway_ids(self.rooms@.take(i + 1), game_id) =~= doorway_ids(
                        self.rooms@.take(i as int),
                        game_id,
                    ));
                }
            }
            i += 1;
        }
        proof {
            assert(self.rooms@.take(nrooms as int) =~= self.rooms@);
            seen@.unique_seq_to_set();
        }
        seen.len()
    }

}

/// Whether a vector of ids holds the given one.
pub fn contains_u64(v: &Vec<u64>, x: u64) -> (r: bool)
    ensures
        r == v@.contains(x),
{
    let n = v.len();
    let mut i: usize = 0;
    while i < n
        invariant
            i <= n,
            n == v@.len(),
            forall|j: int| 0 <= j < i ==> v@[j] != x,
        decreases n - i,
    {
        if v[i] == x {
            proof {
                assert(v@.contains(x));
            }
            return true;
        }
        i += 1;
    }
    proof {
        assert(!v@.contains(x));
    }
    false
}

/// The riddle ids gating the doorways of `ds`.
pub open spec fn dir_ids(ds: Seq<Direction>) -> Set<u64>
    decreases ds.len(),
{
    if ds.len() == 0 {
        Set::empty()
    } else {
        dir_ids(ds.drop_last()).insert(ds.last().riddle_id)
    }
}

/// The riddle ids gating any doorway of the given game's rooms.
pub open spec fn doorway_ids(rooms: Seq<Room>, game_id: u64) -> Set<u64>
    decreases rooms.len(),
{
    if rooms.len() == 0 {
        Set::empty()
    } else {
        doorway_ids(rooms.drop_last(), game_id).union(
            if rooms.last().game_id == game_id {
                dir_ids(rooms.last().neighbors@)
            } else {
                Set::empty()
            },
        )
    }
}

/// Whether a character lies in the recovery-key alphabet.
pub open spec fn is_key_char_c(c: char) -> bool {
    (97 <= c as u32 <= 122 && c as u32 != 108) || (48 <= c as u32 <= 57)
}

/// The shape of a recovery key: four groups of four alphabet characters,
/// joined by dashes.
pub open spec fn is_recovery_key(s: Seq<char>) -> bool {
    &&& s.len() == 19
    &&& forall|j: int|
        0 <= j < 19 ==> if j == 4 || j == 9 || j == 14 {
            s[j] == '-'
        } else {
            is_key_char_c(s[j])
        }
}

/// Draws one fresh recovery key.
pub fn make_recovery_key() -> (r: String)
    ensures
        is_recovery_key(r@),
{
    let kc = crate::types::KeyChars;
    let mut bytes: Vec<u8> = Vec::new();
    let mut j: usize = 0;
    while j < 19
        invariant
            j <= 19,
            bytes@.len() == j,
            forall|k: int| 0 <= k < j ==> bytes@[k] < 128,
            forall|k: int|
                0 <= k < j ==> if k == 4 || k == 9 || k == 14 {
                    bytes@[k] == 45
                } else {
                    crate::types::KeyChars::is_key_char(bytes@[k])
                },
        decreases 19 - j,
    {
        if j == 4 || j == 9 || j == 14 {
            bytes.push(45);
        } else {
            let draw = crate::trusted::random_u32();
            bytes.push(kc.sample(draw));
        }
        j += 1;
    }
    let s = crate::trusted::ascii_string(bytes);
    proof {
        assert forall|k: int| 0 <= k < 19 implies (if k == 4 || k == 9 || k == 14 {
            s@[k] == '-'
        } else {
            is_key_char_c(s@[k])
        }) by {
            assert(s@[k] == bytes@[k] as char);
        }
    }
    s
}

/// Draws the ten fresh recovery keys a newly activated user receives.
pub fn make_recovery_keys() -> (r: Vec<String>)
    ensures
        r@.len() == 10,
        forall|k: int| 0 <= k < 10 ==> is_recovery_key(r@[k]@),
{
    let mut keys: Vec<String> = Vec::new();
    let mut i: usize = 0;
    while i < 10
        invariant
            i <= 10,
            keys@.len() == i,
            forall|k: int| 0 <= k < i ==> is_recovery_key(keys@[k]@),
        decreases 10 - i,
    {
        keys.push(make_recovery_key());
        i += 1;
    }
    keys
}

/// How many rooms of `rooms` belong to the given game.
pub open spec fn count_rooms_of(rooms: Seq<Room>, game_id: u64) -> int
    decreases rooms.len(),
{
    if rooms.len() == 0 {
        0
    } else {
        count_rooms_of(rooms.drop_last(), game_id) + if rooms.last().game_id == game_id {
            1int
        } else {
            0int
        }
    }
}

} // verus!
