//! The challenge ledger: the single in-flight hardware-authenticator
//! challenge each user may hold.  Issuing overwrites whatever was live;
//! consuming clears the slot and yields the protocol state exactly once.

use vstd::prelude::*;
use crate::error::Error;
use crate::types::{Challenge, ChallengeKind, User};
use crate::store::Store;

verus! {

/// What consuming a challenge of the given kind yields for a user record:
/// the stored protocol state when a live challenge of that kind exists,
/// and `ChallengeNotFound` otherwise.
pub open spec fn consume_outcome(u: User, kind: ChallengeKind) -> Result<Seq<u8>, Error> {
    match u.challenge {
        Some(c) => if c.kind == kind {
            Ok(c.state@)
        } else {
            Err(Error::ChallengeNotFound)
        },
        None => Err(Error::ChallengeNotFound),
    }
}

/// The user record after a consumption attempt: the slot is empty when the
/// attempt yielded the state, and untouched otherwise.
pub open spec fn consumed_user(u: User, kind: ChallengeKind) -> User {
    if consume_outcome(u, kind) is Ok {
        User { challenge: None, ..u }
    } else {
        u
    }
}

/// Law: challenge consumption is exactly-once.  Once an attempt has
/// yielded the challenge — whatever the verification made of it afterwards
/// — every further attempt, of either kind, fails with `ChallengeNotFound`.
pub proof fn lemma_challenge_consumed_exactly_once(u: User, kind: ChallengeKind, again: ChallengeKind)
    requires
        consume_outcome(u, kind) is Ok,
    ensures
        consume_outcome(consumed_user(u, kind), again) == Err::<Seq<u8>, Error>(
            Error::ChallengeNotFound,
        ),
{
}

impl Store {
    /// Issues a challenge for the user: writes the slot, overwriting any
    /// prior live challenge, so no two challenges are ever live at once.
    /// Only an activated user can hold one.
    pub fn issue_challenge(
        &mut self,
        username: &str,
        kind: ChallengeKind,
        state: Vec<u8>,
        now: i64,
    ) -> (r: Result<(), Error>)
        requires
            old(self).wf(),
        ensures
            final(self).wf(),
            final(self).rooms == old(self).rooms,
            final(self).riddles == old(self).riddles,
            !old(self).has_user(username@) ==> r == Err::<(), Error>(Error::UserNotFound)
                && *final(self) == *old(self),
            old(self).has_user(username@) && !old(self).user_named(username@).activated ==> r
                == Err::<(), Error>(Error::NotActivated) && *final(self) == *old(self),
            old(self).has_user(username@) && old(self).user_named(username@).activated ==> r is Ok
                && final(self).users@ == old(self).users@.update(
                old(self).user_ix(username@),
                User {
                    challenge: Some(Challenge { kind, state, created: now }),
                    ..old(self).user_named(username@)
                },
            ),
    {
        let ui = match self.find_user(username) {
            None => {
                return Err(Error::UserNotFound);
            },
            Some(i) => i,
        };
        if !self.users[ui].activated {
            return Err(Error::NotActivated);
        }
        let mut u = self.users.remove(ui);
        u.challenge = Some(Challenge { kind, state, created: now });
        self.users.insert(ui, u);
        proof {
            assert(final(self).users@ =~= old(self).users@.update(
                old(self).user_ix(username@),
                User {
                    challenge: Some(Challenge { kind, state, created: now }),
                    ..old(self).user_named(username@)
                },
            ));
        }
        Ok(())
    }

    /// Consumes the user's live challenge of the given kind: clears the
    /// slot and yields the stored protocol state.  Fails with
    /// `ChallengeNotFound` when no challenge is live or the kind does not
    /// match, leaving the record untouched — so a replayed response can
    /// never be verified against a stale state.
    pub fn consume_challenge(&mut self, username: &str, kind: ChallengeKind) -> (r: Result<
        Vec<u8>,
        Error,
    >)
        requires
            old(self).wf(),
        ensures
            final(self).wf(),
            final(self).rooms == old(self).rooms,
            final(self).riddles == old(self).riddles,
            !old(self).has_user(username@) ==> r == Err::<Vec<u8>, Error>(Error::UserNotFound)
                && *final(self) == *old(self),
            old(self).has_user(username@) ==> {
                let u0 = old(self).user_named(username@);
                &&& r is Ok <==> consume_outcome(u0, kind) is Ok
                &&& r matches Ok(state) ==> Ok::<Seq<u8>, Error>(state@) == consume_outcome(
                    u0,
                    kind,
                ) && final(self).users@ == old(self).users@.update(
                    old(self).user_ix(username@),
                    consumed_user(u0, kind),
                )
                &&& r is Err ==> r == Err::<Vec<u8>, Error>(Error::ChallengeNotFound) && *final(self) == *old(self)
            },
    {
        let ui = match self.find_user(username) {
            None => {
                return Err(Error::UserNotFound);
            },
            Some(i) => i,
        };
        let kind_matches = match &self.users[ui].challenge {
            Some(c) => c.kind == kind,
            None => false,
        };
        if !kind_matches {
            return Err(Error::ChallengeNotFound);
        }
        let mut u = self.users.remove(ui);
        let slot = u.challenge;
        u.challenge = None;
        self.users.insert(ui, u);
        match slot {
            Some(c) => {
                proof {
                    assert(final(self).users@ =~= old(self).users@.update(
                        old(self).user_ix(username@),
                        consumed_user(old(self).user_named(username@), kind),
                    ));
                }
                Ok(c.state)
            },
            None => {
                // unreachable: the kind check above saw a live challenge
                proof {
                    assert(false);
                }
                Err(Error::ChallengeNotFound)
            },
        }
    }
}

} // verus!
