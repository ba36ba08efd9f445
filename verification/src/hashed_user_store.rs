//! A credential store that persists only salted hashes: the row-level
//! logic of a durably backed store, over in-process rows. Adding an
//! account hashes its password first; validation recomputes and compares
//! through the hashing module, never by equality.

use vstd::prelude::*;

use crate::data_stores::UserStore;
use crate::data_stores::UserStoreError;
use crate::password_hash::argon2_hash_parses;
use crate::password_hash::argon2_matches;
use crate::password_hash::check_user_row;
use crate::password_hash::row_check_outcome;
use crate::password_hash::Users;
use crate::user::password_valid;
use crate::user::Email;
use crate::user::Password;
use crate::user::User;

verus! {

/// The records a sequence of rows denotes: identity -> (stored hash,
/// second-factor flag); the earliest row for an identity wins.
closed spec fn rows_map(s: Seq<Users>) -> Map<Seq<char>, (Seq<char>, bool)>
    decreases s.len(),
{
    if s.len() == 0 {
        Map::empty()
    } else {
        rows_map(s.drop_first()).insert(s[0].email@, (s[0].password_hash@, s[0].requires_2fa))
    }
}

/// Appending a row only matters when its identity is not yet present.
proof fn lemma_rows_map_push(s: Seq<Users>, u: Users)
    ensures
        rows_map(s.push(u)) == if rows_map(s).contains_key(u.email@) {
            rows_map(s)
        } else {
            rows_map(s).insert(u.email@, (u.password_hash@, u.requires_2fa))
        },
    decreases s.len(),
{
    if s.len() == 0 {
        assert(s.push(u).drop_first() =~= s);
        assert(rows_map(s.push(u)) =~= rows_map(s).insert(
            u.email@,
            (u.password_hash@, u.requires_2fa),
        ));
    } else {
        lemma_rows_map_push(s.drop_first(), u);
        assert(s.push(u).drop_first() =~= s.drop_first().push(u));
        assert(s.push(u)[0] == s[0]);
        if rows_map(s.drop_first()).contains_key(u.email@) {
            assert(rows_map(s.push(u)) =~= rows_map(s));
        } else if s[0].email@ == u.email@ {
            assert(rows_map(s.push(u)) =~= rows_map(s));
        } else {
            assert(rows_map(s.push(u)) =~= rows_map(s).insert(
                u.email@,
                (u.password_hash@, u.requires_2fa),
            ));
        }
    }
}

/// Row-backed user store whose stored credential material is a salted
/// hash; its view is [`rows_map`] of the rows held.
pub struct HashedUserStore {
    rows: Vec<Users>,
}

impl HashedUserStore {
    pub fn new() -> (r: HashedUserStore)
        ensures
            r.accounts() == Map::<Seq<char>, (Seq<char>, bool)>::empty(),
    {
        HashedUserStore { rows: Vec::new() }
    }
}

impl Default for HashedUserStore {
    fn default() -> (r: HashedUserStore)
        ensures
            r.accounts() == Map::<Seq<char>, (Seq<char>, bool)>::empty(),
    {
        HashedUserStore::new()
    }
}

impl UserStore for HashedUserStore {
    closed spec fn accounts(&self) -> Map<Seq<char>, (Seq<char>, bool)> {
        rows_map(self.rows@)
    }

    /// This store accepts a candidate exactly when the stored hash parses
    /// and the hashing module's verification matches it.
    open spec fn validates(&self, email: Seq<char>, password: Seq<char>) -> bool {
        &&& self.accounts().contains_key(email)
        &&& argon2_hash_parses(self.accounts()[email].0)
        &&& argon2_matches(self.accounts()[email].0, password)
    }

    fn add_user(&mut self, user: User) -> (r: Result<(), UserStoreError>)
        ensures
            old(self).accounts().contains_key(user.email@) ==> r == Err::<(), UserStoreError>(
                UserStoreError::UserAlreadyExists,
            ),
            match r {
                Ok(()) => {
                    &&& !old(self).accounts().contains_key(user.email@)
                    &&& final(self).accounts().contains_key(user.email@)
                    &&& final(self).accounts()[user.email@].1 == user.requires_2fa
                    &&& final(self).validates(user.email@, user.password@)
                },
                Err(UserStoreError::UserAlreadyExists) => {
                    &&& old(self).accounts().contains_key(user.email@)
                    &&& *final(self) == *old(self)
                },
                Err(UserStoreError::UserNotFound) => false,
                Err(UserStoreError::InvalidCredentials) => false,
                Err(UserStoreError::UnexpectedError) => {
                    &&& !old(self).accounts().contains_key(user.email@)
                    &&& *final(self) == *old(self)
                },
            },
    {
        let ghost s = self.rows@;
        let ghost k = user.email@;
        let key = user.email.as_str().to_owned();
        let n = self.rows.len();
        let mut i: usize = 0;
        proof {
            assert(s.skip(0) =~= s);
        }
        while i < n
            invariant
                s == self.rows@,
                n == s.len(),
                0 <= i <= n,
                key@ == k,
                k == user.email@,
                rows_map(s).contains_key(k) == rows_map(s.skip(i as int)).contains_key(k),
            decreases n - i,
        {
            proof {
                assert(s.skip(i as int).drop_first() =~= s.skip(i as int + 1));
                assert(s.skip(i as int)[0] == s[i as int]);
            }
            if self.rows[i].email == key {
                return Err(UserStoreError::UserAlreadyExists);
            }
            i += 1;
        }
        proof {
            assert(s.skip(n as int) =~= Seq::<Users>::empty());
            assert(!rows_map(s).contains_key(k));
        }
        let row = match Users::from_user(&user) {
            Ok(row) => row,
            Err(e) => {
                return Err(e);
            },
        };
        proof {
            lemma_rows_map_push(s, row);
        }
        let ghost hash = row.password_hash@;
        let ghost fa = row.requires_2fa;
        self.rows.push(row);
        proof {
            assert(rows_map(self.rows@) == rows_map(s).insert(k, (hash, fa)));
            assert forall|e: Seq<char>, p: Seq<char>| e != k implies self.validates(e, p)
                == old(self).validates(e, p) by {
                assert(rows_map(self.rows@).contains_key(e) == rows_map(s).contains_key(e));
            }
        }
        Ok(())
    }

    fn get_user(&self, email: &Email) -> (r: Result<User, UserStoreError>)
        ensures
            match r {
                Ok(u) => {
                    &&& self.accounts().contains_key(email@)
                    &&& password_valid(self.accounts()[email@].0)
                    &&& u.email@ == email@
                    &&& u.password@ == self.accounts()[email@].0
                    &&& u.requires_2fa == self.accounts()[email@].1
                },
                Err(UserStoreError::UserNotFound) => !self.accounts().contains_key(email@),
                Err(UserStoreError::UserAlreadyExists) => false,
                Err(UserStoreError::InvalidCredentials) => false,
                Err(UserStoreError::UnexpectedError) => self.accounts().contains_key(email@)
                    && !password_valid(self.accounts()[email@].0),
            },
    {
        let ghost s = self.rows@;
        let ghost k = email@;
        let key = email.as_str().to_owned();
        let n = self.rows.len();
        let mut i: usize = 0;
        proof {
            assert(s.skip(0) =~= s);
        }
        while i < n
            invariant
                s == self.rows@,
                n == s.len(),
                0 <= i <= n,
                key@ == k,
                k == email@,
                rows_map(s).contains_key(k) == rows_map(s.skip(i as int)).contains_key(k),
                rows_map(s).contains_key(k) ==> rows_map(s)[k] == rows_map(s.skip(i as int))[k],
            decreases n - i,
        {
            proof {
                assert(s.skip(i as int).drop_first() =~= s.skip(i as int + 1));
                assert(s.skip(i as int)[0] == s[i as int]);
            }
            if self.rows[i].email == key {
                // The stored hash is handed back as the record's credential
                // material, as a durably backed store must: the raw password
                // is gone.
                let stored = match Password::parse(self.rows[i].password_hash.clone()) {
                    Ok(p) => p,
                    Err(_) => {
                        return Err(UserStoreError::UnexpectedError);
                    },
                };
                return Ok(
                    User {
                        email: email.duplicate(),
                        password: stored,
                        requires_2fa: self.rows[i].requires_2fa,
                    },
                );
            }
            i += 1;
        }
        proof {
            assert(s.skip(n as int) =~= Seq::<Users>::empty());
        }
        Err(UserStoreError::UserNotFound)
    }

    /// Reports exactly the spec-level outcome: `UserNotFound` for an
    /// absent identity, else [`row_check_outcome`] of the stored hash and
    /// the candidate — a hash that does not parse stays an operator-level
    /// failure, distinct from a credential rejection.
    fn validate_user(&self, email: &Email, password: &Password) -> (r: Result<
        (),
        UserStoreError,
    >)
        ensures
            r == (if !self.accounts().contains_key(email@) {
                Err::<(), UserStoreError>(UserStoreError::UserNotFound)
            } else {
                row_check_outcome(self.accounts()[email@].0, password@)
            }),
    {
        let ghost s = self.rows@;
        let ghost k = email@;
        let key = email.as_str().to_owned();
        let n = self.rows.len();
        let mut i: usize = 0;
        proof {
            assert(s.skip(0) =~= s);
        }
        while i < n
            invariant
                s == self.rows@,
                n == s.len(),
                0 <= i <= n,
                key@ == k,
                k == email@,
                rows_map(s).contains_key(k) == rows_map(s.skip(i as int)).contains_key(k),
                rows_map(s).contains_key(k) ==> rows_map(s)[k] == rows_map(s.skip(i as int))[k],
            decreases n - i,
        {
            proof {
                assert(s.skip(i as int).drop_first() =~= s.skip(i as int + 1));
                assert(s.skip(i as int)[0] == s[i as int]);
            }
            if self.rows[i].email == key {
                return check_user_row(&self.rows[i], password);
            }
            i += 1;
        }
        proof {
            assert(s.skip(n as int) =~= Seq::<Users>::empty());
        }
        Err(UserStoreError::UserNotFound)
    }
}

} // verus!
