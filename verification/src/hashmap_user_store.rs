//! In-memory credential store: account records held directly, candidate
//! passwords checked by equality against the stored credential.

use vstd::prelude::*;

use crate::data_stores::UserStore;
use crate::data_stores::UserStoreError;
use crate::user::Email;
use crate::user::Password;
use crate::user::User;

verus! {

/// The records a sequence of accounts denotes: identity ->
/// (stored credential, second-factor flag); the earliest record
/// for an identity wins.
pub closed spec fn users_map(s: Seq<User>) -> Map<Seq<char>, (Seq<char>, bool)>
    decreases s.len(),
{
    if s.len() == 0 {
        Map::empty()
    } else {
        users_map(s.drop_first()).insert(s[0].email@, (s[0].password@, s[0].requires_2fa))
    }
}

/// Appending a record only matters when its identity is not yet present.
proof fn lemma_users_map_push(s: Seq<User>, u: User)
    ensures
        users_map(s.push(u)) == if users_map(s).contains_key(u.email@) {
            users_map(s)
        } else {
            users_map(s).insert(u.email@, (u.password@, u.requires_2fa))
        },
    decreases s.len(),
{
    if s.len() == 0 {
        assert(s.push(u).drop_first() =~= s);
        assert(users_map(s.push(u)) =~= users_map(s).insert(
            u.email@,
            (u.password@, u.requires_2fa),
        ));
    } else {
        lemma_users_map_push(s.drop_first(), u);
        assert(s.push(u).drop_first() =~= s.drop_first().push(u));
        assert(s.push(u)[0] == s[0]);
        if users_map(s.drop_first()).contains_key(u.email@) {
            assert(users_map(s.push(u)) =~= users_map(s));
        } else if s[0].email@ == u.email@ {
            assert(users_map(s.push(u)) =~= users_map(s));
        } else {
            assert(users_map(s.push(u)) =~= users_map(s).insert(
                u.email@,
                (u.password@, u.requires_2fa),
            ));
        }
    }
}

/// Map-backed user store; its view is [`users_map`] of the records held.
pub struct HashmapUserStore {
    users: Vec<User>,
}

impl HashmapUserStore {
    pub fn new() -> (r: HashmapUserStore)
        ensures
            r.accounts() == Map::<Seq<char>, (Seq<char>, bool)>::empty(),
    {
        HashmapUserStore { users: Vec::new() }
    }
}

impl Default for HashmapUserStore {
    fn default() -> (r: HashmapUserStore)
        ensures
            r.accounts() == Map::<Seq<char>, (Seq<char>, bool)>::empty(),
    {
        HashmapUserStore::new()
    }
}

impl UserStore for HashmapUserStore {
    closed spec fn accounts(&self) -> Map<Seq<char>, (Seq<char>, bool)> {
        users_map(self.users@)
    }

    /// This store keeps the raw credential and accepts exactly the stored one.
    open spec fn validates(&self, email: Seq<char>, password: Seq<char>) -> bool {
        self.accounts().contains_key(email) && self.accounts()[email].0 == password
    }

    fn add_user(&mut self, user: User) -> (r: Result<(), UserStoreError>)
        ensures
            match r {
                Ok(()) => {
                    &&& !old(self).accounts().contains_key(user.email@)
                    &&& final(self).accounts() == old(self).accounts().insert(
                        user.email@,
                        (user.password@, user.requires_2fa),
                    )
                },
                Err(UserStoreError::UserAlreadyExists) => {
                    &&& old(self).accounts().contains_key(user.email@)
                    &&& *final(self) == *old(self)
                },
                Err(UserStoreError::UserNotFound) => false,
                Err(UserStoreError::InvalidCredentials) => false,
                Err(UserStoreError::UnexpectedError) => false,
            },
    {
        let ghost s = self.users@;
        let ghost k = user.email@;
        let n = self.users.len();
        let mut i: usize = 0;
        proof {
            assert(s.skip(0) =~= s);
        }
        while i < n
            invariant
                s == self.users@,
                n == s.len(),
                0 <= i <= n,
                users_map(s).contains_key(k) == users_map(s.skip(i as int)).contains_key(k),
                k == user.email@,
            decreases n - i,
        {
            proof {
                assert(s.skip(i as int).drop_first() =~= s.skip(i as int + 1));
                assert(s.skip(i as int)[0] == s[i as int]);
            }
            if self.users[i].email == user.email {
                return Err(UserStoreError::UserAlreadyExists);
            }
            i += 1;
        }
        let ghost pw = user.password@;
        let ghost fa = user.requires_2fa;
        proof {
            assert(s.skip(n as int) =~= Seq::<User>::empty());
            assert(!users_map(s).contains_key(k));
            lemma_users_map_push(s, user);
        }
        self.users.push(user);
        proof {
            assert(users_map(self.users@) == users_map(s).insert(k, (pw, fa)));
            assert(self.validates(k, pw));
            assert forall|e: Seq<char>, p: Seq<char>| e != k implies self.validates(e, p)
                == old(self).validates(e, p) by {
                assert(users_map(self.users@).contains_key(e) == users_map(s).contains_key(e));
            }
        }
        Ok(())
    }

    fn get_user(&self, email: &Email) -> (r: Result<User, UserStoreError>)
        ensures
            match r {
                Ok(u) => {
                    &&& self.accounts().contains_key(email@)
                    &&& u.email@ == email@
                    &&& u.password@ == self.accounts()[email@].0
                    &&& u.requires_2fa == self.accounts()[email@].1
                },
                Err(UserStoreError::UserNotFound) => !self.accounts().contains_key(email@),
                Err(UserStoreError::UserAlreadyExists) => false,
                Err(UserStoreError::InvalidCredentials) => false,
                Err(UserStoreError::UnexpectedError) => false,
            },
    {
        let ghost s = self.users@;
        let ghost k = email@;
        let n = self.users.len();
        let mut i: usize = 0;
        proof {
            assert(s.skip(0) =~= s);
        }
        while i < n
            invariant
                s == self.users@,
                n == s.len(),
                0 <= i <= n,
                k == email@,
                users_map(s).contains_key(k) == users_map(s.skip(i as int)).contains_key(k),
                users_map(s).contains_key(k) ==> users_map(s)[k] == users_map(s.skip(i as int))[k],
            decreases n - i,
        {
            proof {
                assert(s.skip(i as int).drop_first() =~= s.skip(i as int + 1));
                assert(s.skip(i as int)[0] == s[i as int]);
            }
            if self.users[i].email == *email {
                let u = self.users[i].duplicate();
                let found = User { email: email.duplicate(), password: u.password, requires_2fa: u.requires_2fa };
                return Ok(found);
            }
            i += 1;
        }
        proof {
            assert(s.skip(n as int) =~= Seq::<User>::empty());
        }
        Err(UserStoreError::UserNotFound)
    }

    fn validate_user(&self, email: &Email, password: &Password) -> (r: Result<
        (),
        UserStoreError,
    >)
        ensures
            match r {
                Ok(()) => self.accounts().contains_key(email@) && self.validates(
                    email@,
                    password@,
                ),
                Err(UserStoreError::UserNotFound) => !self.accounts().contains_key(email@),
                Err(UserStoreError::InvalidCredentials) => self.accounts().contains_key(email@)
                    && !self.validates(email@, password@),
                Err(UserStoreError::UserAlreadyExists) => false,
                Err(UserStoreError::UnexpectedError) => false,
            },
    {
        let ghost s = self.users@;
        let ghost k = email@;
        let n = self.users.len();
        let mut i: usize = 0;
        proof {
            assert(s.skip(0) =~= s);
        }
        while i < n
            invariant
                s == self.users@,
                n == s.len(),
                0 <= i <= n,
                k == email@,
                users_map(s).contains_key(k) == users_map(s.skip(i as int)).contains_key(k),
                users_map(s).contains_key(k) ==> users_map(s)[k] == users_map(s.skip(i as int))[k],
            decreases n - i,
        {
            proof {
                assert(s.skip(i as int).drop_first() =~= s.skip(i as int + 1));
                assert(s.skip(i as int)[0] == s[i as int]);
            }
            if self.users[i].email == *email {
                if self.users[i].password == *password {
                    return Ok(());
                } else {
                    return Err(UserStoreError::InvalidCredentials);
                }
            }
            i += 1;
        }
        proof {
            assert(s.skip(n as int) =~= Seq::<User>::empty());
        }
        Err(UserStoreError::UserNotFound)
    }
}

} // verus!
