//! In-memory second-factor challenge store: at most one pending
//! (attempt identifier, code) pair per identity; a later `add_code`
//! supersedes the pending pair, `remove_code` consumes it.

use vstd::prelude::*;

use crate::data_stores::LoginAttemptId;
use crate::data_stores::TwoFACode;
use crate::data_stores::TwoFACodeStore;
use crate::data_stores::TwoFACodeStoreError;
use crate::user::Email;

verus! {

struct TwoFAEntry {
    email: Email,
    id: LoginAttemptId,
    code: TwoFACode,
}

/// The challenges a sequence of entries denotes: identity ->
/// (attempt identifier, code); the earliest entry for an identity wins.
closed spec fn codes_map(s: Seq<TwoFAEntry>) -> Map<Seq<char>, (Seq<char>, Seq<char>)>
    decreases s.len(),
{
    if s.len() == 0 {
        Map::empty()
    } else {
        codes_map(s.drop_first()).insert(s[0].email@, (s[0].id@, s[0].code@))
    }
}

/// Appending an entry only matters when its identity is not yet present.
proof fn lemma_codes_map_push(s: Seq<TwoFAEntry>, e: TwoFAEntry)
    ensures
        codes_map(s.push(e)) == if codes_map(s).contains_key(e.email@) {
            codes_map(s)
        } else {
            codes_map(s).insert(e.email@, (e.id@, e.code@))
        },
    decreases s.len(),
{
    if s.len() == 0 {
        assert(s.push(e).drop_first() =~= s);
        assert(codes_map(s.push(e)) =~= codes_map(s).insert(e.email@, (e.id@, e.code@)));
    } else {
        lemma_codes_map_push(s.drop_first(), e);
        assert(s.push(e).drop_first() =~= s.drop_first().push(e));
        assert(s.push(e)[0] == s[0]);
        if codes_map(s.drop_first()).contains_key(e.email@) {
            assert(codes_map(s.push(e)) =~= codes_map(s));
        } else if s[0].email@ == e.email@ {
            assert(codes_map(s.push(e)) =~= codes_map(s));
        } else {
            assert(codes_map(s.push(e)) =~= codes_map(s).insert(e.email@, (e.id@, e.code@)));
        }
    }
}

/// Map-backed second-factor challenge store; its view is [`codes_map`]
/// of the entries held.
pub struct HashmapTwoFACodeStore {
    entries: Vec<TwoFAEntry>,
}

impl HashmapTwoFACodeStore {
    pub fn new() -> (r: HashmapTwoFACodeStore)
        ensures
            r.codes() == Map::<Seq<char>, (Seq<char>, Seq<char>)>::empty(),
    {
        HashmapTwoFACodeStore { entries: Vec::new() }
    }
}

impl Default for HashmapTwoFACodeStore {
    fn default() -> (r: HashmapTwoFACodeStore)
        ensures
            r.codes() == Map::<Seq<char>, (Seq<char>, Seq<char>)>::empty(),
    {
        HashmapTwoFACodeStore::new()
    }
}

impl TwoFACodeStore for HashmapTwoFACodeStore {
    closed spec fn codes(&self) -> Map<Seq<char>, (Seq<char>, Seq<char>)> {
        codes_map(self.entries@)
    }

    fn add_code(&mut self, email: Email, login_attempt_id: LoginAttemptId, code: TwoFACode) -> (r:
        Result<(), TwoFACodeStoreError>)
        ensures
            match r {
                Ok(()) => final(self).codes() == old(self).codes().insert(
                    email@,
                    (login_attempt_id@, code@),
                ),
                Err(TwoFACodeStoreError::LoginAttemptIdNotFound) => false,
                Err(TwoFACodeStoreError::UnexpectedError) => false,
            },
    {
        let ghost m0 = self.codes();
        let ghost k = email@;
        match self.remove_code(&email) {
            Ok(()) => {},
            Err(_) => {
                proof {
                    assert(false);
                }
                return Err(TwoFACodeStoreError::UnexpectedError);
            },
        }
        let ghost s1 = self.entries@;
        let entry = TwoFAEntry { email, id: login_attempt_id, code };
        let ghost idv = entry.id@;
        let ghost codev = entry.code@;
        proof {
            lemma_codes_map_push(s1, entry);
        }
        self.entries.push(entry);
        proof {
            assert(codes_map(self.entries@) =~= m0.insert(k, (idv, codev)));
        }
        Ok(())
    }

    fn remove_code(&mut self, email: &Email) -> (r: Result<(), TwoFACodeStoreError>)
        ensures
            match r {
                Ok(()) => final(self).codes() == old(self).codes().remove(email@),
                Err(TwoFACodeStoreError::LoginAttemptIdNotFound) => false,
                Err(TwoFACodeStoreError::UnexpectedError) => false,
            },
    {
        let ghost s0 = self.entries@;
        let ghost k = email@;
        let mut kept: Vec<TwoFAEntry> = Vec::new();
        let n = self.entries.len();
        let mut i: usize = 0;
        proof {
            assert(s0.take(0) =~= Seq::<TwoFAEntry>::empty());
            assert(codes_map(kept@) =~= codes_map(s0.take(0)).remove(k));
        }
        while i < n
            invariant
                0 <= i <= n,
                n == self.entries@.len(),
                self.entries@ == s0,
                k == email@,
                codes_map(kept@) == codes_map(s0.take(i as int)).remove(k),
            decreases n - i,
        {
            proof {
                assert(s0.take(i as int + 1) =~= s0.take(i as int).push(s0[i as int]));
            }
            let keep = !(self.entries[i].email == *email);
            if keep {
                let e = TwoFAEntry {
                    email: self.entries[i].email.duplicate(),
                    id: self.entries[i].id.duplicate(),
                    code: self.entries[i].code.duplicate(),
                };
                proof {
                    lemma_codes_map_push(kept@, e);
                    lemma_codes_map_push(s0.take(i as int), s0[i as int]);
                    assert(e.email@ == s0[i as int].email@);
                }
                kept.push(e);
                proof {
                    if codes_map(s0.take(i as int)).contains_key(s0[i as int].email@) {
                        assert(codes_map(kept@) =~= codes_map(s0.take(i as int + 1)).remove(k));
                    } else {
                        assert(codes_map(kept@) =~= codes_map(s0.take(i as int + 1)).remove(k));
                    }
                }
            } else {
                proof {
                    lemma_codes_map_push(s0.take(i as int), s0[i as int]);
                    assert(codes_map(kept@) =~= codes_map(s0.take(i as int + 1)).remove(k));
                }
            }
            i += 1;
        }
        proof {
            assert(s0.take(n as int) =~= s0);
        }
        self.entries = kept;
        Ok(())
    }

    fn get_code(&self, email: &Email) -> (r: Result<
        (LoginAttemptId, TwoFACode),
        TwoFACodeStoreError,
    >)
        ensures
            match r {
                Ok(pair) => {
                    &&& self.codes().contains_key(email@)
                    &&& self.codes()[email@] == (pair.0@, pair.1@)
                },
                Err(TwoFACodeStoreError::LoginAttemptIdNotFound) => !self.codes().contains_key(
                    email@,
                ),
                Err(TwoFACodeStoreError::UnexpectedError) => false,
            },
    {
        let ghost s = self.entries@;
        let ghost k = email@;
        let n = self.entries.len();
        let mut i: usize = 0;
        proof {
            assert(s.skip(0) =~= s);
        }
        while i < n
            invariant
                0 <= i <= n,
                n == s.len(),
                self.entries@ == s,
                k == email@,
                codes_map(s).contains_key(k) == codes_map(s.skip(i as int)).contains_key(k),
                codes_map(s).contains_key(k) ==> codes_map(s)[k] == codes_map(s.skip(i as int))[k],
            decreases n - i,
        {
            proof {
                assert(s.skip(i as int).drop_first() =~= s.skip(i as int + 1));
                assert(s.skip(i as int)[0] == s[i as int]);
            }
            if self.entries[i].email == *email {
                return Ok((self.entries[i].id.duplicate(), self.entries[i].code.duplicate()));
            }
            i += 1;
        }
        proof {
            assert(s.skip(n as int) =~= Seq::<TwoFAEntry>::empty());
        }
        Err(TwoFACodeStoreError::LoginAttemptIdNotFound)
    }
}

} // verus!
