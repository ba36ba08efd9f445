//! In-memory revocation store: the set of banned token strings.

use vstd::prelude::*;
use vstd::assert_sets_equal;

use crate::data_stores::BannedTokenStore;
use crate::data_stores::BannedTokenStoreError;

verus! {

/// Set-backed banned token store; its view is the set of token texts held.
pub struct HashsetBannedTokenStore {
    tokens: Vec<String>,
}

impl HashsetBannedTokenStore {
    pub closed spec fn spec_tokens(&self) -> Set<Seq<char>> {
        Set::new(|t: Seq<char>| exists|i: int| 0 <= i < self.tokens@.len() && self.tokens@[i]@ == t)
    }

    pub fn new() -> (r: HashsetBannedTokenStore)
        ensures
            r.spec_tokens() == Set::<Seq<char>>::empty(),
    {
        let r = HashsetBannedTokenStore { tokens: Vec::new() };
        proof {
            assert_sets_equal!(r.spec_tokens() == Set::<Seq<char>>::empty(), t => {
                assert(r.tokens@.len() == 0);
            });
        }
        r
    }
}

impl Default for HashsetBannedTokenStore {
    fn default() -> (r: HashsetBannedTokenStore)
        ensures
            r.spec_tokens() == Set::<Seq<char>>::empty(),
    {
        HashsetBannedTokenStore::new()
    }
}

impl BannedTokenStore for HashsetBannedTokenStore {
    closed spec fn tokens(&self) -> Set<Seq<char>> {
        self.spec_tokens()
    }

    fn add_token(&mut self, token: String) -> (r: Result<(), BannedTokenStoreError>)
        ensures
            match r {
                Ok(()) => final(self).tokens() == old(self).tokens().insert(token@),
                Err(BannedTokenStoreError::UnexpectedError) => false,
            },
    {
        let ghost tok = token@;
        let ghost olds = self.tokens@;
        self.tokens.push(token);
        proof {
            assert_sets_equal!(self.spec_tokens() == old(self).spec_tokens().insert(tok), t => {
                if self.spec_tokens().contains(t) {
                    let i = choose|i: int| 0 <= i < self.tokens@.len() && self.tokens@[i]@ == t;
                    if i < olds.len() {
                        assert(olds[i]@ == t);
                    } else {
                        assert(t == tok);
                    }
                }
                if old(self).spec_tokens().insert(tok).contains(t) {
                    if t == tok {
                        assert(self.tokens@[olds.len() as int]@ == t);
                    } else {
                        let i = choose|i: int| 0 <= i < olds.len() && olds[i]@ == t;
                        assert(self.tokens@[i]@ == t);
                    }
                }
            });
        }
        Ok(())
    }

    fn contains_token(&self, token: &String) -> (r: Result<bool, BannedTokenStoreError>)
        ensures
            match r {
                Ok(b) => b == self.tokens().contains(token@),
                Err(BannedTokenStoreError::UnexpectedError) => false,
            },
    {
        let n = self.tokens.len();
        let mut i: usize = 0;
        while i < n
            invariant
                n == self.tokens@.len(),
                0 <= i <= n,
                forall|j: int| 0 <= j < i ==> self.tokens@[j]@ != token@,
            decreases n - i,
        {
            if self.tokens[i] == *token {
                return Ok(true);
            }
            i += 1;
        }
        Ok(false)
    }
}

} // verus!
