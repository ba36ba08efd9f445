//! Store interfaces for accounts, revoked tokens and pending second-factor
//! challenges, together with the challenge types themselves: the login
//! attempt identifier and the six-digit code.

use vstd::prelude::*;
use vstd::string::StrSliceExecFns;
use vstd::string::StringExecFns;

use crate::error::AuthAPIError;
use crate::user::User;
use crate::user::Email;
use crate::user::Password;

verus! {

#[derive(Clone, Copy, Debug, PartialEq, Eq, Structural)]
pub enum UserStoreError {
    UserAlreadyExists,
    UserNotFound,
    InvalidCredentials,
    UnexpectedError,
}

#[derive(Clone, Copy, Debug, PartialEq, Eq, Structural)]
pub enum BannedTokenStoreError {
    UnexpectedError,
}

#[derive(Clone, Copy, Debug, PartialEq, Eq, Structural)]
pub enum TwoFACodeStoreError {
    LoginAttemptIdNotFound,
    UnexpectedError,
}

/// Durable mapping of identity to stored credential material and the
/// second-factor requirement flag.
///
/// `accounts()` views the store as identity -> (credential material, flag);
/// what the credential material is (a raw password, a salted hash) is the
/// implementation's business, and `validates()` says which candidate
/// passwords it accepts. `UnexpectedError` is reserved for underlying
/// store failures and may be reported by any operation.
pub trait UserStore {
    spec fn accounts(&self) -> Map<Seq<char>, (Seq<char>, bool)>;

    spec fn validates(&self, email: Seq<char>, password: Seq<char>) -> bool;

    fn add_user(&mut self, user: User) -> (r: Result<(), UserStoreError>)
        ensures
            match r {
                Ok(()) => {
                    &&& !old(self).accounts().contains_key(user.email@)
                    &&& final(self).accounts().contains_key(user.email@)
                    &&& final(self).accounts()[user.email@].1 == user.requires_2fa
                    &&& forall|e: Seq<char>|
                        e != user.email@ ==> #[trigger] final(self).accounts().contains_key(e)
                            == old(self).accounts().contains_key(e)
                    &&& forall|e: Seq<char>|
                        e != user.email@ && old(self).accounts().contains_key(e)
                            ==> #[trigger] final(self).accounts()[e] == old(self).accounts()[e]
                    &&& final(self).validates(user.email@, user.password@)
                    &&& forall|e: Seq<char>, p: Seq<char>|
                        e != user.email@ ==> final(self).validates(e, p) == old(self).validates(
                            e,
                            p,
                        )
                },
                Err(UserStoreError::UserAlreadyExists) => {
                    &&& old(self).accounts().contains_key(user.email@)
                    &&& final(self).accounts() == old(self).accounts()
                },
                Err(UserStoreError::UserNotFound) => false,
                Err(UserStoreError::InvalidCredentials) => false,
                Err(UserStoreError::UnexpectedError) => true,
            },
    ;

    fn get_user(&self, email: &Email) -> (r: Result<User, UserStoreError>)
        ensures
            match r {
                Ok(u) => {
                    &&& self.accounts().contains_key(email@)
                    &&& u.email@ == email@
                    &&& u.password@ == self.accounts()[email@].0
                    &&& u.requires_2fa == self.accounts()[email@].1
                },
                Err(UserStoreError::UserNotFound) => !self.accounts().contains_key(email@),
                Err(UserStoreError::UserAlreadyExists) => false,
                Err(UserStoreError::InvalidCredentials) => false,
                Err(UserStoreError::UnexpectedError) => true,
            },
    ;

    fn validate_user(&self, email: &Email, password: &Password) -> (r: Result<
        (),
        UserStoreError,
    >)
        ensures
            match r {
                Ok(()) => self.accounts().contains_key(email@) && self.validates(
                    email@,
                    password@,
                ),
                Err(UserStoreError::UserNotFound) => !self.accounts().contains_key(email@),
                Err(UserStoreError::InvalidCredentials) => self.accounts().contains_key(email@)
                    && !self.validates(email@, password@),
                Err(UserStoreError::UserAlreadyExists) => false,
                Err(UserStoreError::UnexpectedError) => true,
            },
    ;
}

/// The revocation set: token strings banned until their natural expiry.
pub trait BannedTokenStore {
    spec fn tokens(&self) -> Set<Seq<char>>;

    fn add_token(&mut self, token: String) -> (r: Result<(), BannedTokenStoreError>)
        ensures
            match r {
                Ok(()) => final(self).tokens() == old(self).tokens().insert(token@),
                Err(BannedTokenStoreError::UnexpectedError) => true,
            },
    ;

    fn contains_token(&self, token: &String) -> (r: Result<bool, BannedTokenStoreError>)
        ensures
            match r {
                Ok(b) => b == self.tokens().contains(token@),
                Err(BannedTokenStoreError::UnexpectedError) => true,
            },
    ;
}

/// Pending second-factor challenges: at most one per identity, keyed by it.
///
/// `codes()` views the store as identity -> (attempt identifier, code).
pub trait TwoFACodeStore {
    spec fn codes(&self) -> Map<Seq<char>, (Seq<char>, Seq<char>)>;

    fn add_code(&mut self, email: Email, login_attempt_id: LoginAttemptId, code: TwoFACode) -> (r:
        Result<(), TwoFACodeStoreError>)
        ensures
            match r {
                Ok(()) => final(self).codes() == old(self).codes().insert(
                    email@,
                    (login_attempt_id@, code@),
                ),
                Err(TwoFACodeStoreError::LoginAttemptIdNotFound) => false,
                Err(TwoFACodeStoreError::UnexpectedError) => true,
            },
    ;

    fn remove_code(&mut self, email: &Email) -> (r: Result<(), TwoFACodeStoreError>)
        ensures
            match r {
                Ok(()) => final(self).codes() == old(self).codes().remove(email@),
                Err(TwoFACodeStoreError::LoginAttemptIdNotFound) => false,
                Err(TwoFACodeStoreError::UnexpectedError) => true,
            },
    ;

    fn get_code(&self, email: &Email) -> (r: Result<
        (LoginAttemptId, TwoFACode),
        TwoFACodeStoreError,
    >)
        ensures
            match r {
                Ok(pair) => {
                    &&& self.codes().contains_key(email@)
                    &&& self.codes()[email@] == (pair.0@, pair.1@)
                },
                Err(TwoFACodeStoreError::LoginAttemptIdNotFound) => !self.codes().contains_key(
                    email@,
                ),
                Err(TwoFACodeStoreError::UnexpectedError) => true,
            },
    ;
}

/// The key under which an identity's pending challenge is filed in an
/// external key-value backing.
pub fn get_key(email: &Email) -> (r: String)
    ensures
        r@ == "two_fa_code:"@ + email@,
{
    let mut s = "two_fa_code:".to_owned();
    s.append(email.as_str());
    s
}

/// What the identifier parser computes: `Some` with the canonical
/// hyphenated text when the input is an acceptable textual UUID,
/// `None` otherwise.
pub uninterp spec fn uuid_canon(s: Seq<char>) -> Option<Seq<char>>;

/// Relies on uuid::Uuid::parse_str and uuid::Uuid::to_string: parsing accepts
/// the textual UUID formats and rendering yields the canonical hyphenated
/// form, which parses back to itself unchanged.
#[verifier::external_body]
fn uuid_normalize(s: &String) -> (r: Option<String>)
    ensures
        r matches Some(t) ==> uuid_canon(s@) == Some(t@) && uuid_canon(t@) == Some(t@),
        r is None ==> uuid_canon(s@) is None,
{
    match uuid::Uuid::parse_str(s.as_str()) {
        Ok(u) => Some(u.to_string()),
        Err(_) => None,
    }
}

/// Relies on uuid::Uuid::new_v4 and uuid::Uuid::to_string: a randomly
/// generated identifier rendered canonically, which parses back to itself.
/// The value is unpredictable, so nothing more is promised of it.
#[verifier::external_body]
fn fresh_uuid_string() -> (r: String)
    ensures
        uuid_canon(r@) == Some(r@),
{
    uuid::Uuid::new_v4().to_string()
}

/// Correlation token binding a pending second-factor challenge to one login
/// request. Held in canonical textual form; unpredictable when generated.
pub struct LoginAttemptId {
    inner: String,
}

impl View for LoginAttemptId {
    type V = Seq<char>;

    closed spec fn view(&self) -> Seq<char> {
        self.inner@
    }
}

impl LoginAttemptId {
    /// Canonical form: the identifier parses to itself.
    pub open spec fn wf(&self) -> bool {
        uuid_canon(self@) == Some(self@)
    }

    /// Accepts exactly the strings the UUID parser accepts, normalized
    /// to canonical form.
    pub fn parse(id: String) -> (r: Result<LoginAttemptId, AuthAPIError>)
        ensures
            r matches Ok(x) ==> uuid_canon(id@) == Some(x@) && x.wf(),
            r matches Err(e) ==> uuid_canon(id@) is None && e == AuthAPIError::InvalidCredentials,
    {
        match uuid_normalize(&id) {
            Some(t) => Ok(LoginAttemptId { inner: t }),
            None => Err(AuthAPIError::InvalidCredentials),
        }
    }

    pub fn as_str(&self) -> (r: &str)
        ensures
            r@ == self@,
    {
        self.inner.as_str()
    }

    /// A fresh value equal to this one.
    pub fn duplicate(&self) -> (r: LoginAttemptId)
        ensures
            r@ == self@,
    {
        LoginAttemptId { inner: self.inner.clone() }
    }
}

impl Default for LoginAttemptId {
    /// A freshly generated, unpredictable identifier.
    fn default() -> (r: LoginAttemptId)
        ensures
            r.wf(),
    {
        LoginAttemptId { inner: fresh_uuid_string() }
    }
}

impl PartialEq for LoginAttemptId {
    fn eq(&self, other: &LoginAttemptId) -> bool {
        self.inner == other.inner
    }
}

impl vstd::std_specs::cmp::PartialEqSpecImpl for LoginAttemptId {
    open spec fn obeys_eq_spec() -> bool {
        true
    }

    open spec fn eq_spec(&self, other: &LoginAttemptId) -> bool {
        self@ == other@
    }
}

/// A decimal digit, as a character.
pub open spec fn is_code_digit(c: char) -> bool {
    48 <= c as u32 <= 57
}

/// The numeric value of a decimal digit character.
pub open spec fn digit_value(c: char) -> int {
    c as u32 - 48
}

/// The number a string of decimal digits denotes.
pub open spec fn code_value(s: Seq<char>) -> int
    decreases s.len(),
{
    if s.len() == 0 {
        0
    } else {
        code_value(s.drop_last()) * 10 + digit_value(s.last())
    }
}

pub open spec fn pow10(n: nat) -> int
    decreases n,
{
    if n == 0 {
        1
    } else {
        10 * pow10((n - 1) as nat)
    }
}

/// An acceptable second-factor code: exactly six decimal digits, in the
/// range 100000 to 999999 inclusive.
pub open spec fn two_fa_code_valid(s: Seq<char>) -> bool {
    &&& s.len() == 6
    &&& forall|i: int| 0 <= i < s.len() ==> is_code_digit(s[i])
    &&& 100000 <= code_value(s) <= 999999
}

/// Relies on rand::Rng::gen_range: a value drawn uniformly from the given
/// non-empty range. Unpredictable, so only the range is promised.
#[verifier::external_body]
fn random_code_value() -> (r: u32)
    ensures
        100000 <= r <= 999999,
{
    rand::Rng::gen_range(&mut rand::thread_rng(), 100000..=999999)
}

/// A six-digit second-factor challenge code. Sensitive: exposed only
/// through [`TwoFACode::as_str`], never printed.
pub struct TwoFACode {
    inner: String,
}

impl View for TwoFACode {
    type V = Seq<char>;

    closed spec fn view(&self) -> Seq<char> {
        self.inner@
    }
}

/// The single-character text of one decimal digit.
fn digit_text(d: u32) -> (r: &'static str)
    requires
        d <= 9,
    ensures
        r@.len() == 1,
        is_code_digit(r@[0]),
        digit_value(r@[0]) == d,
{
    let s: &'static str = match d {
        0 => "0",
        1 => "1",
        2 => "2",
        3 => "3",
        4 => "4",
        5 => "5",
        6 => "6",
        7 => "7",
        8 => "8",
        _ => "9",
    };
    proof {
        reveal_strlit("0");
        reveal_strlit("1");
        reveal_strlit("2");
        reveal_strlit("3");
        reveal_strlit("4");
        reveal_strlit("5");
        reveal_strlit("6");
        reveal_strlit("7");
        reveal_strlit("8");
        reveal_strlit("9");
    }
    s
}

impl TwoFACode {
    pub open spec fn wf(&self) -> bool {
        two_fa_code_valid(self@)
    }

    /// Accepts exactly the strings that satisfy [`two_fa_code_valid`].
    pub fn parse(code: String) -> (r: Result<TwoFACode, AuthAPIError>)
        ensures
            r matches Ok(c) ==> two_fa_code_valid(code@) && c@ == code@,
            r matches Err(e) ==> !two_fa_code_valid(code@) && e
                == AuthAPIError::InvalidCredentials,
    {
        let n = code.as_str().unicode_len();
        if n != 6 {
            return Err(AuthAPIError::InvalidCredentials);
        }
        let mut value: u32 = 0;
        let mut i: usize = 0;
        while i < 6
            invariant
                code@.len() == 6,
                0 <= i <= 6,
                forall|j: int| 0 <= j < i ==> is_code_digit(code@[j]),
                value == code_value(code@.take(i as int)),
                value < pow10(i as nat),
            decreases 6 - i,
        {
            let c = code.as_str().get_char(i);
            let d = c as u32;
            if d < 48 || d > 57 {
                return Err(AuthAPIError::InvalidCredentials);
            }
            proof {
                reveal_with_fuel(pow10, 8);
                assert(code@.take(i + 1).drop_last() =~= code@.take(i as int));
                assert(code@.take(i + 1).last() == code@[i as int]);
            }
            value = value * 10 + (d - 48);
            i += 1;
        }
        proof {
            reveal_with_fuel(pow10, 8);
            assert(code@.take(6) =~= code@);
        }
        if value >= 100000 {
            Ok(TwoFACode { inner: code })
        } else {
            Err(AuthAPIError::InvalidCredentials)
        }
    }

    /// Builds the six-digit text denoting a value in range.
    pub fn from_value(v: u32) -> (r: TwoFACode)
        requires
            100000 <= v <= 999999,
        ensures
            r.wf(),
            code_value(r@) == v,
    {
        let d5 = v / 100000;
        let r5 = v % 100000;
        let d4 = r5 / 10000;
        let r4 = r5 % 10000;
        let d3 = r4 / 1000;
        let r3 = r4 % 1000;
        let d2 = r3 / 100;
        let r2 = r3 % 100;
        let d1 = r2 / 10;
        let d0 = r2 % 10;
        let mut s = String::new();
        let ghost v0 = s@;
        let t5 = digit_text(d5);
        s.append(t5);
        proof {
            assert(s@.drop_last() =~= v0);
            assert(s@.last() == t5@[0]);
            assert(code_value(v0) == 0);
            assert(code_value(s@) == d5);
        }
        let ghost v1 = s@;
        let t4 = digit_text(d4);
        s.append(t4);
        proof {
            assert(s@.drop_last() =~= v1);
            assert(s@.last() == t4@[0]);
            assert(code_value(s@) == d5 * 10 + d4);
        }
        let ghost v2 = s@;
        let t3 = digit_text(d3);
        s.append(t3);
        proof {
            assert(s@.drop_last() =~= v2);
            assert(s@.last() == t3@[0]);
            assert(code_value(s@) == (d5 * 10 + d4) * 10 + d3);
        }
        let ghost v3 = s@;
        let t2 = digit_text(d2);
        s.append(t2);
        proof {
            assert(s@.drop_last() =~= v3);
            assert(s@.last() == t2@[0]);
            assert(code_value(s@) == ((d5 * 10 + d4) * 10 + d3) * 10 + d2);
        }
        let ghost v4 = s@;
        let t1 = digit_text(d1);
        s.append(t1);
        proof {
            assert(s@.drop_last() =~= v4);
            assert(s@.last() == t1@[0]);
            assert(code_value(s@) == (((d5 * 10 + d4) * 10 + d3) * 10 + d2) * 10 + d1);
        }
        let ghost v5 = s@;
        let t0 = digit_text(d0);
        s.append(t0);
        proof {
            assert(s@.drop_last() =~= v5);
            assert(s@.last() == t0@[0]);
            assert(code_value(s@) == ((((d5 * 10 + d4) * 10 + d3) * 10 + d2) * 10 + d1) * 10 + d0);
            assert(v == ((((d5 * 10 + d4) * 10 + d3) * 10 + d2) * 10 + d1) * 10 + d0);
        }
        TwoFACode { inner: s }
    }

    pub fn as_str(&self) -> (r: &str)
        ensures
            r@ == self@,
    {
        self.inner.as_str()
    }

    /// A fresh value equal to this one.
    pub fn duplicate(&self) -> (r: TwoFACode)
        ensures
            r@ == self@,
    {
        TwoFACode { inner: self.inner.clone() }
    }
}

impl Default for TwoFACode {
    /// A freshly generated code, uniform over the acceptable range.
    fn default() -> (r: TwoFACode)
        ensures
            r.wf(),
    {
        TwoFACode::from_value(random_code_value())
    }
}

impl PartialEq for TwoFACode {
    fn eq(&self, other: &TwoFACode) -> bool {
        self.inner == other.inner
    }
}

impl vstd::std_specs::cmp::PartialEqSpecImpl for TwoFACode {
    open spec fn obeys_eq_spec() -> bool {
        true
    }

    open spec fn eq_spec(&self, other: &TwoFACode) -> bool {
        self@ == other@
    }
}

} // verus!
