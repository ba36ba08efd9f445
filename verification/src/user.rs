//! Identity and credential types: a validated email address, a
//! length-checked password, and the account record built from them.

use vstd::prelude::*;
use vstd::string::StrSliceExecFns;

use crate::error::AuthAPIError;

verus! {

/// A syntactically acceptable identity: non-empty, with a separator
/// distinguishing local part from domain.
pub open spec fn email_valid(s: Seq<char>) -> bool {
    &&& s.len() > 0
    &&& exists|i: int| 0 <= i < s.len() && s[i] == '@'
}

/// An acceptable raw password: at least eight characters.
pub open spec fn password_valid(s: Seq<char>) -> bool {
    s.len() >= 8
}

/// A validated identity, the primary key of every store.
///
/// Sensitive: exposed only through [`Email::as_str`], and deliberately
/// without a debug form that would print it.
#[derive(Hash)]
pub struct Email {
    inner: String,
}

impl View for Email {
    type V = Seq<char>;

    closed spec fn view(&self) -> Seq<char> {
        self.inner@
    }
}

impl Email {
    /// Accepts exactly the strings that satisfy [`email_valid`].
    pub fn parse(email: String) -> (r: Result<Email, AuthAPIError>)
        ensures
            r matches Ok(e) ==> email_valid(email@) && e@ == email@,
            r matches Err(err) ==> !email_valid(email@) && err == AuthAPIError::InvalidCredentials,
    {
        let n = email.as_str().unicode_len();
        let mut i: usize = 0;
        while i < n
            invariant
                n == email@.len(),
                0 <= i <= n,
                forall|j: int| 0 <= j < i ==> email@[j] != '@',
            decreases n - i,
        {
            if email.as_str().get_char(i) == '@' {
                return Ok(Email { inner: email });
            }
            i += 1;
        }
        Err(AuthAPIError::InvalidCredentials)
    }

    /// Controlled exposure of the identity.
    pub fn as_str(&self) -> (r: &str)
        ensures
            r@ == self@,
    {
        self.inner.as_str()
    }

    /// A fresh value equal to this one.
    pub fn duplicate(&self) -> (r: Email)
        ensures
            r@ == self@,
    {
        Email { inner: self.inner.clone() }
    }
}

impl PartialEq for Email {
    fn eq(&self, other: &Email) -> bool {
        self.inner == other.inner
    }
}

impl vstd::std_specs::cmp::PartialEqSpecImpl for Email {
    open spec fn obeys_eq_spec() -> bool {
        true
    }

    open spec fn eq_spec(&self, other: &Email) -> bool {
        self@ == other@
    }
}

/// A raw credential. It exists only transiently: stores persist a hash,
/// never this value, and nothing prints it.
pub struct Password {
    inner: String,
}

impl View for Password {
    type V = Seq<char>;

    closed spec fn view(&self) -> Seq<char> {
        self.inner@
    }
}

impl Password {
    /// Accepts exactly the strings that satisfy [`password_valid`].
    pub fn parse(s: String) -> (r: Result<Password, AuthAPIError>)
        ensures
            r matches Ok(p) ==> password_valid(s@) && p@ == s@,
            r matches Err(err) ==> !password_valid(s@) && err == AuthAPIError::InvalidCredentials,
    {
        if s.as_str().unicode_len() >= 8 {
            Ok(Password { inner: s })
        } else {
            Err(AuthAPIError::InvalidCredentials)
        }
    }

    /// Controlled exposure, for handing the secret to the hashing module.
    pub fn as_str(&self) -> (r: &str)
        ensures
            r@ == self@,
    {
        self.inner.as_str()
    }

    /// A fresh value equal to this one.
    pub fn duplicate(&self) -> (r: Password)
        ensures
            r@ == self@,
    {
        Password { inner: self.inner.clone() }
    }
}

impl PartialEq for Password {
    fn eq(&self, other: &Password) -> bool {
        self.inner == other.inner
    }
}

impl vstd::std_specs::cmp::PartialEqSpecImpl for Password {
    open spec fn obeys_eq_spec() -> bool {
        true
    }

    open spec fn eq_spec(&self, other: &Password) -> bool {
        self@ == other@
    }
}

/// An account record: created on signup, read on every login, never mutated.
pub struct User {
    pub email: Email,
    pub password: Password,
    pub requires_2fa: bool,
}

impl User {
    pub fn new(email: Email, password: Password, requires_2fa: bool) -> (r: User)
        ensures
            r.email@ == email@,
            r.password@ == password@,
            r.requires_2fa == requires_2fa,
    {
        User { email, password, requires_2fa }
    }

    /// A fresh record equal to this one.
    pub fn duplicate(&self) -> (r: User)
        ensures
            r.email@ == self.email@,
            r.password@ == self.password@,
            r.requires_2fa == self.requires_2fa,
    {
        User {
            email: self.email.duplicate(),
            password: self.password.duplicate(),
            requires_2fa: self.requires_2fa,
        }
    }
}

impl PartialEq for User {
    fn eq(&self, other: &User) -> bool {
        self.email == other.email && self.password == other.password && self.requires_2fa
            == other.requires_2fa
    }
}

impl vstd::std_specs::cmp::PartialEqSpecImpl for User {
    open spec fn obeys_eq_spec() -> bool {
        true
    }

    open spec fn eq_spec(&self, other: &User) -> bool {
        self.email@ == other.email@ && self.password@ == other.password@ && self.requires_2fa
            == other.requires_2fa
    }
}

} // verus!
