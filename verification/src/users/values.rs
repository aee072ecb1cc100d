//! Values that are checked once, when they are made, and carried as proof of
//! that check afterwards.

use vstd::prelude::*;
use vstd::std_specs::convert::TryFromSpecImpl;

use crate::error::AppError;

verus! {

pub const MAX_USERNAME_LENGTH: usize = 30;

pub const MIN_PASSWORD_LENGTH: usize = 6;

pub const MAX_PASSWORD_LENGTH: usize = 20;

/// The length of a text in bytes, as it is stored and sent.
pub open spec fn byte_len(text: Seq<char>) -> nat {
    vstd::utf8::encode_utf8(text).len()
}

/// A username is between 1 and 30 bytes long.
pub open spec fn username_ok(text: Seq<char>) -> bool {
    1 <= byte_len(text) <= MAX_USERNAME_LENGTH
}

/// A password is between 6 and 20 bytes long.
pub open spec fn password_ok(text: Seq<char>) -> bool {
    MIN_PASSWORD_LENGTH <= byte_len(text) <= MAX_PASSWORD_LENGTH
}

/// What `validator::validate_email` answers for a text.
pub uninterp spec fn email_syntax_ok(text: Seq<char>) -> bool;

/// Calls `validator::validate_email`, the syntax check of the HTML5
/// definition of an e-mail address. The answer depends on the text alone.
#[verifier::external_body]
fn validate_email_syntax(text: &str) -> (ok: bool)
    ensures
        ok == email_syntax_ok(text@),
{
    validator::validate_email(text)
}

/// Counts the bytes of a text.
fn byte_length(text: &str) -> (n: usize)
    ensures
        n == byte_len(text@),
{
    text.as_bytes().len()
}

/// What checking a username answers.
pub open spec fn checked_username(text: Seq<char>) -> Result<Seq<char>, AppError> {
    if text.len() == 0 {
        Err(AppError::UsernameIsEmpty)
    } else if byte_len(text) > MAX_USERNAME_LENGTH {
        Err(AppError::UsernameTooLong)
    } else {
        Ok(text)
    }
}

/// What checking an e-mail address answers.
pub open spec fn checked_email(text: Seq<char>) -> Result<Seq<char>, AppError> {
    if email_syntax_ok(text) {
        Ok(text)
    } else {
        Err(AppError::InvalidEmail)
    }
}

/// What checking a password answers.
pub open spec fn checked_password(text: Seq<char>) -> Result<Seq<char>, AppError> {
    if byte_len(text) < MIN_PASSWORD_LENGTH {
        Err(AppError::PasswordTooShort)
    } else if byte_len(text) > MAX_PASSWORD_LENGTH {
        Err(AppError::PasswordTooLong)
    } else {
        Ok(text)
    }
}

/// A text of no characters has no bytes, and the other way round.
pub proof fn lemma_empty_text(text: Seq<char>)
    ensures
        text.len() == 0 <==> byte_len(text) == 0,
{
    if text.len() > 0 {
        assert(vstd::utf8::encode_scalar(text[0] as u32).len() >= 1);
    }
}

/// A name of 1 to 30 bytes.
#[derive(Debug)]
pub struct Username(String);

impl View for Username {
    type V = Seq<char>;

    closed spec fn view(&self) -> Seq<char> {
        self.0@
    }
}

impl Clone for Username {
    fn clone(&self) -> (r: Username)
        ensures
            r@ == self@,
    {
        proof {
            use_type_invariant(self);
        }
        Username(self.0.clone())
    }
}

impl Username {
    #[verifier::type_invariant]
    spec fn inv(self) -> bool {
        username_ok(self.0@)
    }

    /// Checks a text and keeps it as a username: `UsernameIsEmpty` for the
    /// empty text, `UsernameTooLong` above 30 bytes.
    pub fn parse(value: String) -> (r: Result<Username, AppError>)
        ensures
            match (r, checked_username(value@)) {
                (Ok(name), Ok(text)) => name@ == text,
                (Err(e), Err(expected)) => e == expected,
                _ => false,
            },
    {
        proof {
            lemma_empty_text(value@);
        }
        if value.as_str().is_empty() {
            return Err(AppError::UsernameIsEmpty);
        }
        if byte_length(value.as_str()) > MAX_USERNAME_LENGTH {
            return Err(AppError::UsernameTooLong);
        }
        Ok(Username(value))
    }

    pub fn into_inner(self) -> (text: String)
        ensures
            text@ == self@,
            username_ok(text@),
    {
        proof {
            use_type_invariant(&self);
        }
        self.0
    }

    pub fn as_inner(&self) -> (text: &str)
        ensures
            text@ == self@,
            username_ok(text@),
            checked_username(text@) is Ok,
    {
        proof {
            use_type_invariant(self);
            lemma_empty_text(self@);
        }
        self.0.as_str()
    }

    /// Whether two usernames are the same text.
    pub fn same_as(&self, other: &Username) -> (same: bool)
        ensures
            same == (self@ == other@),
    {
        self.0 == other.0
    }
}

impl TryFromSpecImpl<String> for Username {
    open spec fn obeys_try_from_spec() -> bool {
        false
    }

    open spec fn try_from_spec(value: String) -> Result<Username, AppError> {
        arbitrary()
    }
}

impl TryFrom<String> for Username {
    type Error = AppError;

    fn try_from(value: String) -> (r: Result<Username, AppError>)
        ensures
            match (r, checked_username(value@)) {
                (Ok(name), Ok(text)) => name@ == text,
                (Err(e), Err(expected)) => e == expected,
                _ => false,
            },
    {
        Username::parse(value)
    }
}

/// An e-mail address that passed the syntax check.
#[derive(Debug)]
pub struct Email(String);

impl View for Email {
    type V = Seq<char>;

    closed spec fn view(&self) -> Seq<char> {
        self.0@
    }
}

impl Clone for Email {
    fn clone(&self) -> (r: Email)
        ensures
            r@ == self@,
    {
        proof {
            use_type_invariant(self);
        }
        Email(self.0.clone())
    }
}

impl Email {
    #[verifier::type_invariant]
    spec fn inv(self) -> bool {
        email_syntax_ok(self.0@)
    }

    /// Checks a text and keeps it as an e-mail address: `InvalidEmail` where
    /// the syntax check refuses it.
    pub fn parse(value: String) -> (r: Result<Email, AppError>)
        ensures
            match (r, checked_email(value@)) {
                (Ok(email), Ok(text)) => email@ == text,
                (Err(e), Err(expected)) => e == expected,
                _ => false,
            },
    {
        if !validate_email_syntax(value.as_str()) {
            return Err(AppError::InvalidEmail);
        }
        Ok(Email(value))
    }

    pub fn into_inner(self) -> (text: String)
        ensures
            text@ == self@,
            email_syntax_ok(text@),
    {
        proof {
            use_type_invariant(&self);
        }
        self.0
    }

    pub fn as_inner(&self) -> (text: &str)
        ensures
            text@ == self@,
            email_syntax_ok(text@),
    {
        proof {
            use_type_invariant(self);
        }
        self.0.as_str()
    }
}

impl TryFromSpecImpl<String> for Email {
    open spec fn obeys_try_from_spec() -> bool {
        false
    }

    open spec fn try_from_spec(value: String) -> Result<Email, AppError> {
        arbitrary()
    }
}

impl TryFrom<String> for Email {
    type Error = AppError;

    fn try_from(value: String) -> (r: Result<Email, AppError>)
        ensures
            match (r, checked_email(value@)) {
                (Ok(email), Ok(text)) => email@ == text,
                (Err(e), Err(expected)) => e == expected,
                _ => false,
            },
    {
        Email::parse(value)
    }
}

/// A password of 6 to 20 bytes, kept as an opaque value that can be
/// compared.
#[derive(Debug)]
pub struct Password(String);

impl View for Password {
    type V = Seq<char>;

    closed spec fn view(&self) -> Seq<char> {
        self.0@
    }
}

impl Clone for Password {
    fn clone(&self) -> (r: Password)
        ensures
            r@ == self@,
    {
        proof {
            use_type_invariant(self);
        }
        Password(self.0.clone())
    }
}

impl Password {
    #[verifier::type_invariant]
    spec fn inv(self) -> bool {
        password_ok(self.0@)
    }

    /// Checks a text and keeps it as a password: `PasswordTooShort` under 6
    /// bytes, `PasswordTooLong` above 20.
    pub fn parse(value: String) -> (r: Result<Password, AppError>)
        ensures
            match (r, checked_password(value@)) {
                (Ok(password), Ok(text)) => password@ == text,
                (Err(e), Err(expected)) => e == expected,
                _ => false,
            },
    {
        if byte_length(value.as_str()) < MIN_PASSWORD_LENGTH {
            return Err(AppError::PasswordTooShort);
        }
        if byte_length(value.as_str()) > MAX_PASSWORD_LENGTH {
            return Err(AppError::PasswordTooLong);
        }
        Ok(Password(value))
    }

    pub fn into_inner(self) -> (text: String)
        ensures
            text@ == self@,
            password_ok(text@),
    {
        proof {
            use_type_invariant(&self);
        }
        self.0
    }

    /// Whether this is the same password as `other`.
    pub fn matches(&self, other: &Password) -> (same: bool)
        ensures
            same == (self@ == other@),
    {
        self.0 == other.0
    }
}

impl PartialEq for Password {
    fn eq(&self, other: &Password) -> (same: bool) {
        self.0 == other.0
    }
}

impl vstd::std_specs::cmp::PartialEqSpecImpl for Password {
    open spec fn obeys_eq_spec() -> bool {
        true
    }

    open spec fn eq_spec(&self, other: &Password) -> bool {
        self@ == other@
    }
}

impl Eq for Password {

}

impl TryFromSpecImpl<String> for Password {
    open spec fn obeys_try_from_spec() -> bool {
        false
    }

    open spec fn try_from_spec(value: String) -> Result<Password, AppError> {
        arbitrary()
    }
}

impl TryFrom<String> for Password {
    type Error = AppError;

    fn try_from(value: String) -> (r: Result<Password, AppError>)
        ensures
            match (r, checked_password(value@)) {
                (Ok(password), Ok(text)) => password@ == text,
                (Err(e), Err(expected)) => e == expected,
                _ => false,
            },
    {
        Password::parse(value)
    }
}

/// The secret that an identity provider hands out for one of its users. Any
/// text is accepted.
#[derive(Debug)]
pub struct OAuthAccessToken(String);

impl View for OAuthAccessToken {
    type V = Seq<char>;

    closed spec fn view(&self) -> Seq<char> {
        self.0@
    }
}

impl Clone for OAuthAccessToken {
    fn clone(&self) -> (r: OAuthAccessToken)
        ensures
            r@ == self@,
    {
        OAuthAccessToken(self.0.clone())
    }
}

impl OAuthAccessToken {
    pub fn new(value: String) -> (token: OAuthAccessToken)
        ensures
            token@ == value@,
    {
        OAuthAccessToken(value)
    }

    pub fn into_inner(self) -> (text: String)
        ensures
            text@ == self@,
    {
        self.0
    }
}

} // verus!
