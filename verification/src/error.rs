//! The error taxonomy: four kinds that reach a client, and the domain
//! errors that resolve to them.

use vstd::prelude::*;
use vstd::std_specs::convert::FromSpecImpl;
use vstd::string::StringExecFns;

verus! {

/// What a client is told: one of four kinds, three of them with a detail.
#[derive(Debug)]
pub enum Error {
    Internal,
    NotFound(String),
    InvalidArgument(String),
    AlreadyExists(String),
}

/// The mathematical value of an [`Error`].
pub enum ErrorView {
    Internal,
    NotFound(Seq<char>),
    InvalidArgument(Seq<char>),
    AlreadyExists(Seq<char>),
}

impl View for Error {
    type V = ErrorView;

    open spec fn view(&self) -> ErrorView {
        match self {
            Error::Internal => ErrorView::Internal,
            Error::NotFound(what) => ErrorView::NotFound(what@),
            Error::InvalidArgument(why) => ErrorView::InvalidArgument(why@),
            Error::AlreadyExists(what) => ErrorView::AlreadyExists(what@),
        }
    }
}

impl Clone for Error {
    fn clone(&self) -> (r: Error)
        ensures
            r@ == self@,
    {
        match self {
            Error::Internal => Error::Internal,
            Error::NotFound(what) => Error::NotFound(what.clone()),
            Error::InvalidArgument(why) => Error::InvalidArgument(why.clone()),
            Error::AlreadyExists(what) => Error::AlreadyExists(what.clone()),
        }
    }
}

/// Failures that the domain rules name.
#[derive(Debug, Clone, Copy, PartialEq, Eq, Structural)]
pub enum AppError {
    Internal,
    InvalidPassword,
    RefreshTokenIsNoLongerValid,
    UserAlreadyExists,
    UserNotFound,
    UsernameIsEmpty,
    UsernameTooLong,
    InvalidEmail,
    PasswordTooShort,
    PasswordTooLong,
    LoginConnectionAlreadyExists,
}

/// The kind and detail that a domain error resolves to.
pub open spec fn resolved(err: AppError) -> ErrorView {
    match err {
        AppError::Internal => ErrorView::Internal,
        AppError::InvalidPassword => ErrorView::InvalidArgument("Invalid password."@),
        AppError::RefreshTokenIsNoLongerValid => ErrorView::InvalidArgument(
            "Token is no longer valid."@,
        ),
        AppError::UserAlreadyExists => ErrorView::AlreadyExists("User"@),
        AppError::UserNotFound => ErrorView::NotFound("User"@),
        AppError::UsernameIsEmpty => ErrorView::InvalidArgument("Username cannot be empty."@),
        AppError::UsernameTooLong => ErrorView::InvalidArgument(
            "Username must be at most 30 characters long."@,
        ),
        AppError::InvalidEmail => ErrorView::InvalidArgument("Invalid email."@),
        AppError::PasswordTooShort => ErrorView::InvalidArgument(
            "Password must be at least 6 characters long."@,
        ),
        AppError::PasswordTooLong => ErrorView::InvalidArgument(
            "Password must be at most 20 characters long."@,
        ),
        AppError::LoginConnectionAlreadyExists => ErrorView::AlreadyExists("Login connection"@),
    }
}

/// The text shown for an error.
pub open spec fn message_of(err: ErrorView) -> Seq<char> {
    match err {
        ErrorView::Internal => "Sorry! Something went wrong while processing your request."@,
        ErrorView::NotFound(what) => what + " not found."@,
        ErrorView::InvalidArgument(why) => why,
        ErrorView::AlreadyExists(what) => what + " already exists."@,
    }
}

/// The HTTP status that stands for an error's kind.
pub open spec fn status_of(err: ErrorView) -> int {
    match err {
        ErrorView::Internal => 500,
        ErrorView::NotFound(_) => 404,
        ErrorView::InvalidArgument(_) => 400,
        ErrorView::AlreadyExists(_) => 409,
    }
}

impl FromSpecImpl<AppError> for Error {
    open spec fn obeys_from_spec() -> bool {
        false
    }

    open spec fn from_spec(err: AppError) -> Error {
        arbitrary()
    }
}

impl From<AppError> for Error {
    /// Resolves a domain error to the kind that the client is told.
    fn from(err: AppError) -> (r: Error)
        ensures
            r@ == resolved(err),
    {
        match err {
            AppError::Internal => Error::Internal,
            AppError::InvalidPassword => Error::InvalidArgument(
                String::from_str("Invalid password."),
            ),
            AppError::RefreshTokenIsNoLongerValid => Error::InvalidArgument(
                String::from_str("Token is no longer valid."),
            ),
            AppError::UserAlreadyExists => Error::AlreadyExists(String::from_str("User")),
            AppError::UserNotFound => Error::NotFound(String::from_str("User")),
            AppError::UsernameIsEmpty => Error::InvalidArgument(
                String::from_str("Username cannot be empty."),
            ),
            AppError::UsernameTooLong => Error::InvalidArgument(
                String::from_str("Username must be at most 30 characters long."),
            ),
            AppError::InvalidEmail => Error::InvalidArgument(String::from_str("Invalid email.")),
            AppError::PasswordTooShort => Error::InvalidArgument(
                String::from_str("Password must be at least 6 characters long."),
            ),
            AppError::PasswordTooLong => Error::InvalidArgument(
                String::from_str("Password must be at most 20 characters long."),
            ),
            AppError::LoginConnectionAlreadyExists => Error::AlreadyExists(
                String::from_str("Login connection"),
            ),
        }
    }
}

impl Error {
    /// A failure of the relational store: a missing row is `NotFound`, anything
    /// else is `Internal`.
    pub fn from_storage(row_missing: bool) -> (r: Error)
        ensures
            r@ == (if row_missing {
                ErrorView::NotFound("Not found"@)
            } else {
                ErrorView::Internal
            }),
    {
        if row_missing {
            Error::NotFound(String::from_str("Not found"))
        } else {
            Error::Internal
        }
    }

    /// The text shown to the client.
    pub fn message(&self) -> (text: String)
        ensures
            text@ == message_of(self@),
    {
        match self {
            Error::Internal => String::from_str(
                "Sorry! Something went wrong while processing your request.",
            ),
            Error::NotFound(what) => what.clone().concat(" not found."),
            Error::InvalidArgument(why) => why.clone(),
            Error::AlreadyExists(what) => what.clone().concat(" already exists."),
        }
    }

    /// The HTTP status of the response that carries this error.
    pub fn status_code(&self) -> (code: u16)
        ensures
            code == status_of(self@),
    {
        match self {
            Error::Internal => 500,
            Error::NotFound(_) => 404,
            Error::InvalidArgument(_) => 400,
            Error::AlreadyExists(_) => 409,
        }
    }
}

} // verus!
