use vstd::prelude::*;
use vstd::string::StringExecFns;

verus! {

pub const OK: u16 = 200;

pub const CREATED: u16 = 201;

pub const UNPROCESSABLE_ENTITY: u16 = 422;

pub const INTERNAL_SERVER_ERROR: u16 = 500;

pub const CONFLICT: u16 = 409;

pub const NOT_FOUND: u16 = 404;

pub const UNAUTHORIZED: u16 = 401;

pub const FORBIDDEN: u16 = 403;

pub const SEE_OTHER: u16 = 303;

/// The messages that one field of a payload failed validation with.
#[derive(Debug, PartialEq, Eq)]
pub struct FieldErrors {
    pub field: String,
    pub messages: Vec<String>,
}

/// What an error says beyond its message: free text, or the failures of a
/// payload field by field.
#[derive(Debug, PartialEq, Eq)]
pub enum ErrorDetails {
    Text(String),
    Fields(Vec<FieldErrors>),
}

/// The body of an error: status code, message, and details where there are any.
#[derive(Debug, PartialEq, Eq)]
pub struct AppErrorMessage<T> {
    pub code: u16,
    pub message: String,
    pub details: Option<T>,
}

#[derive(Debug, PartialEq, Eq)]
pub enum AppError {
    UnprocessableEntity(AppErrorMessage<ErrorDetails>),
    InternalServerError(AppErrorMessage<ErrorDetails>),
    Conflict(AppErrorMessage<ErrorDetails>),
    NotFound(AppErrorMessage<ErrorDetails>),
    Unauthorized(AppErrorMessage<ErrorDetails>),
    Forbidden(AppErrorMessage<ErrorDetails>),
    SeeOther(AppErrorMessage<ErrorDetails>),
}

/// The class of an error, which fixes its status code.
#[derive(Clone, Copy, Debug, PartialEq, Eq, Structural)]
pub enum ErrorKind {
    UnprocessableEntity,
    InternalServerError,
    Conflict,
    NotFound,
    Unauthorized,
    Forbidden,
    SeeOther,
}

pub ghost struct FieldErrorsView {
    pub field: Seq<char>,
    pub messages: Seq<Seq<char>>,
}

pub ghost enum DetailsView {
    Text(Seq<char>),
    Fields(Seq<FieldErrorsView>),
}

pub ghost struct MessageView<D> {
    pub code: u16,
    pub message: Seq<char>,
    pub details: Option<D>,
}

pub ghost struct ErrorView {
    pub kind: ErrorKind,
    pub body: MessageView<DetailsView>,
}

pub open spec fn texts(items: Seq<String>) -> Seq<Seq<char>> {
    items.map_values(|s: String| s@)
}

impl View for FieldErrors {
    type V = FieldErrorsView;

    open spec fn view(&self) -> FieldErrorsView {
        FieldErrorsView { field: self.field@, messages: texts(self.messages@) }
    }
}

impl View for ErrorDetails {
    type V = DetailsView;

    open spec fn view(&self) -> DetailsView {
        match *self {
            ErrorDetails::Text(s) => DetailsView::Text(s@),
            ErrorDetails::Fields(fields) => DetailsView::Fields(
                fields@.map_values(|f: FieldErrors| f@),
            ),
        }
    }
}

impl<T: View> View for AppErrorMessage<T> {
    type V = MessageView<T::V>;

    open spec fn view(&self) -> MessageView<T::V> {
        MessageView {
            code: self.code,
            message: self.message@,
            details: match self.details {
                Some(d) => Some(d@),
                None => None,
            },
        }
    }
}

pub open spec fn status_code(kind: ErrorKind) -> u16 {
    match kind {
        ErrorKind::UnprocessableEntity => UNPROCESSABLE_ENTITY,
        ErrorKind::InternalServerError => INTERNAL_SERVER_ERROR,
        ErrorKind::Conflict => CONFLICT,
        ErrorKind::NotFound => NOT_FOUND,
        ErrorKind::Unauthorized => UNAUTHORIZED,
        ErrorKind::Forbidden => FORBIDDEN,
        ErrorKind::SeeOther => SEE_OTHER,
    }
}

/// An error of the given class with its own status code, a message and
/// optional free-text details.
pub open spec fn failure(kind: ErrorKind, message: Seq<char>, details: Option<Seq<char>>) -> ErrorView {
    ErrorView {
        kind,
        body: MessageView {
            code: status_code(kind),
            message,
            details: match details {
                Some(d) => Some(DetailsView::Text(d)),
                None => None,
            },
        },
    }
}

impl AppError {
    pub open spec fn kind(&self) -> ErrorKind {
        match *self {
            AppError::UnprocessableEntity(_) => ErrorKind::UnprocessableEntity,
            AppError::InternalServerError(_) => ErrorKind::InternalServerError,
            AppError::Conflict(_) => ErrorKind::Conflict,
            AppError::NotFound(_) => ErrorKind::NotFound,
            AppError::Unauthorized(_) => ErrorKind::Unauthorized,
            AppError::Forbidden(_) => ErrorKind::Forbidden,
            AppError::SeeOther(_) => ErrorKind::SeeOther,
        }
    }

    pub open spec fn body(&self) -> AppErrorMessage<ErrorDetails> {
        match *self {
            AppError::UnprocessableEntity(m) => m,
            AppError::InternalServerError(m) => m,
            AppError::Conflict(m) => m,
            AppError::NotFound(m) => m,
            AppError::Unauthorized(m) => m,
            AppError::Forbidden(m) => m,
            AppError::SeeOther(m) => m,
        }
    }

    /// The class of this error.
    pub fn class(&self) -> (k: ErrorKind)
        ensures
            k == self.kind(),
    {
        match self {
            AppError::UnprocessableEntity(_) => ErrorKind::UnprocessableEntity,
            AppError::InternalServerError(_) => ErrorKind::InternalServerError,
            AppError::Conflict(_) => ErrorKind::Conflict,
            AppError::NotFound(_) => ErrorKind::NotFound,
            AppError::Unauthorized(_) => ErrorKind::Unauthorized,
            AppError::Forbidden(_) => ErrorKind::Forbidden,
            AppError::SeeOther(_) => ErrorKind::SeeOther,
        }
    }

    /// The body of this error.
    pub fn message(&self) -> (m: &AppErrorMessage<ErrorDetails>)
        ensures
            *m == self.body(),
    {
        match self {
            AppError::UnprocessableEntity(m) => m,
            AppError::InternalServerError(m) => m,
            AppError::Conflict(m) => m,
            AppError::NotFound(m) => m,
            AppError::Unauthorized(m) => m,
            AppError::Forbidden(m) => m,
            AppError::SeeOther(m) => m,
        }
    }

    /// Wraps a body in the variant of the given class.
    pub fn of_kind(kind: ErrorKind, body: AppErrorMessage<ErrorDetails>) -> (e: AppError)
        ensures
            e.kind() == kind,
            e.body() == body,
    {
        match kind {
            ErrorKind::UnprocessableEntity => AppError::UnprocessableEntity(body),
            ErrorKind::InternalServerError => AppError::InternalServerError(body),
            ErrorKind::Conflict => AppError::Conflict(body),
            ErrorKind::NotFound => AppError::NotFound(body),
            ErrorKind::Unauthorized => AppError::Unauthorized(body),
            ErrorKind::Forbidden => AppError::Forbidden(body),
            ErrorKind::SeeOther => AppError::SeeOther(body),
        }
    }

    /// An error of the given class that carries the class's status code.
    pub fn new(kind: ErrorKind, message: String, details: Option<String>) -> (e: AppError)
        ensures
            e@ == failure(
                kind,
                message@,
                match details {
                    Some(d) => Some(d@),
                    None => None,
                },
            ),
    {
        let details = match details {
            Some(d) => Some(ErrorDetails::Text(d)),
            None => None,
        };
        AppError::of_kind(kind, AppErrorMessage { code: code_of(kind), message, details })
    }

    /// An error of the given class with a fixed message and no details.
    pub fn plain(kind: ErrorKind, message: &str) -> (e: AppError)
        ensures
            e@ == failure(kind, message@, None),
    {
        AppError::new(kind, String::from_str(message), None)
    }

    /// An error of the given class with a fixed message and free-text details.
    pub fn detailed(kind: ErrorKind, message: &str, details: String) -> (e: AppError)
        ensures
            e@ == failure(kind, message@, Some(details@)),
    {
        AppError::new(kind, String::from_str(message), Some(details))
    }
}

/// What a failure of the store is reported as.
pub open spec fn database_failure(text: Seq<char>) -> ErrorView {
    failure(
        ErrorKind::InternalServerError,
        "an database error occurred while processing your request."@,
        Some(text),
    )
}

/// What an answer that does not fit the request is reported as.
pub open spec fn protocol_failure() -> ErrorView {
    failure(ErrorKind::InternalServerError, "the credential store answered out of turn."@, None)
}

impl AppError {
    /// The error for a failure of the store, with the store's own words.
    pub fn database(text: String) -> (e: AppError)
        ensures
            e@ == database_failure(text@),
    {
        AppError::detailed(
            ErrorKind::InternalServerError,
            "an database error occurred while processing your request.",
            text,
        )
    }

    /// The error for an answer that does not fit the request it answers.
    pub fn protocol() -> (e: AppError)
        ensures
            e@ == protocol_failure(),
    {
        AppError::plain(ErrorKind::InternalServerError, "the credential store answered out of turn.")
    }
}

impl View for AppError {
    type V = ErrorView;

    open spec fn view(&self) -> ErrorView {
        ErrorView { kind: self.kind(), body: self.body()@ }
    }
}

/// The status code of an error class.
pub fn code_of(kind: ErrorKind) -> (code: u16)
    ensures
        code == status_code(kind),
{
    match kind {
        ErrorKind::UnprocessableEntity => UNPROCESSABLE_ENTITY,
        ErrorKind::InternalServerError => INTERNAL_SERVER_ERROR,
        ErrorKind::Conflict => CONFLICT,
        ErrorKind::NotFound => NOT_FOUND,
        ErrorKind::Unauthorized => UNAUTHORIZED,
        ErrorKind::Forbidden => FORBIDDEN,
        ErrorKind::SeeOther => SEE_OTHER,
    }
}

} // verus!
