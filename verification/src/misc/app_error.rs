//! Errors as they are reported over HTTP.

use crate::misc::query_params::ParseParamError;
use crate::service::service_error::ServiceError;
use vstd::prelude::*;
use vstd::string::StringExecFns;

verus! {

/// HTTP status of a request that cannot be served as it stands.
pub const BAD_REQUEST: u16 = 400;

/// HTTP status of a request that carries the wrong secret.
pub const UNAUTHORIZED: u16 = 401;

/// HTTP status of a request for something that does not exist.
pub const NOT_FOUND: u16 = 404;

/// An error with the HTTP status that it is reported under.
#[derive(Debug, PartialEq, Eq)]
pub struct AppError {
    pub code: u16,
    pub message: Option<String>,
}

/// An error as plain values.
pub struct AppErrorView {
    pub code: u16,
    pub message: Option<Seq<char>>,
}

impl View for AppError {
    type V = AppErrorView;

    open spec fn view(&self) -> AppErrorView {
        AppErrorView { code: self.code, message: self.message.deep_view() }
    }
}

impl AppErrorView {
    /// A request that cannot be served as it stands.
    pub open spec fn bad_request(message: Seq<char>) -> AppErrorView {
        AppErrorView { code: BAD_REQUEST, message: Some(message) }
    }

    /// A request that carries the wrong secret.
    pub open spec fn secret() -> AppErrorView {
        AppErrorView { code: UNAUTHORIZED, message: Some("Secret does not match"@) }
    }

    /// A request for something that does not exist.
    pub open spec fn not_found(message: Seq<char>) -> AppErrorView {
        AppErrorView { code: NOT_FOUND, message: Some(message) }
    }

    /// How a refusal of the service is reported.
    pub open spec fn of_service(error: ServiceError) -> AppErrorView {
        match error {
            ServiceError::RoomAlreadyExists => AppErrorView::bad_request("Room is not available"@),
            ServiceError::RoomNotFound => AppErrorView::not_found("Room not found"@),
            ServiceError::SecretMismatch => AppErrorView::secret(),
        }
    }

    /// How the absence of the required parameter `name` is reported.
    pub open spec fn of_missing(name: Seq<char>) -> AppErrorView {
        AppErrorView::bad_request(name + " is required."@)
    }
}

impl AppError {
    /// A request that cannot be served as it stands.
    pub fn bad_request(message: String) -> (error: AppError)
        ensures
            error@ == AppErrorView::bad_request(message@),
    {
        AppError { code: BAD_REQUEST, message: Some(message) }
    }

    /// A request that carries the wrong secret.
    pub fn secret() -> (error: AppError)
        ensures
            error@ == AppErrorView::secret(),
    {
        AppError { code: UNAUTHORIZED, message: Some("Secret does not match".to_owned()) }
    }

    /// A request for something that does not exist.
    pub fn not_found(message: String) -> (error: AppError)
        ensures
            error@ == AppErrorView::not_found(message@),
    {
        AppError { code: NOT_FOUND, message: Some(message) }
    }
}

/// The failure of a request that cannot be served as it stands.
pub fn error<T>(message: String) -> (failed: Result<T, AppError>)
    ensures
        failed is Err,
        failed->Err_0@ == AppErrorView::bad_request(message@),
{
    Err(AppError::bad_request(message))
}

/// The failure of a request for something that does not exist.
pub fn not_found<T>() -> (failed: Result<T, AppError>)
    ensures
        failed is Err,
        failed->Err_0@ == AppErrorView::not_found("Not found"@),
{
    Err(AppError::not_found("Not found".to_owned()))
}

/// Results whose error can be reported over HTTP.
pub trait ToBadRequest<T> {
    /// The error that is reported, where there is one.
    spec fn reported(&self) -> Option<AppErrorView>;

    /// What is carried, where there is no error.
    spec fn carried(&self) -> Option<T>;

    /// The same result, with the error as it is reported over HTTP.
    fn to_bad_request(self) -> (converted: Result<T, AppError>)
        ensures
            match converted {
                Ok(value) => self.carried() == Some(value) && self.reported() is None,
                Err(error) => self.reported() == Some(error@) && self.carried() is None,
            },
    ;
}

impl<T> ToBadRequest<T> for Result<T, ServiceError> {
    open spec fn reported(&self) -> Option<AppErrorView> {
        match self {
            Ok(_) => None,
            Err(error) => Some(AppErrorView::of_service(*error)),
        }
    }

    open spec fn carried(&self) -> Option<T> {
        match self {
            Ok(value) => Some(*value),
            Err(_) => None,
        }
    }

    fn to_bad_request(self) -> (converted: Result<T, AppError>) {
        match self {
            Ok(value) => Ok(value),
            Err(ServiceError::RoomAlreadyExists) => Err(
                AppError::bad_request("Room is not available".to_owned()),
            ),
            Err(ServiceError::RoomNotFound) => Err(
                AppError::not_found("Room not found".to_owned()),
            ),
            Err(ServiceError::SecretMismatch) => Err(AppError::secret()),
        }
    }
}

impl<'a, T> ToBadRequest<T> for Result<T, ParseParamError<'a>> {
    open spec fn reported(&self) -> Option<AppErrorView> {
        match self {
            Ok(_) => None,
            Err(ParseParamError::FieldRequired { name }) => Some(AppErrorView::of_missing(name@)),
        }
    }

    open spec fn carried(&self) -> Option<T> {
        match self {
            Ok(value) => Some(*value),
            Err(_) => None,
        }
    }

    fn to_bad_request(self) -> (converted: Result<T, AppError>) {
        match self {
            Ok(value) => Ok(value),
            Err(ParseParamError::FieldRequired { name }) => {
                let message = String::from_str(name).concat(" is required.");
                Err(AppError::bad_request(message))
            },
        }
    }
}

} // verus!
