//! The HTTP handlers: how the outcome of an operation becomes a response.
//!
//! A response is a status code and, on success of an operation that returns
//! something, a body. A failure never carries a body: the status code is all
//! that a client learns.

use vstd::prelude::*;
use crate::modules::todos::todo_entity::Item;
use crate::modules::todos::todo_service::ErrorKind;

verus! {

/// The status codes that the service answers with.
#[derive(Debug, Clone, Copy, PartialEq, Eq, Structural)]
pub enum Status {
    /// 200: the operation succeeded and the response has a body.
    Success,
    /// 204: the operation succeeded and there is nothing to send.
    NoContent,
    /// 404: no item has the requested id.
    NotFound,
    /// 500: any other failure.
    InternalServerError,
}

impl Status {
    /// The numeric status code.
    pub open spec fn code_of(self) -> u16 {
        match self {
            Status::Success => 200,
            Status::NoContent => 204,
            Status::NotFound => 404,
            Status::InternalServerError => 500,
        }
    }

    /// The numeric status code.
    pub fn code(&self) -> (code: u16)
        ensures
            code == self.code_of(),
    {
        match self {
            Status::Success => 200,
            Status::NoContent => 204,
            Status::NotFound => 404,
            Status::InternalServerError => 500,
        }
    }
}

/// A response: the status and, where there is one, the body to encode.
#[derive(Debug)]
pub struct Response<T> {
    pub status: Status,
    pub body: Option<T>,
}

/// The status for a failure of an operation that looks an item up by id:
/// 404 where the item is missing, 500 for everything else.
pub open spec fn lookup_failure(kind: ErrorKind) -> Status {
    match kind {
        ErrorKind::NotFound => Status::NotFound,
        _ => Status::InternalServerError,
    }
}

/// The response to a create or list request: 200 with the result, or 500.
pub open spec fn respond_with<T>(outcome: Result<T, ErrorKind>) -> Response<T> {
    match outcome {
        Ok(body) => Response { status: Status::Success, body: Some(body) },
        Err(_) => Response { status: Status::InternalServerError, body: None },
    }
}

/// The response to a get request: 200 with the item, 404 where it is
/// missing, or 500.
pub open spec fn respond_with_found<T>(outcome: Result<T, ErrorKind>) -> Response<T> {
    match outcome {
        Ok(body) => Response { status: Status::Success, body: Some(body) },
        Err(kind) => Response { status: lookup_failure(kind), body: None },
    }
}

/// The status of the response to an update request: 204, 404 where the item
/// is missing, or 500.
pub open spec fn respond_to_update(outcome: Result<(), ErrorKind>) -> Status {
    match outcome {
        Ok(_) => Status::NoContent,
        Err(kind) => lookup_failure(kind),
    }
}

/// The status of the response to a delete request: 204 or 500.
pub open spec fn respond_to_delete(outcome: Result<(), ErrorKind>) -> Status {
    match outcome {
        Ok(_) => Status::NoContent,
        Err(_) => Status::InternalServerError,
    }
}

/// What the decoding of a request body means for the request: the payload
/// where there is one, a decode failure where the body could not be read as
/// the expected payload.
pub fn decoded<T>(payload: Option<T>) -> (outcome: Result<T, ErrorKind>)
    ensures
        outcome == match payload {
            Some(dto) => Ok::<T, ErrorKind>(dto),
            None => Err(ErrorKind::Decode),
        },
{
    match payload {
        Some(dto) => Ok(dto),
        None => Err(ErrorKind::Decode),
    }
}

/// Maps a failed lookup to its status.
fn failure_status(kind: ErrorKind) -> (status: Status)
    ensures
        status == lookup_failure(kind),
{
    match kind {
        ErrorKind::NotFound => Status::NotFound,
        _ => Status::InternalServerError,
    }
}

/// Answers a create request, given how the create operation ended or that
/// the body could not be decoded.
pub fn create_item(outcome: Result<Item, ErrorKind>) -> (response: Response<Item>)
    ensures
        response == respond_with(outcome),
{
    match outcome {
        Ok(item) => Response { status: Status::Success, body: Some(item) },
        Err(_) => Response { status: Status::InternalServerError, body: None },
    }
}

/// Answers a list request, given how the list operation ended.
pub fn list_items(outcome: Result<Vec<Item>, ErrorKind>) -> (response: Response<Vec<Item>>)
    ensures
        response == respond_with(outcome),
{
    match outcome {
        Ok(items) => Response { status: Status::Success, body: Some(items) },
        Err(_) => Response { status: Status::InternalServerError, body: None },
    }
}

/// Answers a get request, given how the get operation ended.
pub fn get_item(outcome: Result<Item, ErrorKind>) -> (response: Response<Item>)
    ensures
        response == respond_with_found(outcome),
{
    match outcome {
        Ok(item) => Response { status: Status::Success, body: Some(item) },
        Err(kind) => Response { status: failure_status(kind), body: None },
    }
}

/// Answers an update request, given how the update operation ended or that
/// the body could not be decoded.
pub fn update_item(outcome: Result<(), ErrorKind>) -> (status: Status)
    ensures
        status == respond_to_update(outcome),
{
    match outcome {
        Ok(_) => Status::NoContent,
        Err(kind) => failure_status(kind),
    }
}

/// Answers a delete request, given how the delete operation ended.
pub fn delete_item(outcome: Result<(), ErrorKind>) -> (status: Status)
    ensures
        status == respond_to_delete(outcome),
{
    match outcome {
        Ok(_) => Status::NoContent,
        Err(_) => Status::InternalServerError,
    }
}

} // verus!
