//! Feature modules of the service.

pub mod todos;
