//! A small HTTP demo service, modelled as a verified library.
//!
//! The routing and I/O layer of the running server lives outside this crate;
//! what is here is the behaviour of each route: pure functions from a
//! request's path parameter (and the shared application state) to a response.

pub mod handlers;
pub mod pages;
pub mod render;
pub mod response;
pub mod state;
