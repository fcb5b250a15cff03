//! A read-only catalog of application records: cursor pagination over a
//! document store, projection of stored records into their public shape, and
//! the decisions of the HTTP endpoints, stated and proved over plain values.

pub mod config;
pub mod controller;
pub mod dto;
pub mod errors;
pub mod model;
pub mod pagination;
pub mod query;
pub mod repository;
pub mod services;
pub mod text;
