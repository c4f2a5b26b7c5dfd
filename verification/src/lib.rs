//! Login, session-token and paging rules of the user service, each with its
//! contract.

pub mod auth;
pub mod auth_schema;
pub mod conf;
pub mod helpers;
pub mod jwt;
pub mod models;
pub mod reply;
pub mod text;
