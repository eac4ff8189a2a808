//! Message model, canonical JSON text and legitimacy rules of an Engine API
//! safety relay.
#![allow(non_snake_case)]
#![allow(non_camel_case_types)]

pub mod auth;
pub mod cache;
pub mod canonical;
pub mod error;
pub mod method;
pub mod relay;
pub mod text;
pub mod types;
pub mod validate;
pub mod wire;
pub mod writer;
