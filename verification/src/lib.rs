//! Sign-in, credential renewal and polling rules for a vehicle telemetry
//! service, stated as contracts over plain values.

pub mod auth;
pub mod config;
pub mod daemon;
pub mod error;
pub mod form;
pub mod pkce;
pub mod poll;
pub mod sink;
pub mod text;
pub mod token;
pub mod vehicle;
pub mod web;
