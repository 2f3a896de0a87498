//! Account and token logic of the libre user service: who may read or change
//! which user, how a change is carried out step by step, how session claims are
//! built from a user, and how storage failures become service errors.

pub mod access;
pub mod env;
pub mod error;
pub mod jwt;
pub mod models;
pub mod oauth;
pub mod text;
pub mod update;
mod outside;
