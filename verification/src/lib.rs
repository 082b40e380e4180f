//! The rules of a provider that speaks the OpenAI chat completions protocol.

#![allow(unused_imports)]

pub mod error;
pub mod exchange;
pub mod exchange_laws;
pub mod guard_laws;
pub mod idle;
pub mod idle_laws;
pub mod json;
pub mod models;
pub mod models_laws;
pub mod provider;
pub mod provider_laws;
pub mod request;
pub mod stream;
pub mod stream_laws;
pub mod text;
pub mod text_laws;
pub mod usage;
