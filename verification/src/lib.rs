//! A normalisation layer that lets one caller ask a language model one
//! uniform question while the model is served by any of several
//! incompatible HTTP APIs, and that recovers a structured evaluation, a
//! score and a list of issues, from the free text a model answers with.
//!
//! The library does everything but the HTTP round trip itself.
//! [`query::query_llm`] and [`evaluate::evaluate_text`] run a whole query
//! or evaluation around a transport that the caller hands in. A caller
//! that cannot hand its transport in, because it has to wait for the
//! exchange, takes the same steps one by one: [`request::prepare_query`]
//! turns a question into the request that the provider expects, and
//! [`response::conclude_query`] turns the outcome of the exchange into the
//! generated text or a failure; [`evaluate::evaluation_query`] and
//! [`evaluate::conclude_evaluation`] do the same around an evaluation.

pub mod error;
pub mod evaluate;
pub mod json;
pub mod provider;
pub mod query;
pub mod request;
pub mod response;
pub mod sanitize;
pub mod text;
