//! Client library for the TypeSafe AI API.
//!
//! The library holds what the API client decides: how a [`Client`] is
//! configured from explicit settings, the environment variables and built-in
//! defaults; what request each call sends; how a response with a failure
//! status becomes an [`Error`]; and how the typed answers of a response are
//! picked out by kind. Sending requests and decoding JSON bodies is left to
//! the caller, which hands the library plain values.

mod answer;
mod client;
mod error;
mod json_text;
mod model;
mod question;

pub use answer::{Answer, AnswerMap, ChoiceAnswer, NoulAnswer, ScoreAnswer};
pub use client::{
    ApiCall, Client, ClientBuilder, ClientConfig, Environment, HttpMethod, Settings,
    SystemOneOptions, SystemOneRequestBody, SystemOneResponse, Usage,
};
pub use error::{ApiError, Error, Result};
pub use model::Model;
pub use question::{NoulCriteria, Question};
