//! The decisions of the HTTP handlers and of the worker; the handlers themselves, which
//! await network calls, run them step by step.

pub mod webhook;
pub mod worker;
pub mod pubsub_handler;
pub mod worker_temp;
pub mod health;
pub mod clickup_webhook;
