//! Dispatch core of a distributed crawling pipeline: the event router, the
//! per-domain rate limiter, the retry policy, the identity rotation pool and
//! the broker topology plan.

pub mod api;
pub mod config;
pub mod event;
pub mod identity;
pub mod models;
mod random;
pub mod rate_limiter;
pub mod retry;
pub mod router;
pub mod text;
pub mod topology;
