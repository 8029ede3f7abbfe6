//! Verified core of the Optimus community bot: text handling, generators,
//! storage layout, command parsing and the decisions behind each event.
pub mod text;
pub mod decimal;
pub mod thorne;
pub mod misc;
pub mod store;
pub mod pattern;
pub mod parser;
pub mod config;
pub mod mention;
pub mod onboarding;
pub mod closing;
pub mod reactions;
pub mod deleted;
pub mod web;
pub mod commands;
pub mod guild;
pub mod questions;
pub mod faq;
pub mod threads;
pub mod search;
pub mod dispatch;
