//! Verified core of the player self-service password-reset verification service.
pub mod order;
pub mod text;
pub mod model;
pub mod uss_mapping;
pub mod uss;
pub mod types;
pub mod scoring;
pub mod mcs;
pub mod finance_history;
pub mod error;
pub mod wps;
pub mod questions;
pub mod verification;
pub mod question_flow;
pub mod submit_flow;
pub mod handler;
pub mod masking;
pub mod conv;
pub mod logs;
pub mod kafka;
pub mod concurrency;
pub mod field_cache;
pub mod middleware;
pub mod upload;
pub mod config;
pub mod clients;
pub mod telemetry;
pub mod repository;
pub mod cron;
pub mod recover;
pub mod health;
pub mod observability;
pub mod tasks;
pub mod infra;
