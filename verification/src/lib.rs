//! Backing stores for a cron job scheduler.
//!
//! Each store keeps the scheduler's jobs in a database (Redis, SQLite or
//! DynamoDB) so that they survive crashes and restarts.  The talking to the
//! database happens outside this crate; what lives here is every decision the
//! stores make: which commands they send and in which order, what they do
//! with each reply, which jobs a recovery hands back, and how each failure is
//! reported, including whether it is worth retrying.
//!
//! Each store operation is a state machine: it is started with the
//! operation's arguments, asks for one piece of outside work at a time, and
//! is resumed with the outcome of that work.
pub mod dynamodb;
pub mod dynamodb_model;
pub mod error;
pub mod job;
pub mod machine;
pub mod noop;
pub mod redis;
pub mod redis_model;
pub mod sqlite;
pub mod sqlite_model;
