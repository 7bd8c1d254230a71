//! Scoring engine for South African municipal financial data.
//!
//! The heart of the crate is [`scoring`]: a deterministic, total function that
//! turns raw financial metrics (revenue, expenditure, capital expenditure,
//! debt, audit opinion, population) into a weighted 0-100 composite score with
//! four named sub-scores.  All monetary arithmetic is done in [`decimal`], an
//! exact base-10 fixed-point type, never in binary floating point.
//!
//! The surrounding service (HTTP transport, upstream statistics API, the
//! relational cache) supplies plain values to this crate and persists what it
//! returns; none of that I/O lives here.

pub mod decimal;
pub mod config;
pub mod facts;
pub mod records;
pub mod scoring;
pub mod text;
