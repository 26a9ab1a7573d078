//! A single-instrument order lifecycle controller: it paces itself with a
//! drift-free ticker, derives a sell quote from order-book depth in exact
//! fixed-point arithmetic, and drives one resting order at a time through
//! place / cancel cycles until a bounded number of cycles has completed.
pub mod config;
pub mod quote;
pub mod ticker;
pub mod controller;
