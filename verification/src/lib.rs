//! A per-checkout discount decision engine.
//!
//! Given a cart's line items and a merchant-supplied rule configuration, the
//! engine decides which lines receive a percentage discount and builds a
//! structured result describing those discounts. The computation is a pure
//! function of its inputs: configuration text is parsed into an ordered rule
//! set, each cart line is matched against the first rule for its product under
//! a minimum-quantity gate, and the matched lines yield discount descriptors
//! collected in cart order. Every failure mode degrades to "no discount":
//! the engine never raises an error outward.

pub mod config;
pub mod engine;
pub mod json;
pub mod laws;
pub mod model;
pub mod numbers;
