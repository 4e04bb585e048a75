//! Scoring primitives for content-aware image cropping.
//!
//! A candidate crop of an image is ranked by per-pixel heuristics: a luma
//! proxy for detail, an HSL saturation measure, a skin-tone likelihood, and a
//! spatial importance weight that favours the crop's centre and rule-of-thirds
//! lines while penalising content left outside the crop.
//!
//! The heuristics themselves are floating-point formulas and live with the
//! surrounding application. This crate holds the integer core those formulas
//! are built on — the colour sample and crop rectangle value types, channel
//! extrema, the squared colour magnitude, and the crop membership test — each
//! with a proved contract.

pub mod color;
pub mod crop;
