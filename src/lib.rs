//! Resistor colour-code encoder: band model, layout and navigation logic.

pub mod band;
pub mod colors;
pub mod geometry;
pub mod resistance;
pub mod menu;
pub mod controller;
