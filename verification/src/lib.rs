//! Account reporting over a brokerage gateway session.
//!
//! The library holds the part of a report run that can be reasoned about: how
//! the messages of a subscription become rows ([`messages`]), in which order
//! subscriptions are opened, read and cancelled ([`collector`]), and how the
//! collected rows are laid out as text, JSON or CSV ([`text`], [`json`],
//! [`csv_output`], chosen among in [`render`]). It does no input or output and
//! forms no binary64 number: the caller talks to the gateway, and evaluates
//! and prints the numbers of a rendering.

pub mod model;
pub mod value;
pub mod rows;
pub mod messages;
pub mod collector;
pub mod table;
pub mod json;
pub mod csv_output;
pub mod text;
pub mod render;
