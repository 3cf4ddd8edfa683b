//! Turns a CAN signal database into the text of a C header and source pair:
//! two cross-referencing static arrays, one of signal descriptors and one of
//! message descriptors, plus a block of vehicle properties.
//!
//! A database is loaded from its text ([`dbc`]), its messages and signals are
//! laid out in two flat sequences that refer to each other by position
//! ([`layout`]), and the layout is written out as text ([`generator`]). On the
//! way every name becomes an identifier ([`names`]), every unit label is given
//! a unit category ([`units`]), and the vehicle properties are read from the
//! comments of the database ([`properties`]).

pub mod dbc;
pub mod generator;
pub mod layout;
pub mod names;
pub mod properties;
pub mod text;
pub mod units;
