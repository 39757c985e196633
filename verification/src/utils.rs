//! Helpers for the wire format.
pub mod single_element_array;
