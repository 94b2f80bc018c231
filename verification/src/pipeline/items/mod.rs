//! The operations that the library brings.
pub mod do_p;

pub mod gte;

pub mod if_p;

pub mod invalid;

pub mod is_alphabetic;

pub mod is_hex_color;

pub mod is_null;

pub mod logical_and;

pub mod logical_or;

pub mod lte;

pub mod max;

pub mod min_length;

pub mod object_value;

pub mod transform;

pub mod trim;

pub mod truncate;

pub mod when;
