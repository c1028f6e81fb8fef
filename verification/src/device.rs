//! The controls, the routing table and the engines built from a layout.

pub mod contact;
pub mod controllers;
pub mod interface;
pub mod interface_direct;
pub mod json;
pub mod layout;
pub mod message;
pub mod numeral;
pub mod routing;
pub mod scalar;
pub mod schema;
pub mod state;
