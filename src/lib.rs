//! Control of the embedded controller on SU AXB35 mainboards: the two-port
//! register handshake, the register map and its encodings, the fan curve
//! controller, the single-owner operation queue and the bring-up of the
//! privileged port transport.
//!
//! The hardware itself is reached only through the port transport, which the
//! host program supplies; every decision taken around it lives here as a
//! verified function from state and event to the next state and action.

pub mod error;
pub mod registers;
pub mod text;
pub mod curve;
pub mod operation;
pub mod link;
pub mod serializer;
pub mod monitor;
pub mod lifecycle;
pub mod config;
