//! Base definitions for talking to the platform's graphics subsystem: the
//! closed registry of its error codes, with their integer values and
//! descriptions, and the inert stand-in for its affine transform.

pub mod base;
