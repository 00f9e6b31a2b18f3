//! Extended configuration unit
//! * OPA - Configure operation amplifier. See [`opa`].

pub mod opa;
