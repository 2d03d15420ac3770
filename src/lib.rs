//! Status sampling and rendering core of a wrist-worn device: charger-state
//! derivation, fixed-width text fields, the per-frame render plan and the
//! control loop's state machine.

pub mod control;
pub mod render;
pub mod status;
pub mod text;
