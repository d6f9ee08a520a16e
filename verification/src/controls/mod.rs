//! Front-panel controls.

pub mod analogout;
