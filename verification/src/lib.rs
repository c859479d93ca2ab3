//! Verified logic of a wireless omniwheel robot and its joystick controller: the radio
//! protocol, the joystick scaling, the wheel mixing, and the decisions that the
//! controller, the platform and the stepper test rig take on each turn of their loops.
pub mod protocol;
pub mod joystick;
pub mod mixing;
pub mod platform;
pub mod controller;
pub mod stepper;
