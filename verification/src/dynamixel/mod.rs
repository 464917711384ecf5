//! The Dynamixel servos that speak protocol 1.
pub mod ax12;
pub mod mx28;
