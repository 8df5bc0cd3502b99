//! Game rules of a small arena shooter: what a gun releases and when, how a
//! timed effect ages, what an input asks for, and which of several hits is the
//! nearest. Everything here works on integers and enums; geometry, drawing and
//! the event loop belong to the program that uses this crate.

pub mod animation;
pub mod bullet;
pub mod collision;
pub mod color;
pub mod controls;
pub mod player;
