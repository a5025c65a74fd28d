//! A small runtime for terminal applications: a closed event taxonomy, a
//! scene abstraction with a push/pop action protocol, and a driver that
//! routes a single ordered stream of events to the top of a scene stack.

pub mod app;
pub mod event;
pub mod game;
pub mod options;
pub mod scene;
pub mod title_screen;
