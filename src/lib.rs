//! A terminal snake game: the grid simulation, the menu and score rules,
//! verified. Terminal drawing, keyboard reading and score files live
//! outside this library and talk to it through plain values.

pub mod frame;
pub mod gameobjs;
pub mod app;
pub mod menu;
pub mod scores;
