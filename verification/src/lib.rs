//! Decisions of an X11 dock that shows one launcher icon per desktop entry.
//!
//! The library holds the logic: splitting the search path and text files,
//! choosing which desktop entries become launchers and with which command,
//! preparing icon pixels, and answering button clicks with a command to run.
//! Talking to the X server, reading files and starting processes is left to
//! the program that uses it.
pub mod entry;
pub mod index;
pub mod launch;
pub mod order;
pub mod pixels;
pub mod plan;
pub mod raster;
pub mod scan;
pub mod text;
pub mod ximage;
