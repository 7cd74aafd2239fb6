//! The model of a terminal: its screens, cursor, selection, viewport and input
//! modes, and what the terminal asks of the program that embeds it; windows and what
//! is painted in them; and the source text of the tables of emoji variations and
//! character widths.
pub mod attributes;
pub mod cell;
pub mod codegen;
pub mod escape;
pub mod host;
pub mod hyperlink;
pub mod input;
pub mod line;
pub mod outside;
pub mod range;
pub mod screen;
pub mod selection;
pub mod storage;
pub mod tabs;
pub mod terminal;
pub mod text;
pub mod window;
pub mod write;
