//! Pure decision logic behind a desktop markdown editor's native shell.
//!
//! The shell itself (windows, native menus, file pickers, the file system)
//! lives outside this crate. What is here is everything the shell decides:
//! the shape of the application menu, how menu text is replaced when the
//! language changes, which front-end event a menu click turns into, and how
//! the outcome of a file or dialog operation is reported to the front end.

pub mod commands;
pub mod dialog;
pub mod events;
pub mod labels;
pub mod menu;
pub mod text;
