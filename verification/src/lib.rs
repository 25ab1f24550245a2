//! An appointment book for the terminal, as a library.
//!
//! An appointment has a title, a place, a duration and a start time. The
//! book is a list of them, kept in the order in which they came. A menu
//! makes new appointments in a dialogue of four questions, shows the list,
//! has it written to a file and has the file read back in.
//!
//! Nothing here reads or writes. The menu is a state machine: the caller
//! prints the text of an action, carries the action out, and comes back
//! with the event that it ended in.
//!
//! - [`tekst`] and [`tall`]: white space, the end of a line, the search for
//!   a text in a text, and decimal numerals read and written.
//! - [`tid`]: dates and times on the wall clock, and the three calls into
//!   `chrono`.
//! - [`dato_format`]: the text of a start time in the file.
//! - [`avtale`]: the appointment, the text that shows it, and the filters
//!   by day and by title.
//! - [`fil`]: the records of the file.
//! - [`dialog`]: the dialogue that makes an appointment.
//! - [`meny`]: the menu.

pub mod avtale;
pub mod dato_format;
pub mod dialog;
pub mod fil;
pub mod meny;
pub mod tall;
pub mod tekst;
pub mod tid;
