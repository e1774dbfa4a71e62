//! A one-line status header for a traffic monitor: the total upload and
//! download figures on the left and, where the line is wide enough, the time
//! elapsed since the start on the right.

pub mod clock_text;
pub mod header;
