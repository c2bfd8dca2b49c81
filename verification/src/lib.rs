//! A distraction-free typewriter: key translation, the file session, the text
//! buffer and the pager that lays the tail of the document out for display.

pub mod buffer;
pub mod chars;
pub mod display;
pub mod keys;
pub mod pager;
pub mod scale;
pub mod session;
