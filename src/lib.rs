//! Tracebacks for a small interpreter: the context frames that led to an
//! error, a per-session slot that holds the last traceback, and the text
//! that a traceback renders to.
pub mod name;
pub mod value;
pub mod trace;

pub use name::{Name, NameStore};
pub use value::{Value, pretty_print, write_integer};
pub use trace::{
    Trace, TraceItem, Traceback, clear_traceback, get_traceback, set_traceback, take_traceback,
};
