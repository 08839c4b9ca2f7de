//! Writing transformed text back over a selection in another application.
//!
//! A user selects text in some window; the text is sent elsewhere to be
//! transformed; the result is to replace the selection where it was made.
//! The system offers no call that sets another application's selected text,
//! so the library remembers which window the selection was in, finds that
//! window again, brings it to the front and has the keys pressed that a user
//! would press: clear the selection, paste.
//!
//! Nothing here touches the system. What has to be done is handed out as an
//! `Action`, what came of it is handed back as an `Event`, and everything in
//! between is decided here.

pub mod activation;
pub mod error;
pub mod history;
pub mod input;
pub mod replace;
pub mod resolver;
pub mod selection;
pub mod std_specs;
pub mod title;

pub use crate::error::ReplacementError;
pub use crate::replace::{
    replace_selected_text, Action, Event, Phase, Platform, Replacement, Timing,
};
pub use crate::resolver::{resolve_window, WindowEntry, WindowHandle};
pub use crate::selection::{
    get_text, record_selection, SelectionInfo, SelectionInfoWrapper, StringWrapper,
};
