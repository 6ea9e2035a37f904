//! Mirrors the playback state of a media player into a presence display.
//!
//! The player reports changes of a few properties, one at a time and in no
//! fixed order. The library folds them into one record of what is playing,
//! derives from the player's relative times the absolute time at which
//! playback ends, and renders the record into the payload that the presence
//! display shows.
//!
//! The library talks to neither side itself. A host loop registers the
//! properties of [`event::observed_properties`] with the player, connects to
//! the display and starts the session with [`channel::start`]. Then, for
//! each event of the player, it
//!
//! 1. has the event sorted by [`event::classify`],
//! 2. reads from the player what [`event::Notice::query`] asks for,
//! 3. takes the step with [`session::Session::step`], once [`session::fits`]
//!    has said that it can be taken, and
//! 4. carries out the [`session::Action`] that the step returns: it waits
//!    for the next event, or pushes the payload and does about a failure
//!    what [`channel::after_push`] says, or closes the connection and ends.

pub mod channel;
pub mod event;
pub mod history;
pub mod presence;
pub mod session;
pub mod text;
pub mod timing;
pub mod track;

pub use crate::text::MpvStr;
