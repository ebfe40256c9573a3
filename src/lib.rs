//! Client-side core of a sample-library browser: the data model, the
//! settings ledger, query derivation and the event/update state machine
//! that drives searching, previewing, downloading and editing samples.

mod text;
pub mod helpers;
pub mod sample;
pub mod error;
pub mod status;
pub mod settings;
pub mod search;
pub mod request;
pub mod waveform;
pub mod player;
pub mod editor;
pub mod state;
