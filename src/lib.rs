//! Client-side protocol library for a remote pixel-matrix display:
//! fixed-size frames, their wire codec, the connection handshake rules
//! and the decisions of the loop that merges frames and input events.

mod color;
mod connection;
mod display;
mod multiplex;

pub use color::Color;
pub use connection::{handshake_step, lemma_handshake_gating, send_outcome, subscribe_outcome, Authentication, ConnState, Connection, ConnectionError, HandshakeReply, InputEvent};
pub use display::{channel, decode_pixels, encode_pixels, lemma_round_trip, DecodeError, Display, LighthouseDisplay, ShapeError, LIGHTHOUSE_COLS, LIGHTHOUSE_ROWS, LIGHTHOUSE_SIZE};
pub use multiplex::{lemma_hand_off_order, lemma_local_not_starved, lemma_remote_not_starved, offer_spec, pick_spec, prefer_after, Action, Event, HandOff, Multiplexer, Source};
