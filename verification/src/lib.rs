//! Core of a terminal internet-radio player: the audio delivery pipeline that
//! turns a decoder's raw byte stream into a pull-based sample sequence, and the
//! metadata engine that normalizes "now playing" responses of differing shapes
//! into one canonical record.
//!
//! - `pcm`: from the decoder's bytes to chunks of samples.
//! - `source`: the streaming source that hands the samples to the sink.
//! - `player`: playback control and the decoder's invocation.
//! - `json`, `text`: the JSON values and text helpers the metadata engine reads with.
//! - `metadata`: the normalizer.
//! - `poller`: the schedule of metadata requests.

pub mod json;
pub mod metadata;
pub mod pcm;
pub mod player;
pub mod poller;
pub mod source;
pub mod text;
