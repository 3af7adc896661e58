//! Turns a video timeline into one invocation of a media engine and follows
//! that invocation to its end.
//!
//! A timeline is a list of clips, each a range of a source file with a stack
//! of effects. [`filter`] and [`tempo`] compile one effect to the engine's
//! video and audio expressions, [`stack`] compiles a clip's stack of them,
//! [`graph`] builds the chains of each clip and joins them into one filter
//! graph, [`codec`] looks up the encoder arguments, and [`export`]
//! assembles the engine's argument list. [`job`] is the state machine of
//! the one export that a job can run, [`progress`] reads the engine's
//! progress stream, and [`probe`] and [`media`] tell of files.
//!
//! The library starts no process and reads no file. Its caller does, and
//! hands over what it saw: lines of output, an exit status, a JSON report.
//!
//! Every quantity with a fractional part is a whole number of millionths:
//! seconds, factors, degrees, percentages and frames per second alike. See
//! [`fixed`].

pub mod codec;
pub mod effect;
pub mod export;
pub mod filter;
pub mod fixed;
pub mod graph;
pub mod job;
pub mod json;
pub mod media;
pub mod parse;
pub mod probe;
pub mod progress;
pub mod stack;
pub mod tempo;
pub mod text;
