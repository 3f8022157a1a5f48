//! Streaming utterance segmentation: conditioned audio chunks are scored for
//! speech, buffered in a sliding window, and cut into utterances wherever the
//! speech probability drops against the recent past.
//!
//! Nothing here computes in floating point. A speech probability is held as a
//! whole number of millionths, so that the rules of the window compare and
//! average exactly. A sample is carried as the bit pattern of its 32-bit
//! value and only ever moved: mixing channels, interpolating and filtering
//! are left to the program around this library, which is told here how long
//! a batch is, when it is full, and to what length it is to be resampled.
//!
//! - [`segment_window`] holds the window and its rules, and [`window_laws`]
//!   what follows from them over any run of segments.
//! - [`audio_segment`] holds probabilities, segments and the pause rule.
//! - [`scorer`] turns a detector's result into a probability and guards the
//!   chunk length.
//! - [`conditioner`] holds the lengths and the batching of captured samples.
//! - [`microphone`], [`audio_input_device`] and
//!   [`audio_input_device_manager`] describe input devices and decide how a
//!   recording on one of them starts.
//! - [`wav_writer`] and [`file_name`] say under which header and which name
//!   an utterance is written.

pub mod audio_input_device;
pub mod audio_input_device_manager;
pub mod audio_segment;
pub mod conditioner;
pub mod error;
pub mod file_name;
pub mod microphone;
pub mod scorer;
pub mod segment_window;
pub mod wav_writer;
pub mod window_laws;
