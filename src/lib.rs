//! Streaming playback core: a pausable position timer, sample normalisation,
//! bounded PCM queues, the output sink's render step, resampling arithmetic,
//! the source controller's lifecycle and the playback session.

pub mod timer;
pub mod sample;
pub mod pcm;
pub mod sink;
pub mod resample;
pub mod controller;
pub mod metadata;
pub mod session;
pub mod playlist;
