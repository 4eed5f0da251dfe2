//! Wake-word listening core: keyword selection, sample down-mixing, frame
//! assembly, detection cooldown and the start/stop and detection-loop state
//! machines that an audio host drives.

pub mod config;
pub mod error;
pub mod framer;
pub mod sample;
pub mod cooldown;
pub mod detection;
pub mod service;
pub mod capture;
pub mod realtime;
pub mod pipeline;
