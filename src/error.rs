use vstd::prelude::*;
use vstd::string::StringExecFns;

verus! {

/// Failures of the wake-word listener.
#[derive(Debug, Clone, PartialEq, Eq)]
pub enum WakeWordError {
    PorcupineInit(String),
    AudioDevice(String),
    AccessKey(String),
    Resampling(String),
    AlreadyListening,
    NotListening,
}

/// The one-line description of a listener failure.
pub open spec fn wake_word_message(e: WakeWordError) -> Seq<char> {
    match e {
        WakeWordError::PorcupineInit(m) => "Porcupine initialization failed: "@ + m@,
        WakeWordError::AudioDevice(m) => "Audio device error: "@ + m@,
        WakeWordError::AccessKey(m) => "Access key error: "@ + m@,
        WakeWordError::Resampling(m) => "Resampling error: "@ + m@,
        WakeWordError::AlreadyListening => "Already listening"@,
        WakeWordError::NotListening => "Not listening"@,
    }
}

impl WakeWordError {
    /// Describes the failure for the user.
    pub fn message(&self) -> (r: String)
        ensures
            r@ == wake_word_message(*self),
    {
        match self {
            WakeWordError::PorcupineInit(m) => String::from_str("Porcupine initialization failed: ").concat(m.as_str()),
            WakeWordError::AudioDevice(m) => String::from_str("Audio device error: ").concat(m.as_str()),
            WakeWordError::AccessKey(m) => String::from_str("Access key error: ").concat(m.as_str()),
            WakeWordError::Resampling(m) => String::from_str("Resampling error: ").concat(m.as_str()),
            WakeWordError::AlreadyListening => String::from_str("Already listening"),
            WakeWordError::NotListening => String::from_str("Not listening"),
        }
    }
}

/// Failures of the microphone capture that feeds the speech service.
#[derive(Debug, Clone, PartialEq, Eq)]
pub enum AudioCaptureError {
    NoInputDevice,
    DeviceConfigError(String),
    StreamBuildError(String),
    StreamPlayError(String),
    OpenAIError(String),
}

/// The one-line description of a capture failure.
pub open spec fn capture_message(e: AudioCaptureError) -> Seq<char> {
    match e {
        AudioCaptureError::NoInputDevice => "No input device available"@,
        AudioCaptureError::DeviceConfigError(m) => "Device config error: "@ + m@,
        AudioCaptureError::StreamBuildError(m) => "Stream build error: "@ + m@,
        AudioCaptureError::StreamPlayError(m) => "Stream play error: "@ + m@,
        AudioCaptureError::OpenAIError(m) => "OpenAI error: "@ + m@,
    }
}

impl AudioCaptureError {
    /// Describes the failure for the user.
    pub fn message(&self) -> (r: String)
        ensures
            r@ == capture_message(*self),
    {
        match self {
            AudioCaptureError::NoInputDevice => String::from_str("No input device available"),
            AudioCaptureError::DeviceConfigError(m) => String::from_str("Device config error: ").concat(m.as_str()),
            AudioCaptureError::StreamBuildError(m) => String::from_str("Stream build error: ").concat(m.as_str()),
            AudioCaptureError::StreamPlayError(m) => String::from_str("Stream play error: ").concat(m.as_str()),
            AudioCaptureError::OpenAIError(m) => String::from_str("OpenAI error: ").concat(m.as_str()),
        }
    }
}

/// Failures of the realtime speech service connection.
#[derive(Debug, Clone, PartialEq, Eq)]
pub enum RealtimeError {
    ApiKey(String),
    Connection(String),
    Protocol(String),
    Timeout(String),
}

/// The one-line description of a realtime service failure.
pub open spec fn realtime_message(e: RealtimeError) -> Seq<char> {
    match e {
        RealtimeError::ApiKey(m) => "API Key error: "@ + m@,
        RealtimeError::Connection(m) => "Connection error: "@ + m@,
        RealtimeError::Protocol(m) => "Protocol error: "@ + m@,
        RealtimeError::Timeout(m) => "Timeout error: "@ + m@,
    }
}

impl RealtimeError {
    /// Describes the failure for the user.
    pub fn message(&self) -> (r: String)
        ensures
            r@ == realtime_message(*self),
    {
        match self {
            RealtimeError::ApiKey(m) => String::from_str("API Key error: ").concat(m.as_str()),
            RealtimeError::Connection(m) => String::from_str("Connection error: ").concat(m.as_str()),
            RealtimeError::Protocol(m) => String::from_str("Protocol error: ").concat(m.as_str()),
            RealtimeError::Timeout(m) => String::from_str("Timeout error: ").concat(m.as_str()),
        }
    }
}

} // verus!
