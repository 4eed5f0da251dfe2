use vstd::prelude::*;
use vstd::string::StringExecFns;

verus! {

/// Sample rate, in hertz, that the detection engine consumes.
pub const PORCUPINE_SAMPLE_RATE: u32 = 16000;

/// Number of samples in one detection frame.
pub const PORCUPINE_FRAME_LENGTH: usize = 512;

/// Minimum time between two accepted detections, in seconds.
pub const COOLDOWN_DURATION_SECS: u64 = 2;

/// Minimum time between two accepted detections, in milliseconds.
pub const COOLDOWN_DURATION_MS: u64 = 2000;

/// Bounded wait on the frame channel, in milliseconds.
pub const AUDIO_TIMEOUT_MS: u64 = 100;

/// Silence after which the detection loop warns, in seconds.
pub const NO_AUDIO_WARNING_SECS: u64 = 5;

/// Frames between two detection-result log lines.
pub const FRAME_LOG_INTERVAL: usize = 50;

/// Frames between two audio-level log lines.
pub const AUDIO_LEVEL_LOG_INTERVAL: usize = 10;

/// Capture callbacks between two diagnostic log lines.
pub const CALLBACK_LOG_INTERVAL: usize = 500;

/// Peak amplitude above which a frame counts as audible.
pub const AUDIO_DETECTION_THRESHOLD: i16 = 500;

/// Directory of debug recordings.
pub const DEBUG_AUDIO_DIR: &'static str = "debug_audio";

/// Custom keyword model; its presence selects the custom keyword.
pub const MODEL_PATH: &'static str = "models/Hi-Eva.ppn";

/// Secure-store service name of the access key.
pub const KEYCHAIN_SERVICE: &'static str = "eva-desktop";

/// Secure-store account name of the access key.
pub const KEYCHAIN_ACCOUNT: &'static str = "picovoice-access-key";

/// Environment variable holding the access key.
pub const ENV_ACCESS_KEY: &'static str = "PV_ACCESS_KEY";

/// Environment variable that turns debug recording on.
pub const ENV_DEBUG_AUDIO: &'static str = "EVA_DEBUG_AUDIO";

/// Environment variable naming a built-in keyword.
pub const ENV_WAKE_WORD_KEYWORD: &'static str = "WAKE_WORD_KEYWORD";

/// Pipeline settings; durations are held in milliseconds.
#[derive(Debug, Clone, Copy)]
pub struct AudioConfig {
    pub sample_rate: u32,
    pub frame_length: usize,
    pub cooldown_duration_ms: u64,
    pub audio_timeout_ms: u64,
    pub debug_enabled: bool,
}

impl AudioConfig {
    /// The standard settings, with debug recording as given.
    pub fn new(debug_enabled: bool) -> (r: AudioConfig)
        ensures
            r.sample_rate == PORCUPINE_SAMPLE_RATE,
            r.frame_length == PORCUPINE_FRAME_LENGTH,
            r.cooldown_duration_ms == COOLDOWN_DURATION_MS,
            r.audio_timeout_ms == AUDIO_TIMEOUT_MS,
            r.debug_enabled == debug_enabled,
    {
        AudioConfig {
            sample_rate: PORCUPINE_SAMPLE_RATE,
            frame_length: PORCUPINE_FRAME_LENGTH,
            cooldown_duration_ms: COOLDOWN_DURATION_SECS * 1000,
            audio_timeout_ms: AUDIO_TIMEOUT_MS,
            debug_enabled,
        }
    }
}

/// The trigger phrases the listener can be configured for.
#[derive(Debug, Clone, Copy, PartialEq, Eq, Structural)]
pub enum WakeWordKeyword {
    HiEva,
    Alexa,
    Computer,
    Jarvis,
    HeyGoogle,
    OkGoogle,
    Picovoice,
    Porcupine,
}

/// Human-readable label of a keyword.
pub open spec fn keyword_label(k: WakeWordKeyword) -> Seq<char> {
    match k {
        WakeWordKeyword::HiEva => "Hi Eva"@,
        WakeWordKeyword::Alexa => "Alexa"@,
        WakeWordKeyword::Computer => "Computer"@,
        WakeWordKeyword::Jarvis => "Jarvis"@,
        WakeWordKeyword::HeyGoogle => "Hey Google"@,
        WakeWordKeyword::OkGoogle => "Ok Google"@,
        WakeWordKeyword::Picovoice => "Picovoice"@,
        WakeWordKeyword::Porcupine => "Porcupine"@,
    }
}

/// The keyword named by an override value, if it names one.
pub open spec fn keyword_of_override(v: Seq<char>) -> Option<WakeWordKeyword> {
    if v == "alexa"@ {
        Some(WakeWordKeyword::Alexa)
    } else if v == "computer"@ {
        Some(WakeWordKeyword::Computer)
    } else if v == "jarvis"@ {
        Some(WakeWordKeyword::Jarvis)
    } else if v == "hey-google"@ {
        Some(WakeWordKeyword::HeyGoogle)
    } else if v == "ok-google"@ {
        Some(WakeWordKeyword::OkGoogle)
    } else if v == "picovoice"@ {
        Some(WakeWordKeyword::Picovoice)
    } else if v == "porcupine"@ {
        Some(WakeWordKeyword::Porcupine)
    } else {
        None
    }
}

/// Layered keyword choice: a present custom model wins, then a recognised
/// override, then the default.
pub open spec fn resolve_keyword(model_exists: bool, over: Option<Seq<char>>) -> WakeWordKeyword {
    if model_exists {
        WakeWordKeyword::HiEva
    } else {
        match over {
            Some(v) => match keyword_of_override(v) {
                Some(k) => k,
                None => WakeWordKeyword::Computer,
            },
            None => WakeWordKeyword::Computer,
        }
    }
}

/// The view of an optional text value.
pub open spec fn text_view(o: Option<&str>) -> Option<Seq<char>> {
    match o {
        Some(v) => Some(v@),
        None => None,
    }
}

fn same_text(a: &str, b: &str) -> (r: bool)
    ensures
        r == (a@ == b@),
{
    a.to_owned() == b.to_owned()
}

impl WakeWordKeyword {
    /// Chooses the keyword from what the host probed: whether the custom
    /// model file exists, and the override value if one is set.
    pub fn from_env(model_exists: bool, override_value: Option<&str>) -> (r: WakeWordKeyword)
        ensures
            r == resolve_keyword(model_exists, text_view(override_value)),
    {
        if model_exists {
            return WakeWordKeyword::HiEva;
        }
        match override_value {
            None => WakeWordKeyword::Computer,
            Some(v) => {
                if same_text(v, "alexa") {
                    WakeWordKeyword::Alexa
                } else if same_text(v, "computer") {
                    WakeWordKeyword::Computer
                } else if same_text(v, "jarvis") {
                    WakeWordKeyword::Jarvis
                } else if same_text(v, "hey-google") {
                    WakeWordKeyword::HeyGoogle
                } else if same_text(v, "ok-google") {
                    WakeWordKeyword::OkGoogle
                } else if same_text(v, "picovoice") {
                    WakeWordKeyword::Picovoice
                } else if same_text(v, "porcupine") {
                    WakeWordKeyword::Porcupine
                } else {
                    WakeWordKeyword::Computer
                }
            },
        }
    }

    /// The label shown to users and carried by detection events.
    pub fn as_str(&self) -> (r: &'static str)
        ensures
            r@ == keyword_label(*self),
    {
        match self {
            WakeWordKeyword::HiEva => "Hi Eva",
            WakeWordKeyword::Alexa => "Alexa",
            WakeWordKeyword::Computer => "Computer",
            WakeWordKeyword::Jarvis => "Jarvis",
            WakeWordKeyword::HeyGoogle => "Hey Google",
            WakeWordKeyword::OkGoogle => "Ok Google",
            WakeWordKeyword::Picovoice => "Picovoice",
            WakeWordKeyword::Porcupine => "Porcupine",
        }
    }

    /// The label as an owned string.
    pub fn label(&self) -> (r: String)
        ensures
            r@ == keyword_label(*self),
    {
        String::from_str(self.as_str())
    }

    /// Whether the keyword needs the custom model file rather than a
    /// built-in identifier.
    pub fn is_custom(&self) -> (r: bool)
        ensures
            r == (*self == WakeWordKeyword::HiEva),
    {
        match self {
            WakeWordKeyword::HiEva => true,
            _ => false,
        }
    }
}

} // verus!
