use vstd::prelude::*;
use vstd::string::StringExecFns;
use crate::error::RealtimeError;

verus! {

/// Connection summary reported to the host.
#[derive(Debug, Clone, PartialEq, Eq)]
pub struct RealtimeStatus {
    pub api_key: String,
    pub connected: bool,
    pub session_id: Option<String>,
}

/// Session description carried by a session-created event.
#[derive(Debug, Clone, PartialEq, Eq)]
pub struct SessionInfo {
    pub id: String,
    pub model: String,
    pub modalities: Vec<String>,
    pub voice: String,
}

/// Error description carried by an error event; `error_type` is the
/// service's error type name.
#[derive(Debug, Clone, PartialEq, Eq)]
pub struct ErrorInfo {
    pub message: String,
    pub error_type: String,
    pub code: Option<String>,
}

/// Events relayed from the realtime speech service to the host.
#[derive(Debug, Clone, PartialEq, Eq)]
pub enum OpenAIEvent {
    SessionCreated { session: SessionInfo },
    ResponseTextDelta { delta: String },
    ResponseTextDone { text: String },
    ResponseAudioDelta { delta: String },
    ResponseAudioDone { item_id: String },
    Error { error: ErrorInfo },
}

/// Label of a configured key in the status.
pub open spec fn configured_label() -> Seq<char> {
    "✅ Configured"@
}

/// Label of an empty key in the status.
pub open spec fn missing_label() -> Seq<char> {
    "❌ Missing"@
}

/// The text with leading and trailing white space removed.
pub uninterp spec fn trimmed_text(s: Seq<char>) -> Seq<char>;

/// Relies on `str::trim`: the text without leading and trailing white
/// space, a function of the text alone; an empty text stays empty.
#[verifier::external_body]
fn trim_text(s: &str) -> (r: &str)
    ensures
        r@ == trimmed_text(s@),
        s@.len() == 0 ==> r@.len() == 0,
{
    s.trim()
}

/// Connection bookkeeping of the realtime speech service; the transport
/// itself is run by the host.
pub struct OpenAIRealtimeService {
    api_key: Option<String>,
    session_id: Option<String>,
    connected: bool,
}

impl OpenAIRealtimeService {
    pub closed spec fn key(&self) -> Option<Seq<char>> {
        match self.api_key {
            Some(k) => Some(k@),
            None => None,
        }
    }

    pub closed spec fn session(&self) -> Option<Seq<char>> {
        match self.session_id {
            Some(k) => Some(k@),
            None => None,
        }
    }

    pub closed spec fn connected(&self) -> bool {
        self.connected
    }

    /// Disconnected, with no key and no session.
    pub fn new() -> (r: OpenAIRealtimeService)
        ensures
            r.key() is None,
            r.session() is None,
            !r.connected(),
    {
        OpenAIRealtimeService { api_key: None, session_id: None, connected: false }
    }

    /// The API key: the cached one, else the environment's value `env_value`
    /// unless it is missing or blank, which is then cached.
    pub fn get_api_key(&mut self, env_value: Option<String>) -> (r: Result<String, RealtimeError>)
        ensures
            final(self).connected() == old(self).connected(),
            final(self).session() == old(self).session(),
            old(self).key() is Some ==> r is Ok && r->Ok_0@ == old(self).key()->0 && final(self).key() == old(self).key(),
            old(self).key() is None && env_value is None ==> r is Err && r->Err_0 == RealtimeError::ApiKey(r->Err_0->ApiKey_0)
                && r->Err_0->ApiKey_0@ == "OPENAI_API_KEY environment variable not found"@ && final(self).key() is None,
            old(self).key() is None && env_value is Some && trimmed_text(env_value->0@).len() == 0 ==> r is Err
                && r->Err_0 == RealtimeError::ApiKey(r->Err_0->ApiKey_0)
                && r->Err_0->ApiKey_0@ == "OPENAI_API_KEY environment variable is empty"@ && final(self).key() is None,
            old(self).key() is None && env_value is Some && trimmed_text(env_value->0@).len() > 0 ==> r is Ok
                && r->Ok_0@ == env_value->0@ && final(self).key() == Some(env_value->0@),
    {
        if let Some(k) = &self.api_key {
            return Ok(k.clone());
        }
        match env_value {
            None => Err(RealtimeError::ApiKey(String::from_str("OPENAI_API_KEY environment variable not found"))),
            Some(k) => {
                if trim_text(k.as_str()).is_empty() {
                    return Err(RealtimeError::ApiKey(String::from_str("OPENAI_API_KEY environment variable is empty")));
                }
                self.api_key = Some(k.clone());
                Ok(k)
            },
        }
    }

    /// Validates the key taken from the environment and marks the service
    /// connected; the host opens the transport.
    pub fn connect(&mut self, env_value: Option<String>) -> (r: Result<(), RealtimeError>)
        ensures
            final(self).session() == old(self).session(),
            env_value is None ==> r is Err && r->Err_0 == RealtimeError::ApiKey(r->Err_0->ApiKey_0)
                && r->Err_0->ApiKey_0@ == "OPENAI_API_KEY not found"@
                && final(self).key() == old(self).key() && final(self).connected() == old(self).connected(),
            env_value is Some && env_value->0@.len() == 0 ==> r is Err && r->Err_0 == RealtimeError::ApiKey(r->Err_0->ApiKey_0)
                && r->Err_0->ApiKey_0@ == "API key is empty"@
                && final(self).key() == old(self).key() && final(self).connected() == old(self).connected(),
            env_value is Some && env_value->0@.len() > 0 ==> r is Ok && final(self).key() == Some(env_value->0@)
                && final(self).connected(),
    {
        match env_value {
            None => Err(RealtimeError::ApiKey(String::from_str("OPENAI_API_KEY not found"))),
            Some(k) => {
                if k.as_str().is_empty() {
                    return Err(RealtimeError::ApiKey(String::from_str("API key is empty")));
                }
                self.api_key = Some(k);
                self.connected = true;
                Ok(())
            },
        }
    }

    /// Text is sent by the host's transport; nothing to decide here.
    pub fn send_text(&self, _text: &str) -> (r: Result<(), RealtimeError>)
        ensures
            r is Ok,
    {
        Ok(())
    }

    /// Audio is sent by the host's transport; nothing to decide here.
    pub fn send_audio(&self, _audio_base64: &str) -> (r: Result<(), RealtimeError>)
        ensures
            r is Ok,
    {
        Ok(())
    }

    /// Committing audio is done by the host's transport.
    pub fn commit_audio(&self) -> (r: Result<(), RealtimeError>)
        ensures
            r is Ok,
    {
        Ok(())
    }

    /// Interrupting a response is done by the host's transport.
    pub fn interrupt(&self) -> (r: Result<(), RealtimeError>)
        ensures
            r is Ok,
    {
        Ok(())
    }

    /// Marks the service disconnected and forgets the session.
    pub fn disconnect(&mut self) -> (r: Result<(), RealtimeError>)
        ensures
            r is Ok,
            !final(self).connected(),
            final(self).session() is None,
            final(self).key() == old(self).key(),
    {
        self.connected = false;
        self.session_id = None;
        Ok(())
    }

    /// Whether the service is marked connected.
    pub fn is_connected(&self) -> (r: bool)
        ensures
            r == self.connected(),
    {
        self.connected
    }

    /// The status for the host, from the environment's key value
    /// `env_value`: an error when the key is not set, otherwise whether it
    /// is configured or empty, the connection flag and the session.
    pub fn get_status(&self, env_value: Option<String>) -> (r: Result<RealtimeStatus, RealtimeError>)
        ensures
            env_value is None ==> r is Err && r->Err_0 == RealtimeError::ApiKey(r->Err_0->ApiKey_0)
                && r->Err_0->ApiKey_0@ == "OPENAI_API_KEY not found in environment"@,
            env_value is Some ==> r is Ok
                && r->Ok_0.api_key@ == (if env_value->0@.len() == 0 { missing_label() } else { configured_label() })
                && r->Ok_0.connected == self.connected()
                && (match r->Ok_0.session_id { Some(s) => Some(s@), None => None::<Seq<char>> }) == self.session(),
    {
        match env_value {
            None => Err(RealtimeError::ApiKey(String::from_str("OPENAI_API_KEY not found in environment"))),
            Some(k) => {
                let label = if k.as_str().is_empty() {
                    String::from_str("❌ Missing")
                } else {
                    String::from_str("✅ Configured")
                };
                let session_id = match &self.session_id {
                    Some(s) => Some(s.clone()),
                    None => None,
                };
                Ok(RealtimeStatus { api_key: label, connected: self.connected, session_id })
            },
        }
    }
}

} // verus!
