use vstd::prelude::*;
use vstd::string::StringExecFns;
use crate::error::WakeWordError;

verus! {

/// The controller's state: whether a session is active and the access key
/// cached for this process, if resolved.
pub struct ControlModel {
    pub listening: bool,
    pub key: Option<Seq<char>>,
}

/// Outcome of a start request, given the outcome of building the session
/// (credential, engine, workers).
pub open spec fn start_result(m: ControlModel, setup: Result<(), WakeWordError>) -> Result<(), WakeWordError> {
    if m.listening {
        Err(WakeWordError::AlreadyListening)
    } else {
        setup
    }
}

/// State after a start request.
pub open spec fn start_model(m: ControlModel, setup: Result<(), WakeWordError>) -> ControlModel {
    if !m.listening && setup is Ok {
        ControlModel { listening: true, ..m }
    } else {
        m
    }
}

/// Outcome of a stop request.
pub open spec fn stop_result(m: ControlModel) -> Result<(), WakeWordError> {
    if m.listening {
        Ok(())
    } else {
        Err(WakeWordError::NotListening)
    }
}

/// State after a stop request.
pub open spec fn stop_model(m: ControlModel) -> ControlModel {
    ControlModel { listening: false, ..m }
}

/// A credential value that can be used: present and not empty.
pub open spec fn usable(v: Option<String>) -> bool {
    v is Some && v->0@.len() > 0
}

/// The message of a missing access key.
pub open spec fn missing_key_message() -> Seq<char> {
    "No access key found. Please set PV_ACCESS_KEY environment variable or store in keychain"@
}

/// A resolved access key; `persist` asks the host to save it to the secure
/// store.
#[derive(Debug, Clone, PartialEq, Eq)]
pub struct AccessKey {
    pub key: String,
    pub persist: bool,
}

/// The listener's control plane: at most one session at a time, and the
/// access key resolved once per process.
pub struct PorcupineService {
    listening: bool,
    access_key: Option<String>,
}

impl PorcupineService {
    pub closed spec fn view(&self) -> ControlModel {
        ControlModel {
            listening: self.listening,
            key: match self.access_key {
                Some(k) => Some(k@),
                None => None,
            },
        }
    }

    /// Not listening, no key resolved.
    pub fn new() -> (r: PorcupineService)
        ensures
            r.view() == (ControlModel { listening: false, key: None }),
    {
        PorcupineService { listening: false, access_key: None }
    }

    /// Whether a session is active.
    pub fn is_listening(&self) -> (r: bool)
        ensures
            r == self.view().listening,
    {
        self.listening
    }

    /// The first step of a start: refuses while a session is active, before
    /// anything is built.
    pub fn check_can_start(&self) -> (r: Result<(), WakeWordError>)
        ensures
            r == start_result(self.view(), Ok(())),
    {
        if self.listening {
            Err(WakeWordError::AlreadyListening)
        } else {
            Ok(())
        }
    }

    /// Records a start request whose session was built with outcome
    /// `setup`: refused while a session is active, failed with the setup's
    /// error (leaving the controller stopped), or listening.
    pub fn start_listening(&mut self, setup: Result<(), WakeWordError>) -> (r: Result<(), WakeWordError>)
        ensures
            r == start_result(old(self).view(), setup),
            final(self).view() == start_model(old(self).view(), setup),
    {
        if self.listening {
            return Err(WakeWordError::AlreadyListening);
        }
        if setup.is_ok() {
            self.listening = true;
        }
        setup
    }

    /// Stops the active session: on `Ok` the host clears the running flag
    /// and sends the stop signal. Without a session it fails and changes
    /// nothing.
    pub fn stop_listening(&mut self) -> (r: Result<(), WakeWordError>)
        ensures
            r == stop_result(old(self).view()),
            final(self).view() == (if old(self).view().listening { stop_model(old(self).view()) } else { old(self).view() }),
    {
        if !self.listening {
            return Err(WakeWordError::NotListening);
        }
        self.listening = false;
        Ok(())
    }

    /// The worker ended the session on its own (capture ended, fatal error).
    pub fn session_ended(&mut self)
        ensures
            final(self).view() == stop_model(old(self).view()),
    {
        self.listening = false;
    }

    /// Teardown of the controller: the host then clears the running flag
    /// and sends the stop signal whether or not a stop was requested.
    pub fn shutdown(&mut self)
        ensures
            final(self).view() == stop_model(old(self).view()),
    {
        self.listening = false;
    }

    /// Whether a key is cached, so that the secure store need not be asked.
    pub fn has_cached_key(&self) -> (r: bool)
        ensures
            r == self.view().key is Some,
    {
        self.access_key.is_some()
    }

    /// Resolves the access key: the cached one if any; else the value from
    /// the secure store; else the environment's value, which the host is
    /// then asked to persist. Empty values count as missing. The resolved
    /// key is cached.
    pub fn resolve_access_key(&mut self, stored: Option<String>, env_value: Option<String>) -> (r: Result<AccessKey, WakeWordError>)
        ensures
            final(self).view().listening == old(self).view().listening,
            old(self).view().key is Some ==> r is Ok && r->Ok_0.key@ == old(self).view().key->0
                && !r->Ok_0.persist && final(self).view() == old(self).view(),
            old(self).view().key is None && usable(stored) ==> r is Ok && r->Ok_0.key@ == stored->0@
                && !r->Ok_0.persist && final(self).view().key == Some(stored->0@),
            old(self).view().key is None && !usable(stored) && usable(env_value) ==> r is Ok
                && r->Ok_0.key@ == env_value->0@ && r->Ok_0.persist
                && final(self).view().key == Some(env_value->0@),
            old(self).view().key is None && !usable(stored) && !usable(env_value) ==> r is Err
                && r->Err_0 == WakeWordError::AccessKey(r->Err_0->AccessKey_0)
                && r->Err_0->AccessKey_0@ == missing_key_message() && final(self).view() == old(self).view(),
    {
        if let Some(k) = &self.access_key {
            return Ok(AccessKey { key: k.clone(), persist: false });
        }
        if let Some(k) = stored {
            if !k.as_str().is_empty() {
                self.access_key = Some(k.clone());
                return Ok(AccessKey { key: k, persist: false });
            }
        }
        if let Some(k) = env_value {
            if !k.as_str().is_empty() {
                self.access_key = Some(k.clone());
                return Ok(AccessKey { key: k, persist: true });
            }
        }
        Err(WakeWordError::AccessKey(String::from_str(
            "No access key found. Please set PV_ACCESS_KEY environment variable or store in keychain",
        )))
    }
}

/// A second start without a stop in between is refused with
/// `AlreadyListening` and leaves the controller as the first start left it:
/// no second session is built.
pub proof fn lemma_no_double_start(m: ControlModel, first: Result<(), WakeWordError>, second: Result<(), WakeWordError>)
    requires
        start_result(m, first) is Ok,
    ensures
        start_result(start_model(m, first), second) == Err::<(), WakeWordError>(WakeWordError::AlreadyListening),
        start_model(start_model(m, first), second) == start_model(m, first),
{
}

/// Stopping a stopped controller is refused with `NotListening` and changes
/// nothing; in particular a second stop after a successful one is refused.
pub proof fn lemma_idempotent_stop(m: ControlModel)
    ensures
        !m.listening ==> stop_result(m) == Err::<(), WakeWordError>(WakeWordError::NotListening)
            && stop_model(m) == m,
        stop_result(stop_model(m)) == Err::<(), WakeWordError>(WakeWordError::NotListening),
        stop_model(stop_model(m)) == stop_model(m),
{
}

} // verus!
