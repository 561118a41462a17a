use vstd::prelude::*;

use crate::audio::player::PlaybackState;

verus! {

/// What the session should be asked after a change of the transport state.
#[derive(Clone, Copy, Debug, PartialEq, Eq, Structural)]
pub enum InhibitRequest {
    /// Leave things as they are.
    Nothing,
    /// Ask the session not to suspend while music plays; the cookie it
    /// answers with goes to [`InhibitController::set_cookie`].
    Inhibit,
    /// Give back the inhibition that this cookie stands for.
    Uninhibit(u32),
}

/// What follows from a transport state for a controller that holds
/// `cookie`: playing asks for an inhibition unless one is held, anything
/// else gives back the one that is held.
pub open spec fn inhibit_request(cookie: u32, state: PlaybackState) -> InhibitRequest {
    if state == PlaybackState::Playing {
        if cookie == 0 {
            InhibitRequest::Inhibit
        } else {
            InhibitRequest::Nothing
        }
    } else if cookie != 0 {
        InhibitRequest::Uninhibit(cookie)
    } else {
        InhibitRequest::Nothing
    }
}

/// Keeps the session from suspending while music plays. It remembers the
/// cookie of the inhibition it holds; zero stands for none.
#[derive(Debug)]
pub struct InhibitController {
    cookie: u32,
}

impl InhibitController {
    /// The cookie of the inhibition that is held, zero for none.
    pub closed spec fn held(self) -> u32 {
        self.cookie
    }

    /// A controller that holds no inhibition.
    pub fn new() -> (r: InhibitController)
        ensures
            r.held() == 0,
    {
        InhibitController { cookie: 0 }
    }

    pub fn cookie(&self) -> (r: u32)
        ensures
            r == self.held(),
    {
        self.cookie
    }

    /// Takes a change of the transport state and says what to ask of the
    /// session. A cookie that is given back is forgotten.
    pub fn set_playback_state(&mut self, playback_state: PlaybackState) -> (r: InhibitRequest)
        ensures
            r == inhibit_request(old(self).held(), playback_state),
            final(self).held() == if playback_state == PlaybackState::Playing {
                old(self).held()
            } else {
                0
            },
    {
        match playback_state {
            PlaybackState::Playing => {
                if self.cookie == 0 {
                    InhibitRequest::Inhibit
                } else {
                    InhibitRequest::Nothing
                }
            },
            _ => {
                let cookie = self.cookie;
                self.cookie = 0;
                if cookie != 0 {
                    InhibitRequest::Uninhibit(cookie)
                } else {
                    InhibitRequest::Nothing
                }
            },
        }
    }

    /// Remembers the cookie that the session answered an inhibition
    /// request with.
    pub fn set_cookie(&mut self, cookie: u32)
        ensures
            final(self).held() == cookie,
    {
        self.cookie = cookie;
    }
}

impl Default for InhibitController {
    fn default() -> (r: InhibitController)
        ensures
            r.held() == 0,
    {
        InhibitController::new()
    }
}

/// However the transport state changes, the controller asks for an
/// inhibition only when it holds none, gives back only the one it holds,
/// and holds none afterwards unless music plays.
pub proof fn law_inhibition_is_never_doubled(cookie: u32, state: PlaybackState)
    ensures
        inhibit_request(cookie, state) == InhibitRequest::Inhibit ==> cookie == 0 && state
            == PlaybackState::Playing,
        forall|c: u32| inhibit_request(cookie, state) == InhibitRequest::Uninhibit(c) ==> c == cookie
            && c != 0 && state != PlaybackState::Playing,
{
}

} // verus!
