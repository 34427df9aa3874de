//! The navigator's list of gamepads.
use vstd::prelude::*;
use crate::navigation::{resolve_url, resolved_url, DomError};

verus! {

/// A connected gamepad, as the navigator holds it.
#[derive(Clone, Copy, Debug, PartialEq, Eq, Structural)]
pub struct Gamepad {
    pub id: u64,
    /// Exposed to script once the user has made a gamepad gesture.
    pub exposed: bool,
}

/// The window's XR system, by id.
#[derive(Clone, Copy, Debug, PartialEq, Eq, Structural)]
pub struct XRSystem {
    pub id: u64,
}

/// `slots` without its trailing empty slots.
pub open spec fn trimmed(slots: Seq<Option<Gamepad>>) -> Seq<Option<Gamepad>>
    decreases slots.len(),
{
    if slots.len() == 0 {
        slots
    } else if slots.last() is None {
        trimmed(slots.drop_last())
    } else {
        slots
    }
}

pub struct Navigator {
    pub xr: Option<XRSystem>,
    /// Gamepad slots, by gamepad index; an empty slot is free.
    pub gamepads: Vec<Option<Gamepad>>,
    pub has_gamepad_gesture: bool,
}

impl Navigator {
    fn new_inherited() -> (r: Navigator)
        ensures
            r.xr.is_none(),
            r.gamepads@.len() == 0,
            !r.has_gamepad_gesture,
    {
        Navigator { xr: None, gamepads: Vec::new(), has_gamepad_gesture: false }
    }

    pub fn new() -> (r: Navigator)
        ensures
            r.xr.is_none(),
            r.gamepads@.len() == 0,
            !r.has_gamepad_gesture,
    {
        Navigator::new_inherited()
    }

    pub fn xr(&self) -> (r: Option<XRSystem>)
        ensures
            r == self.xr,
    {
        self.xr
    }

    /// The gamepad in slot `index`, if the slot exists and holds one.
    pub fn get_gamepad(&self, index: usize) -> (r: Option<Gamepad>)
        ensures
            index < self.gamepads@.len() ==> r == self.gamepads@[index as int],
            index >= self.gamepads@.len() ==> r is None,
    {
        if index < self.gamepads.len() {
            self.gamepads[index]
        } else {
            None
        }
    }

    /// Puts `gamepad` in slot `index`, where the slot exists; after a gamepad gesture the
    /// gamepad is exposed. Returns whether a "connected" event is due: after a gesture, in a
    /// fully active document.
    pub fn set_gamepad(&mut self, index: usize, gamepad: Gamepad, document_fully_active: bool) -> (r:
        bool)
        ensures
            r == (old(self).has_gamepad_gesture && document_fully_active),
            final(self).has_gamepad_gesture == old(self).has_gamepad_gesture,
            final(self).xr == old(self).xr,
            index < old(self).gamepads@.len() ==> final(self).gamepads@ == old(self).gamepads@.update(
                index as int,
                Some(Gamepad { exposed: gamepad.exposed || old(self).has_gamepad_gesture, ..gamepad }),
            ),
            index >= old(self).gamepads@.len() ==> final(self).gamepads@ == old(self).gamepads@,
    {
        let mut gamepad = gamepad;
        if self.has_gamepad_gesture {
            gamepad.exposed = true;
        }
        if index < self.gamepads.len() {
            self.gamepads.set(index, Some(gamepad));
        }
        self.has_gamepad_gesture && document_fully_active
    }

    /// Empties slot `index`, where it exists, then drops the trailing empty slots.
    pub fn remove_gamepad(&mut self, index: usize)
        ensures
            index < old(self).gamepads@.len() ==> final(self).gamepads@ == trimmed(
                old(self).gamepads@.update(index as int, None),
            ),
            index >= old(self).gamepads@.len() ==> final(self).gamepads@ == trimmed(
                old(self).gamepads@,
            ),
            final(self).has_gamepad_gesture == old(self).has_gamepad_gesture,
            final(self).xr == old(self).xr,
    {
        if index < self.gamepads.len() {
            self.gamepads.set(index, None);
        }
        self.shrink_gamepads_list();
    }

    /// Selects an unused gamepad index: the first empty slot, or else a new slot at the end.
    pub fn select_gamepad_index(&mut self) -> (r: u32)
        requires
            old(self).gamepads@.len() < u32::MAX,
        ensures
            r <= old(self).gamepads@.len(),
            r < final(self).gamepads@.len(),
            final(self).gamepads@[r as int] is None,
            forall|j: int| 0 <= j < r ==> (#[trigger] old(self).gamepads@[j]) is Some,
            r < old(self).gamepads@.len() ==> final(self).gamepads@ == old(self).gamepads@,
            r == old(self).gamepads@.len() ==> final(self).gamepads@ == old(self).gamepads@.push(None),
            final(self).has_gamepad_gesture == old(self).has_gamepad_gesture,
            final(self).xr == old(self).xr,
    {
        let mut i: usize = 0;
        while i < self.gamepads.len()
            invariant
                i <= self.gamepads@.len(),
                *self == *old(self),
                self.gamepads@.len() < u32::MAX,
                forall|j: int| 0 <= j < i ==> (#[trigger] self.gamepads@[j]) is Some,
            decreases self.gamepads@.len() - i,
        {
            if self.gamepads[i].is_none() {
                assert(i < u32::MAX);
                assert((i as u32) as int == i as int);
                return i as u32;
            }
            i += 1;
        }
        let len = self.gamepads.len();
        self.gamepads.push(None);
        len as u32
    }

    /// Drops the trailing empty slots.
    fn shrink_gamepads_list(&mut self)
        ensures
            final(self).gamepads@ == trimmed(old(self).gamepads@),
            final(self).has_gamepad_gesture == old(self).has_gamepad_gesture,
            final(self).xr == old(self).xr,
    {
        while self.gamepads.len() > 0 && self.gamepads[self.gamepads.len() - 1].is_none()
            invariant
                trimmed(self.gamepads@) == trimmed(old(self).gamepads@),
                self.has_gamepad_gesture == old(self).has_gamepad_gesture,
                self.xr == old(self).xr,
            decreases self.gamepads@.len(),
        {
            let ghost before = self.gamepads@;
            self.gamepads.pop();
            assert(self.gamepads@ == before.drop_last());
        }
    }

    /// The gamepad slots, as script sees them: empty until a gamepad gesture, or where the
    /// document is not fully active.
    pub fn get_gamepads(&self, document_fully_active: bool) -> (r: Vec<Option<Gamepad>>)
        ensures
            !document_fully_active || !self.has_gamepad_gesture ==> r@.len() == 0,
            document_fully_active && self.has_gamepad_gesture ==> r@ == self.gamepads@,
    {
        let mut out: Vec<Option<Gamepad>> = Vec::new();
        if !document_fully_active || !self.has_gamepad_gesture {
            return out;
        }
        let mut i: usize = 0;
        while i < self.gamepads.len()
            invariant
                i <= self.gamepads@.len(),
                out@ == self.gamepads@.subrange(0, i as int),
            decreases self.gamepads@.len() - i,
        {
            out.push(self.gamepads[i]);
            assert(out@ =~= self.gamepads@.subrange(0, i + 1));
            i += 1;
        }
        assert(out@ =~= self.gamepads@);
        out
    }

    pub fn has_gamepad_gesture(&self) -> (r: bool)
        ensures
            r == self.has_gamepad_gesture,
    {
        self.has_gamepad_gesture
    }

    pub fn set_has_gamepad_gesture(&mut self, has_gamepad_gesture: bool)
        ensures
            final(self).has_gamepad_gesture == has_gamepad_gesture,
            final(self).gamepads == old(self).gamepads,
            final(self).xr == old(self).xr,
    {
        self.has_gamepad_gesture = has_gamepad_gesture;
    }
}


/// The largest body, in bytes, that a beacon may carry.
pub const MAX_BEACON_BODY_SIZE: u64 = 65536;

/// The data handed to `sendBeacon`, as extraction left it. Whether its content type is a
/// CORS-safelisted value of `Content-Type` is decided outside.
pub struct BeaconData {
    pub is_readable_stream: bool,
    pub total_bytes: Option<u64>,
    pub content_type: Option<String>,
    pub content_type_safelisted: bool,
}

/// The mode of the request that carries a beacon.
#[derive(Clone, Copy, Debug, PartialEq, Eq, Structural)]
pub enum RequestMode {
    NoCors,
    CorsMode,
}

/// The request that `sendBeacon` queues.
pub struct BeaconRequest {
    pub url: String,
    pub mode: RequestMode,
    pub content_type: Option<String>,
    pub has_body: bool,
}

/// The scheme is "http" or "https".
pub open spec fn http_scheme(scheme: Seq<char>) -> bool {
    scheme == "http"@ || scheme == "https"@
}

/// The decisions of `sendBeacon`: fails with a type error where `url` does not resolve against
/// `base_url`, its scheme is not HTTP(S), or the data is a readable stream; returns no request
/// (the call returns false) where the body is over 64 KiB; otherwise the request to queue,
/// in CORS mode where the data has a content type that is not safelisted.
pub fn send_beacon(base_url: &str, url: &str, data: Option<BeaconData>) -> (r: Result<Option<BeaconRequest>, DomError>)
    ensures
        resolved_url(base_url@, url@) is None ==> r is Err && r->Err_0 == DomError::Type,
        resolved_url(base_url@, url@) matches Some(p) ==> if !http_scheme(p.1) {
            r is Err && r->Err_0 == DomError::Type
        } else {
            match data {
                None => r matches Ok(Some(req)) && req.url@ == p.0 && req.mode == RequestMode::NoCors
                    && req.content_type is None && !req.has_body,
                Some(d) => if d.is_readable_stream {
                    r is Err && r->Err_0 == DomError::Type
                } else if d.total_bytes matches Some(n) && n > 65536 {
                    r matches Ok(None)
                } else {
                    r matches Ok(Some(req)) && req.url@ == p.0 && req.has_body && req.content_type == d.content_type
                        && req.mode == (if d.content_type is Some && !d.content_type_safelisted {
                        RequestMode::CorsMode
                    } else {
                        RequestMode::NoCors
                    })
                },
            }
        },
{
    let (parsed, scheme) = match resolve_url(base_url, url) {
        Some(p) => p,
        None => return Err(DomError::Type),
    };
    let http = "http".to_owned();
    let https = "https".to_owned();
    if scheme != http && scheme != https {
        return Err(DomError::Type);
    }
    match data {
        None => Ok(Some(BeaconRequest { url: parsed, mode: RequestMode::NoCors, content_type: None, has_body: false })),
        Some(d) => {
            if d.is_readable_stream {
                return Err(DomError::Type);
            }
            match d.total_bytes {
                Some(n) => {
                    if n > MAX_BEACON_BODY_SIZE {
                        return Ok(None);
                    }
                },
                None => {},
            }
            let mode = if d.content_type.is_some() && !d.content_type_safelisted {
                RequestMode::CorsMode
            } else {
                RequestMode::NoCors
            };
            Ok(Some(BeaconRequest { url: parsed, mode, content_type: d.content_type, has_body: true }))
        },
    }
}

} // verus!
