//! Screen-capture portal session data.
//!
//! On freedesktop systems the capture stream is negotiated through
//! the desktop portal, which answers with a stream node id, a
//! session handle, an optional restore token and the stream size.
//! The platform layer parses the portal's reply into plain fields;
//! validating them into a session is done here.

use vstd::prelude::*;

verus! {

/// A granted screen-capture portal session.
pub struct ScreencastSession {
    /// Stream node id for the capture source.
    pub node_id: u32,
    /// Session handle, needed to close the session.
    pub session_handle: String,
    /// Token that can skip the permission dialog next time; may be
    /// empty.
    pub restore_token: String,
    /// Stream width, if the portal reported it.
    pub width: Option<u32>,
    /// Stream height, if the portal reported it.
    pub height: Option<u32>,
}

/// Outcome of validating a portal reply.
pub enum PortalReply {
    /// The portal granted a stream.
    Granted(ScreencastSession),
    /// The portal answered with an error: permission denied, user
    /// cancellation, or a missing stream.
    Refused(String),
}

impl PortalReply {
    pub open spec fn is_granted(self) -> bool {
        self is Granted
    }
}

/// Validate the fields of a portal reply. An error message refuses
/// the session; a missing node id refuses it too, since nothing can
/// be captured without one. Handle and token default to empty, the
/// size is kept only when both edges were reported.
pub fn session_from_fields(
    error: Option<String>,
    node_id: Option<u32>,
    session_handle: Option<String>,
    restore_token: Option<String>,
    width: Option<u32>,
    height: Option<u32>,
) -> (r: PortalReply)
    ensures
        r.is_granted() <==> error is None && node_id is Some,
        r matches PortalReply::Granted(s) ==> {
            &&& Some(s.node_id) == node_id
            &&& (session_handle is Some ==> Some(s.session_handle) == session_handle)
            &&& (session_handle is None ==> s.session_handle@.len() == 0)
            &&& (restore_token is Some ==> Some(s.restore_token) == restore_token)
            &&& (restore_token is None ==> s.restore_token@.len() == 0)
            &&& (width is Some && height is Some ==> s.width == width && s.height == height)
            &&& (!(width is Some && height is Some) ==> s.width is None && s.height is None)
        },
        r matches PortalReply::Refused(m) ==> {
            &&& (error is Some ==> m == error->0)
            &&& (error is None ==> m@ == "portal reply carries no stream node"@)
        },
{
    if let Some(message) = error {
        return PortalReply::Refused(message);
    }
    let node = match node_id {
        Some(n) => n,
        None => {
            return PortalReply::Refused(String::from_str("portal reply carries no stream node"));
        },
    };
    let handle = match session_handle {
        Some(h) => h,
        None => String::new(),
    };
    let token = match restore_token {
        Some(t) => t,
        None => String::new(),
    };
    let (w, h) = if width.is_some() && height.is_some() {
        (width, height)
    } else {
        (None, None)
    };
    PortalReply::Granted(
        ScreencastSession {
            node_id: node,
            session_handle: handle,
            restore_token: token,
            width: w,
            height: h,
        },
    )
}

} // verus!
