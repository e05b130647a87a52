//! The store of interactive authentication sessions, as an interface.
//!
//! A session belongs to one device of one user and is named by a session id.
//! The store keeps, per session, the request that started it, as opaque JSON,
//! and how far the session has come. The rule store makes no use of it; the
//! interface stands here because both are kept in the same per-user storage.
use vstd::prelude::*;

verus! {

/// `ruma::UserId`: the id of a user.
#[verifier::external_type_specification]
#[verifier::external_body]
pub struct ExUserId(ruma::UserId);

/// `ruma::DeviceId`: the id of a device of a user.
#[verifier::external_type_specification]
#[verifier::external_body]
pub struct ExDeviceId(ruma::DeviceId);

/// `ruma::CanonicalJsonValue`: a JSON value in canonical form.
#[verifier::external_type_specification]
#[verifier::external_body]
pub struct ExCanonicalJsonValue(ruma::CanonicalJsonValue);

/// `ruma::api::client::uiaa::UiaaInfo`: the progress of a session.
#[verifier::external_type_specification]
#[verifier::external_body]
pub struct ExUiaaInfo(ruma::api::client::uiaa::UiaaInfo);

/// Why the session store could not do what it was asked.
#[derive(Clone, Copy, Debug, PartialEq, Eq, Structural)]
pub enum SessionError {
    /// There is no such session.
    NoSuchSession,
    /// The storage below failed.
    Storage,
}

/// What a backend must offer to keep authentication sessions. Nothing is
/// promised of what a backend returns: it answers from its storage.
pub trait Data {
    /// Keeps the request that started the session.
    fn set_uiaa_request(
        &self,
        user_id: &ruma::UserId,
        device_id: &ruma::DeviceId,
        session: &str,
        request: &ruma::CanonicalJsonValue,
    ) -> Result<(), SessionError>;

    /// The request that started the session, if one was kept.
    fn get_uiaa_request(
        &self,
        user_id: &ruma::UserId,
        device_id: &ruma::DeviceId,
        session: &str,
    ) -> Option<ruma::CanonicalJsonValue>;

    /// Keeps the progress of the session, or ends the session where there is
    /// none to keep.
    fn update_uiaa_session(
        &self,
        user_id: &ruma::UserId,
        device_id: &ruma::DeviceId,
        session: &str,
        uiaainfo: Option<&ruma::api::client::uiaa::UiaaInfo>,
    ) -> Result<(), SessionError>;

    /// The progress of the session.
    fn get_uiaa_session(
        &self,
        user_id: &ruma::UserId,
        device_id: &ruma::DeviceId,
        session: &str,
    ) -> Result<ruma::api::client::uiaa::UiaaInfo, SessionError>;
}

} // verus!
