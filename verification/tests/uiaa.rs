use std::collections::HashMap;
use std::sync::Mutex;

use push_rules::uiaa::{Data, SessionError};
use ruma::api::client::uiaa::UiaaInfo;
use ruma::{CanonicalJsonValue, DeviceId, UserId};

type Key = (String, String, String);

struct MemoryStore {
    requests: Mutex<HashMap<Key, CanonicalJsonValue>>,
    sessions: Mutex<HashMap<Key, UiaaInfo>>,
}

fn key(user_id: &UserId, device_id: &DeviceId, session: &str) -> Key {
    (user_id.to_string(), device_id.to_string(), session.to_owned())
}

impl Data for MemoryStore {
    fn set_uiaa_request(
        &self,
        user_id: &UserId,
        device_id: &DeviceId,
        session: &str,
        request: &CanonicalJsonValue,
    ) -> Result<(), SessionError> {
        let mut requests = self.requests.lock().map_err(|_| SessionError::Storage)?;
        requests.insert(key(user_id, device_id, session), request.clone());
        Ok(())
    }

    fn get_uiaa_request(
        &self,
        user_id: &UserId,
        device_id: &DeviceId,
        session: &str,
    ) -> Option<CanonicalJsonValue> {
        self.requests.lock().ok()?.get(&key(user_id, device_id, session)).cloned()
    }

    fn update_uiaa_session(
        &self,
        user_id: &UserId,
        device_id: &DeviceId,
        session: &str,
        uiaainfo: Option<&UiaaInfo>,
    ) -> Result<(), SessionError> {
        let mut sessions = self.sessions.lock().map_err(|_| SessionError::Storage)?;
        match uiaainfo {
            Some(info) => sessions.insert(key(user_id, device_id, session), info.clone()),
            None => sessions.remove(&key(user_id, device_id, session)),
        };
        Ok(())
    }

    fn get_uiaa_session(
        &self,
        user_id: &UserId,
        device_id: &DeviceId,
        session: &str,
    ) -> Result<UiaaInfo, SessionError> {
        let sessions = self.sessions.lock().map_err(|_| SessionError::Storage)?;
        sessions.get(&key(user_id, device_id, session)).cloned().ok_or(SessionError::NoSuchSession)
    }
}

#[test]
fn a_backend_keeps_sessions_per_user_device_and_session() {
    let store = MemoryStore {
        requests: Mutex::new(HashMap::new()),
        sessions: Mutex::new(HashMap::new()),
    };
    let alice = <&UserId>::try_from("@alice:example.org").unwrap();
    let bob = <&UserId>::try_from("@bob:example.org").unwrap();
    let device: &DeviceId = "DEVICE".into();
    let request = CanonicalJsonValue::String("register".to_owned());

    assert!(store.get_uiaa_request(alice, device, "s1").is_none());
    assert_eq!(store.set_uiaa_request(alice, device, "s1", &request), Ok(()));
    assert_eq!(store.get_uiaa_request(alice, device, "s1"), Some(request));
    assert!(store.get_uiaa_request(bob, device, "s1").is_none());
    assert!(store.get_uiaa_request(alice, device, "s2").is_none());

    assert_eq!(store.get_uiaa_session(alice, device, "s1").err(), Some(SessionError::NoSuchSession));
    let params = serde_json::value::RawValue::from_string("{}".to_owned()).unwrap();
    let mut info = UiaaInfo::new(Vec::new(), params);
    info.session = Some("s1".to_owned());
    assert_eq!(store.update_uiaa_session(alice, device, "s1", Some(&info)), Ok(()));
    let kept = store.get_uiaa_session(alice, device, "s1").unwrap();
    assert_eq!(kept.session.as_deref(), Some("s1"));
    assert_eq!(store.update_uiaa_session(alice, device, "s1", None), Ok(()));
    assert_eq!(store.get_uiaa_session(alice, device, "s1").err(), Some(SessionError::NoSuchSession));
}
