use vstd::prelude::*;
use crate::aead::AeadKey;
use crate::user::User;

verus! {

/// What the registry holds for a session: its user and its AEAD key.
pub struct SessionPayload {
    pub payload: User,
    pub less_safe_key: Option<AeadKey>,
}

impl SessionPayload {
    pub fn new(payload: User, less_safe_key: Option<AeadKey>) -> (r: SessionPayload)
        ensures
            r.payload == payload,
            r.less_safe_key == less_safe_key,
    {
        SessionPayload { payload, less_safe_key }
    }

    pub fn less_safe_key(&self) -> (r: Option<AeadKey>)
        ensures
            r == self.less_safe_key,
    {
        self.less_safe_key
    }
}

} // verus!
