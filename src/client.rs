//! What the secure session is built from: the credential material, each
//! buffer terminated by the sentinel byte, and the client configuration.
use vstd::prelude::*;
use crate::credential::{with_sentinel, SENTINEL};

verus! {

/// Keep-alive interval of the session, in seconds.
pub const KEEP_ALIVE_SECS: u64 = 60;

/// The mathematical value of a `CredentialMaterial`.
pub ghost struct CredentialView {
    pub root_ca: Seq<u8>,
    pub device_cert: Seq<u8>,
    pub private_key: Seq<u8>,
}

/// True when `b` is a buffer that the transport can read: it ends in the sentinel.
pub open spec fn terminated(b: Seq<u8>) -> bool {
    b.len() > 0 && b.last() == SENTINEL
}

/// The three credential buffers: root authority certificate, device
/// certificate and device private key, each ending in the sentinel byte.
pub struct CredentialMaterial {
    root_ca: Vec<u8>,
    device_cert: Vec<u8>,
    private_key: Vec<u8>,
}

impl View for CredentialMaterial {
    type V = CredentialView;

    closed spec fn view(&self) -> CredentialView {
        CredentialView {
            root_ca: self.root_ca@,
            device_cert: self.device_cert@,
            private_key: self.private_key@,
        }
    }
}

impl CredentialMaterial {
    /// Every buffer ends in the sentinel byte.
    pub open spec fn wf(&self) -> bool {
        terminated(self@.root_ca) && terminated(self@.device_cert) && terminated(
            self@.private_key,
        )
    }

    /// Loads the three raw PEM resources, appending the sentinel byte to each.
    /// The PEM text itself is not checked.
    pub fn load(root_ca: Vec<u8>, device_cert: Vec<u8>, private_key: Vec<u8>) -> (r:
        CredentialMaterial)
        ensures
            r@.root_ca == root_ca@.push(SENTINEL),
            r@.device_cert == device_cert@.push(SENTINEL),
            r@.private_key == private_key@.push(SENTINEL),
            r.wf(),
    {
        CredentialMaterial {
            root_ca: with_sentinel(root_ca),
            device_cert: with_sentinel(device_cert),
            private_key: with_sentinel(private_key),
        }
    }

    pub fn root_ca(&self) -> (r: &[u8])
        ensures
            r@ == self@.root_ca,
    {
        self.root_ca.as_slice()
    }

    pub fn device_cert(&self) -> (r: &[u8])
        ensures
            r@ == self@.device_cert,
    {
        self.device_cert.as_slice()
    }

    pub fn private_key(&self) -> (r: &[u8])
        ensures
            r@ == self@.private_key,
    {
        self.private_key.as_slice()
    }

    /// Hands over the three buffers, in the order root authority, device
    /// certificate, private key, to be kept for the life of the process.
    pub fn into_buffers(self) -> (r: (Vec<u8>, Vec<u8>, Vec<u8>))
        requires
            self.wf(),
        ensures
            r.0@ == self@.root_ca,
            r.1@ == self@.device_cert,
            r.2@ == self@.private_key,
            terminated(r.0@),
            terminated(r.1@),
            terminated(r.2@),
    {
        (self.root_ca, self.device_cert, self.private_key)
    }
}

/// The client configuration of the session: client identifier, broker URL,
/// keep-alive interval and credentials. Built once, never changed.
pub struct SessionConfig {
    pub url: String,
    pub client_id: String,
    pub keep_alive_secs: u64,
    pub credentials: CredentialMaterial,
}

impl SessionConfig {
    /// The configuration for the broker at `url`, with the fixed keep-alive.
    pub fn new(url: &str, client_id: &str, credentials: CredentialMaterial) -> (r: SessionConfig)
        ensures
            r.url@ == url@,
            r.client_id@ == client_id@,
            r.keep_alive_secs == KEEP_ALIVE_SECS,
            r.credentials@ == credentials@,
    {
        SessionConfig {
            url: url.to_string(),
            client_id: client_id.to_string(),
            keep_alive_secs: KEEP_ALIVE_SECS,
            credentials,
        }
    }
}

} // verus!
