//! Settings of a remote object store that serves as the cloud tier.

use vstd::prelude::*;

verus! {

/// Where the cloud tier lives and how to sign in to it.
#[derive(Debug, Clone)]
pub struct CloudConfig {
    /// The kind of object store.
    pub service_type: String,
    /// The key id; the secret id or the account name with some services.
    pub access_key_id: String,
    /// The secret key; the account key with some services.
    pub secret_access_key: String,
    /// The address of the service.
    pub endpoint: String,
    /// The bucket; the container with some services.
    pub bucket: String,
    /// The directory inside the bucket under which everything is kept.
    pub root: String,
}

impl CloudConfig {
    /// Whether no setting has been filled in.
    pub open spec fn is_blank(self) -> bool {
        &&& self.service_type@.len() == 0
        &&& self.access_key_id@.len() == 0
        &&& self.secret_access_key@.len() == 0
        &&& self.endpoint@.len() == 0
        &&& self.bucket@.len() == 0
        &&& self.root@.len() == 0
    }
}

impl Default for CloudConfig {
    /// The settings with nothing filled in.
    fn default() -> (config: CloudConfig)
        ensures
            config.is_blank(),
    {
        CloudConfig {
            service_type: String::new(),
            access_key_id: String::new(),
            secret_access_key: String::new(),
            endpoint: String::new(),
            bucket: String::new(),
            root: String::new(),
        }
    }
}

} // verus!
