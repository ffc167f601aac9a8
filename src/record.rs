use vstd::prelude::*;

verus! {

/// A persisted push setting, such as the user agent identifier or the
/// server's authorization token.
#[derive(Clone, Debug, PartialEq)]
pub struct MetaRecord {
    pub key: String,
    pub val: String,
}

/// Delivery bookkeeping for one push channel.
#[derive(Debug)]
pub struct DeliveryRecord {
    pub channel_id: String,
    /// The service that the channel belongs to.
    pub service_name: String,
    /// A system channel is exempt from quota checks.
    pub is_system: bool,
    /// How many notifications the channel may receive before it is cut off.
    pub quota: Option<u32>,
    /// When the last message arrived, in milliseconds since the epoch.
    pub last_recvd: Option<u64>,
    /// Notifications received since the last reset.
    pub recv_count: Option<u32>,
    /// Recipient information provided by the user agent.
    pub recipient_info: Option<String>,
}

impl Default for DeliveryRecord {
    fn default() -> (r: DeliveryRecord)
        ensures
            r.channel_id@.len() == 0,
            r.service_name@.len() == 0,
            !r.is_system,
            r.quota is None,
            r.last_recvd is None,
            r.recv_count is None,
            r.recipient_info is None,
    {
        DeliveryRecord {
            channel_id: String::new(),
            service_name: String::new(),
            is_system: false,
            quota: None,
            last_recvd: None,
            recv_count: None,
            recipient_info: None,
        }
    }
}

/// A push subscription.
#[derive(Clone, Debug, PartialEq)]
pub struct PushRecord {
    /// The user agent's unique identifier.
    pub uaid: String,
    /// The label given by the subscribing service.
    pub channel_id: String,
    /// The endpoint provided by the push server.
    pub endpoint: String,
    /// The scope of the recipient service worker.
    pub scope: String,
    /// The serialized private key of the subscription.
    pub key: Vec<u8>,
    /// When the subscription was created, in milliseconds since the epoch.
    pub ctime: u64,
    /// The VAPID public key that subscription updates must be signed with.
    pub app_server_key: Option<String>,
    /// For a bridged connection, the native push identifier.
    pub native_id: Option<String>,
}

} // verus!
