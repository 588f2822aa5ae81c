//! P2P transport port of the pipeline.

use crate::domain::entities::UserId;
use crate::pipeline::value_objects::DeviceId;
use crate::text::concat;
use vstd::prelude::*;
use vstd::string::StringExecFns;

verus! {

/// Failures of the network.
#[derive(Debug)]
pub enum NetworkError {
    /// Connecting failed.
    ConnectionFailed(String),
    /// Sending failed.
    SendFailed(String),
    /// Receiving failed.
    ReceiveFailed(String),
    /// Publishing failed.
    PublishFailed(String),
    /// Subscribing failed.
    SubscriptionFailed(String),
}

impl NetworkError {
    /// The displayed text of an error.
    pub open spec fn text(&self) -> Seq<char> {
        match self {
            NetworkError::ConnectionFailed(m) => "Connection failed: "@ + m@,
            NetworkError::SendFailed(m) => "Send failed: "@ + m@,
            NetworkError::ReceiveFailed(m) => "Receive failed: "@ + m@,
            NetworkError::PublishFailed(m) => "Publish failed: "@ + m@,
            NetworkError::SubscriptionFailed(m) => "Subscription failed: "@ + m@,
        }
    }

    /// The displayed text of this error.
    pub fn to_string(&self) -> (r: String)
        ensures
            r@ == self.text(),
    {
        match self {
            NetworkError::ConnectionFailed(m) => concat("Connection failed: ", m.as_str()),
            NetworkError::SendFailed(m) => concat("Send failed: ", m.as_str()),
            NetworkError::ReceiveFailed(m) => concat("Receive failed: ", m.as_str()),
            NetworkError::PublishFailed(m) => concat("Publish failed: ", m.as_str()),
            NetworkError::SubscriptionFailed(m) => concat("Subscription failed: ", m.as_str()),
        }
    }
}

/// Messaging, pre-key distribution and topics over the P2P network.
pub trait P2PPort {
    /// Sends data to a device.
    fn send_p2p(&mut self, target_device: &DeviceId, data: Vec<u8>) -> Result<(), NetworkError>;

    /// Receives the next data, if any.
    fn receive_p2p(&mut self) -> Result<Option<Vec<u8>>, NetworkError>;

    /// Publishes the pre-keys of a device.
    fn publish_pre_keys(&mut self, user_id: &UserId, device_id: &DeviceId, bundle: &[u8]) -> Result<
        (),
        NetworkError,
    >;

    /// Fetches the pre-keys of a device.
    fn fetch_pre_keys(&mut self, user_id: &UserId, device_id: &DeviceId) -> Result<
        Vec<u8>,
        NetworkError,
    >;

    /// Subscribes to a topic.
    fn subscribe_topic(&mut self, topic: &str) -> Result<(), NetworkError>;
}

/// The libp2p adapter; its operations are not implemented yet.
pub struct Libp2pNetworkAdapter;

impl Libp2pNetworkAdapter {
    /// Creates the adapter.
    pub fn new() -> (r: Self) {
        Libp2pNetworkAdapter
    }
}

impl Default for Libp2pNetworkAdapter {
    fn default() -> (r: Self) {
        Libp2pNetworkAdapter
    }
}


/// The placeholder answers every request with the failure of that request,
/// saying it is not implemented.
impl P2PPort for Libp2pNetworkAdapter {
    fn send_p2p(&mut self, target_device: &DeviceId, data: Vec<u8>) -> (r: Result<(), NetworkError>)
        ensures
            r matches Err(NetworkError::SendFailed(t)) && t@ == "not implemented"@,
    {
        Err(NetworkError::SendFailed(String::from_str("not implemented")))
    }

    fn receive_p2p(&mut self) -> (r: Result<Option<Vec<u8>>, NetworkError>)
        ensures
            r matches Err(NetworkError::ReceiveFailed(t)) && t@ == "not implemented"@,
    {
        Err(NetworkError::ReceiveFailed(String::from_str("not implemented")))
    }

    fn publish_pre_keys(&mut self, user_id: &UserId, device_id: &DeviceId, bundle: &[u8]) -> (r: Result<(), NetworkError>)
        ensures
            r matches Err(NetworkError::PublishFailed(t)) && t@ == "not implemented"@,
    {
        Err(NetworkError::PublishFailed(String::from_str("not implemented")))
    }

    fn fetch_pre_keys(&mut self, user_id: &UserId, device_id: &DeviceId) -> (r: Result<Vec<u8>, NetworkError>)
        ensures
            r matches Err(NetworkError::ReceiveFailed(t)) && t@ == "not implemented"@,
    {
        Err(NetworkError::ReceiveFailed(String::from_str("not implemented")))
    }

    fn subscribe_topic(&mut self, topic: &str) -> (r: Result<(), NetworkError>)
        ensures
            r matches Err(NetworkError::SubscriptionFailed(t)) && t@ == "not implemented"@,
    {
        Err(NetworkError::SubscriptionFailed(String::from_str("not implemented")))
    }
}

} // verus!
