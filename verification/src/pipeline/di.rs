//! Wiring of the concrete adapters into the use cases.

use crate::pipeline::e2ee::LibSignalCryptoAdapter;
use crate::pipeline::message_store::RedbStorageAdapter;
use crate::pipeline::moderation::LocalModerationAdapter;
use crate::pipeline::network::Libp2pNetworkAdapter;
use crate::pipeline::send_message::SendMessageInteractor;
use vstd::prelude::*;

verus! {

/// The send-message interactor over the Signal, libp2p, redb and local
/// moderation adapters.
pub fn build_send_message_use_case() -> (r: SendMessageInteractor<
    LibSignalCryptoAdapter,
    Libp2pNetworkAdapter,
    RedbStorageAdapter,
    LocalModerationAdapter,
>)
    ensures
        r.crypto() == LibSignalCryptoAdapter,
        r.p2p() == Libp2pNetworkAdapter,
        r.storage() == RedbStorageAdapter,
        r.moderation() == LocalModerationAdapter,
{
    let crypto = LibSignalCryptoAdapter::new();
    let p2p = Libp2pNetworkAdapter::new();
    let storage = RedbStorageAdapter::new();
    let moderation = LocalModerationAdapter::new();
    SendMessageInteractor::new(crypto, p2p, storage, moderation)
}

} // verus!
