//! The node's asset manager: the registry and the delivery client, set up
//! together so that no request sees one without the other.
use vstd::prelude::*;
use crate::encoding::network_named;
use crate::proxy::{ClientError, ConsignmentClient};
use crate::storage::{db_key, InMemoryStorage, RGBStorage};
use crate::types::{RgbInfo, RgbInfoView};

verus! {

/// The registry and the delivery client of one node.
pub struct RGBManager {
    /// The channel/asset registry.
    pub storage: InMemoryStorage,
    /// Where consignments are delivered.
    pub consignment_proxy: ConsignmentClient,
    /// The node's data directory.
    pub path: String,
}

impl RGBManager {
    /// Set up the manager for a data directory and a network: an empty
    /// registry and a delivery client for the network. An unknown network
    /// fails the whole setup.
    pub fn init(root_dir: &str, network: &str) -> (r: Result<RGBManager, ClientError>)
        ensures
            match network_named(network@) {
                Some(n) => r matches Ok(m) && m.storage.wf() && m.storage.records() == Map::<
                    Seq<char>,
                    RgbInfoView,
                >::empty() && m.storage.watched() == Seq::<Seq<char>>::empty() && m.consignment_proxy.network == n
                    && m.path@ == root_dir@,
                None => r == Err::<RGBManager, ClientError>(ClientError::UnknownNetwork),
            },
    {
        let client = match ConsignmentClient::new(network) {
            Ok(c) => c,
            Err(e) => {
                return Err(e);
            },
        };
        Ok(RGBManager { storage: InMemoryStorage::new(), consignment_proxy: client, path: String::from_str(root_dir) })
    }

    /// The delivery client.
    pub fn consignment_proxy(&self) -> (r: &ConsignmentClient)
        ensures
            *r == self.consignment_proxy,
    {
        &self.consignment_proxy
    }

    /// Record an allocation under its own channel id.
    pub fn add_rgb_info(&mut self, info: &RgbInfo, pending: bool)
        requires
            old(self).storage.wf(),
        ensures
            final(self).storage.wf(),
            final(self).storage.records() == old(self).storage.records().insert(
                db_key(info.channel_id@, pending),
                info@,
            ),
            final(self).storage.watched() == old(self).storage.watched(),
    {
        self.storage.write_rgb_info(info.channel_id.as_str(), pending, info);
    }

    /// Watch an asset for refresh, once.
    pub fn listen_for(&mut self, asset_id: &str)
        requires
            old(self).storage.wf(),
        ensures
            final(self).storage.wf(),
            final(self).storage.records() == old(self).storage.records(),
            final(self).storage.watched() == if old(self).storage.watched().contains(asset_id@) {
                old(self).storage.watched()
            } else {
                old(self).storage.watched().push(asset_id@)
            },
    {
        self.storage.listen_for_asset(asset_id);
    }
}

} // verus!
