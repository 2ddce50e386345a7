//! Host-side networking for a microVM that lives in a network namespace of its own.
//!
//! A network is described by a [`FirecrackerNetwork`]. It can be added, checked and
//! deleted. Each of these operations is a sequence of requests to three drivers, one for
//! links, addresses and routes, one for namespaces and one for the packet filter. This
//! library holds no driver. It decides: [`run`] names the next [`Action`] of an operation,
//! the caller performs it and hands back its [`Outcome`], until the operation ends.
//!
//! - [`addr`]: addresses and their text form.
//! - [`network`]: the description of a network, the operations and the errors.
//! - [`nft`]: the elements of the packet filter, rule bodies, rulesets and batches.
//! - [`driver`]: actions, outcomes and steps.
//! - [`util`]: the base chains, and what else the operations share.
//! - [`namespaced`]: the rule bodies of a network and the three operations, with what is
//!   proved of the order of their actions.

pub mod addr;
pub mod driver;
pub mod namespaced;
pub mod network;
pub mod nft;
pub mod util;

pub use crate::addr::{IpAddr, IpInet};
pub use crate::driver::{Action, Outcome, Step};
pub use crate::namespaced::{run, Phase};
pub use crate::network::{
    AddOrDelGroup, FirecrackerIpStack, FirecrackerNetwork, FirecrackerNetworkError,
    FirecrackerNetworkObjectType, FirecrackerNetworkOperation, FirecrackerNetworkType,
    NamespacedData, NFT_FILTER_CHAIN, NFT_POSTROUTING_CHAIN, NFT_PREROUTING_CHAIN, NFT_TABLE,
};
pub use crate::util::{
    add_base_chains_if_needed, check_base_chains, get_link_index, nat_proto_from_addr,
    FirecrackerNetworkExt,
};
