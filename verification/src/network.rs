//! The description of a network, the operations on it and the errors they end in.

use crate::addr::{IpAddr, IpInet};
use vstd::prelude::*;

verus! {

/// The table that holds every chain and rule of this library.
pub const NFT_TABLE: &'static str = "fcnet";

/// The chain for source translation, in both namespaces.
pub const NFT_POSTROUTING_CHAIN: &'static str = "postrouting";

/// The chain for destination translation, in the inner namespace.
pub const NFT_PREROUTING_CHAIN: &'static str = "prerouting";

/// The chain for forwarded packets, in the outer namespace.
pub const NFT_FILTER_CHAIN: &'static str = "filter";

/// Which IP stack the packet-filter objects of a network are created for.
#[derive(Clone, Copy, Debug, PartialEq, Eq, Structural)]
pub enum FirecrackerIpStack {
    V4,
    V6,
    Dual,
}

/// What is done with a network.
#[derive(Clone, Copy, Debug, PartialEq, Eq, Structural)]
pub enum FirecrackerNetworkOperation {
    Add,
    Check,
    Delete,
}

/// The kinds of object that can be found missing.
#[derive(Clone, Copy, Debug, PartialEq, Eq, Structural)]
pub enum FirecrackerNetworkObjectType {
    IpLink,
    Netns,
    NfTable,
    NfPostroutingChain,
    NfFilterChain,
    NfMasqueradeRule,
    NfIngressForwardRule,
    NfEgressForwardRule,
}

/// The ways in which an operation fails.
#[derive(Clone, Copy, Debug, PartialEq, Eq, Structural)]
pub enum FirecrackerNetworkError {
    /// A link, address or route request failed.
    NetlinkOperationError,
    /// The ruleset could not be read, or a batch could not be applied.
    NftablesError,
    /// A namespace could not be created, opened, entered or removed.
    NetnsError,
    /// The TAP device could not be created.
    TapDeviceError,
    /// No connection for link requests could be set up.
    IoError,
    /// An object that should exist does not.
    ObjectNotFound(FirecrackerNetworkObjectType),
    /// The forwarded address and its gateway are not of one address family.
    ForbiddenDualStackInRoute,
    /// The work inside the namespace ended without a result.
    ChannelCancelError,
}

/// Two addresses are both IPv4 addresses or both IPv6 addresses.
pub open spec fn same_family(a: IpAddr, b: IpAddr) -> bool {
    a is V4 <==> b is V4
}

/// Whether two addresses are of one address family.
pub fn of_same_family(a: IpAddr, b: IpAddr) -> (same: bool)
    ensures
        same == same_family(a, b),
{
    match (a, b) {
        (IpAddr::V4(_), IpAddr::V4(_)) => true,
        (IpAddr::V6(_), IpAddr::V6(_)) => true,
        _ => false,
    }
}

/// The namespace of a network and the pair of links that leads into it.
#[derive(Clone, Debug, PartialEq, Eq)]
pub enum FirecrackerNetworkType {
    Namespaced {
        netns_name: String,
        veth1_name: String,
        veth2_name: String,
        veth1_ip: IpInet,
        veth2_ip: IpInet,
        forwarded_guest_ip: Option<IpAddr>,
    },
}

/// The description of the network of one guest.
#[derive(Clone, Debug, PartialEq, Eq)]
pub struct FirecrackerNetwork {
    /// The packet-filter program to run, where it is not the default one.
    pub nft_path: Option<String>,
    pub ip_stack: FirecrackerIpStack,
    /// The host interface that leads outside.
    pub iface_name: String,
    pub tap_name: String,
    pub tap_ip: IpInet,
    pub guest_ip: IpInet,
    pub network_type: FirecrackerNetworkType,
}

/// The parts of a network that concern its namespace, borrowed from its description.
pub struct NamespacedData<'a> {
    pub netns_name: &'a str,
    pub veth1_name: &'a str,
    pub veth2_name: &'a str,
    pub veth1_ip: &'a IpInet,
    pub veth2_ip: &'a IpInet,
    pub forwarded_guest_ip: &'a Option<IpAddr>,
}

impl FirecrackerNetwork {
    /// The name of the namespace.
    pub open spec fn netns_name(&self) -> Seq<char> {
        self.network_type->netns_name@
    }

    /// The name of the outer end of the link pair.
    pub open spec fn veth1_name(&self) -> Seq<char> {
        self.network_type->veth1_name@
    }

    /// The name of the inner end of the link pair.
    pub open spec fn veth2_name(&self) -> Seq<char> {
        self.network_type->veth2_name@
    }

    /// The address of the outer end of the link pair.
    pub open spec fn veth1_ip(&self) -> IpInet {
        self.network_type->veth1_ip
    }

    /// The address of the inner end of the link pair.
    pub open spec fn veth2_ip(&self) -> IpInet {
        self.network_type->veth2_ip
    }

    /// The address in the outer namespace that is forwarded to the guest, if there is
    /// one.
    pub open spec fn forwarded_guest_ip(&self) -> Option<IpAddr> {
        self.network_type->forwarded_guest_ip
    }

    /// The description is consistent: the two ends of the link pair have addresses of one
    /// family, the TAP device and the guest have addresses of one family, and a forwarded
    /// address is of the family of the link pair.
    pub open spec fn well_formed(&self) -> bool {
        &&& same_family(self.veth1_ip().addr(), self.veth2_ip().addr())
        &&& same_family(self.guest_ip.addr(), self.tap_ip.addr())
        &&& self.forwarded_guest_ip() matches Some(forwarded) ==> same_family(
            forwarded,
            self.veth2_ip().addr(),
        )
    }

    /// Whether the description is consistent.
    pub fn is_well_formed(&self) -> (well_formed: bool)
        ensures
            well_formed == self.well_formed(),
    {
        let namespaced_data = self.namespaced_data();
        let forwarded_fits = match namespaced_data.forwarded_guest_ip {
            Some(forwarded) => of_same_family(*forwarded, namespaced_data.veth2_ip.address()),
            None => true,
        };
        of_same_family(namespaced_data.veth1_ip.address(), namespaced_data.veth2_ip.address())
            && of_same_family(self.guest_ip.address(), self.tap_ip.address()) && forwarded_fits
    }

    /// The namespace part of the description.
    pub fn namespaced_data(&self) -> (data: NamespacedData<'_>)
        ensures
            data.describes(self),
    {
        match &self.network_type {
            FirecrackerNetworkType::Namespaced {
                netns_name,
                veth1_name,
                veth2_name,
                veth1_ip,
                veth2_ip,
                forwarded_guest_ip,
            } => NamespacedData {
                netns_name: netns_name.as_str(),
                veth1_name: veth1_name.as_str(),
                veth2_name: veth2_name.as_str(),
                veth1_ip,
                veth2_ip,
                forwarded_guest_ip,
            },
        }
    }
}

impl<'a> NamespacedData<'a> {
    /// The data is that of the network.
    pub open spec fn describes(&self, network: &FirecrackerNetwork) -> bool {
        &&& self.netns_name@ == network.netns_name()
        &&& self.veth1_name@ == network.veth1_name()
        &&& self.veth2_name@ == network.veth2_name()
        &&& *self.veth1_ip == network.veth1_ip()
        &&& *self.veth2_ip == network.veth2_ip()
        &&& *self.forwarded_guest_ip == network.forwarded_guest_ip()
    }
}

/// The three switches of the command line of which exactly one is to be set.
#[derive(Clone, Copy, Debug, PartialEq, Eq, Structural)]
pub struct AddOrDelGroup {
    pub add: bool,
    pub del: bool,
    pub check: bool,
}

impl AddOrDelGroup {
    /// The operation that the switches select, where exactly one of them is set.
    pub open spec fn selected(self) -> Option<FirecrackerNetworkOperation> {
        if self.add && !self.del && !self.check {
            Some(FirecrackerNetworkOperation::Add)
        } else if !self.add && self.del && !self.check {
            Some(FirecrackerNetworkOperation::Delete)
        } else if !self.add && !self.del && self.check {
            Some(FirecrackerNetworkOperation::Check)
        } else {
            None
        }
    }

    /// The operation that the switches select; none where no switch or more than one is set.
    pub fn operation(&self) -> (operation: Option<FirecrackerNetworkOperation>)
        ensures
            operation == self.selected(),
    {
        if self.add && !self.del && !self.check {
            Some(FirecrackerNetworkOperation::Add)
        } else if !self.add && self.del && !self.check {
            Some(FirecrackerNetworkOperation::Delete)
        } else if !self.add && !self.del && self.check {
            Some(FirecrackerNetworkOperation::Check)
        } else {
            None
        }
    }
}

} // verus!
