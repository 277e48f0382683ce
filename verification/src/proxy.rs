//! The proxy side of the inventory: routing nodes listed flat, not
//! nested under zones.

use vstd::prelude::*;

verus! {

/// A routing / load-balancing node.
pub struct Proxy {
    pub proxy_id: String,
    pub proxy_ip: Option<String>,
    pub public_hostname: String,
    pub healthy: bool,
    pub zone: String,
}

/// Deep view of a [`Proxy`].
pub struct ProxyV {
    pub proxy_id: Seq<char>,
    pub proxy_ip: Option<Seq<char>>,
    pub public_hostname: Seq<char>,
    pub healthy: bool,
    pub zone: Seq<char>,
}

impl DeepView for Proxy {
    type V = ProxyV;

    open spec fn deep_view(&self) -> ProxyV {
        ProxyV {
            proxy_id: self.proxy_id@,
            proxy_ip: self.proxy_ip.deep_view(),
            public_hostname: self.public_hostname@,
            healthy: self.healthy,
            zone: self.zone@,
        }
    }
}

/// The whole proxy inventory returned by one fetch.
pub struct ProxiesRoot {
    pub proxies_count: u64,
    pub proxies: Vec<Proxy>,
}

/// Deep view of a [`ProxiesRoot`].
pub struct ProxiesRootV {
    pub proxies_count: u64,
    pub proxies: Seq<ProxyV>,
}

impl DeepView for ProxiesRoot {
    type V = ProxiesRootV;

    open spec fn deep_view(&self) -> ProxiesRootV {
        ProxiesRootV { proxies_count: self.proxies_count, proxies: self.proxies.deep_view() }
    }
}

} // verus!
