//! What a device is created with.
use vstd::prelude::*;

verus! {

/// The layer a device works at.
#[derive(Clone, Copy, Debug, PartialEq, Eq, Structural)]
pub enum Layer {
    /// Ethernet frames (TAP).
    L2,
    /// IP packets (TUN).
    L3,
}

/// The number the interface request carries for a layer.
pub open spec fn layer_code(layer: Layer) -> i16 {
    match layer {
        Layer::L2 => 2,
        Layer::L3 => 3,
    }
}

impl From<Layer> for i16 {
    fn from(layer: Layer) -> (code: i16) {
        match layer {
            Layer::L2 => 2,
            Layer::L3 => 3,
        }
    }
}

impl vstd::std_specs::convert::FromSpecImpl<Layer> for i16 {
    open spec fn obeys_from_spec() -> bool {
        true
    }

    open spec fn from_spec(layer: Layer) -> i16 {
        layer_code(layer)
    }
}

/// The settings a device is created with; each left `None` takes its
/// default.
#[derive(Clone, Debug)]
pub struct Configuration {
    /// The interface name.
    pub tun_name: Option<String>,
    /// The MTU.
    pub mtu: Option<u16>,
    /// The number of queues.
    pub queues: Option<usize>,
    /// The layer.
    pub layer: Option<Layer>,
}

impl Default for Configuration {
    fn default() -> (c: Self)
        ensures
            c.tun_name is None,
            c.mtu is None,
            c.queues is None,
            c.layer is None,
    {
        Configuration { tun_name: None, mtu: None, queues: None, layer: None }
    }
}

} // verus!
