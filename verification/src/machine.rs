//! What the API server tells of a machine, and how the PXE server is set up.

use vstd::prelude::*;

verus! {

/// A network interface of a machine. The id is held as its text.
#[derive(Clone, Debug)]
pub struct MachineInterface {
    pub id: Option<String>,
    pub mac_address: String,
}

/// A domain, in the one or the other form in which the API server keeps it.
#[derive(Clone, Debug)]
pub enum Domain {
    LegacyDomain { name: String },
    NewDomain { name: String },
}

/// The domain of a machine that boots.
#[derive(Clone, Debug)]
pub struct PxeDomain {
    pub domain: Option<Domain>,
}

impl PxeDomain {
    /// The name of the domain, whatever its form.
    pub open spec fn name(self) -> Option<Seq<char>> {
        match self.domain {
            Some(Domain::LegacyDomain { name }) => Some(name@),
            Some(Domain::NewDomain { name }) => Some(name@),
            None => None,
        }
    }
}

/// What a DPU needs to know before it is taken into service.
#[derive(Clone, Debug)]
pub struct DiscoveryInstructions {
    pub machine_interface: Option<MachineInterface>,
    pub domain: Option<PxeDomain>,
    pub hbn_reps: Option<String>,
    pub hbn_sfs: Option<String>,
    pub num_of_vfs: Option<u32>,
    pub vf_intercept_bridge_name: Option<String>,
    pub host_intercept_bridge_name: Option<String>,
    pub host_intercept_bridge_port: Option<String>,
    pub vf_intercept_bridge_port: Option<String>,
    pub vf_intercept_bridge_sf: Option<String>,
}

/// What cloud-init is told of the instance it runs in.
#[derive(Clone, Debug)]
pub struct CloudInitMetaData {
    pub instance_id: String,
    pub cloud_name: String,
    pub platform: String,
}

/// What the API server has on a machine that asks for its cloud-init data.
#[derive(Clone, Debug)]
pub struct CloudInitInstructions {
    pub custom_cloud_init: Option<String>,
    pub discovery_instructions: Option<DiscoveryInstructions>,
    pub metadata: Option<CloudInitMetaData>,
    pub api_url_override: Option<String>,
    pub pxe_url_override: Option<String>,
}

/// A machine that asks for its cloud-init data.
#[derive(Clone, Debug)]
pub struct Machine {
    pub instructions: CloudInitInstructions,
}

/// The URLs that machines are given where they have none of their own.
#[derive(Clone, Debug)]
pub struct RuntimeConfig {
    pub client_facing_api_url: String,
    pub pxe_url: String,
}

} // verus!
