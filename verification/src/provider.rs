//! What the compute provider reports, as plain values.
use crate::text::{copy_option, copy_texts};
use vstd::prelude::*;
use vstd::string::*;

verus! {

/// A virtual machine.
#[derive(Debug, Clone, PartialEq, Eq)]
pub struct VultrInstance {
    pub id: String,
    pub label: String,
    pub region: String,
    pub plan: String,
    pub status: String,
    pub server_status: String,
    pub power_status: String,
    pub main_ip: String,
    pub v6_main_ip: String,
    pub firewall_group_id: String,
    pub date_created: String,
    pub tags: Vec<String>,
    pub os_id: u32,
    pub snapshot_id: Option<String>,
    pub enable_ipv6: bool,
}

/// A public key that the provider puts on new machines.
#[derive(Debug, Clone, PartialEq, Eq)]
pub struct VultrSshKey {
    pub id: String,
    pub name: String,
    pub ssh_key: String,
}

/// A firewall.
#[derive(Debug, Clone, PartialEq, Eq)]
pub struct VultrFirewallGroup {
    pub id: String,
    pub description: String,
}

/// A rule of a firewall, as the provider reports it.
#[derive(Debug, Clone, PartialEq, Eq)]
pub struct VultrFirewallRule {
    pub id: u64,
    pub ip_type: String,
    pub protocol: String,
    pub subnet: String,
    pub subnet_size: u32,
    pub port: String,
    pub source: String,
    pub notes: String,
}

/// A size of machine.
#[derive(Debug, Clone, PartialEq, Eq)]
pub struct VultrPlan {
    pub id: String,
    pub plan_type: String,
}

/// A stored disk image.
#[derive(Debug, Clone, PartialEq, Eq)]
pub struct VultrSnapshot {
    pub id: String,
    pub status: String,
}

/// Whether two machines are the same in everything.
pub open spec fn copied(a: VultrInstance, b: VultrInstance) -> bool {
    &&& a.tags@ == b.tags@
    &&& b == (VultrInstance { tags: b.tags, ..a })
}

impl VultrInstance {
    pub fn copy(&self) -> (r: VultrInstance)
        ensures
            copied(*self, r),
    {
        VultrInstance {
            id: self.id.clone(),
            label: self.label.clone(),
            region: self.region.clone(),
            plan: self.plan.clone(),
            status: self.status.clone(),
            server_status: self.server_status.clone(),
            power_status: self.power_status.clone(),
            main_ip: self.main_ip.clone(),
            v6_main_ip: self.v6_main_ip.clone(),
            firewall_group_id: self.firewall_group_id.clone(),
            date_created: self.date_created.clone(),
            tags: copy_texts(&self.tags),
            os_id: self.os_id,
            snapshot_id: copy_option(&self.snapshot_id),
            enable_ipv6: self.enable_ipv6,
        }
    }
}

impl VultrFirewallGroup {
    pub fn copy(&self) -> (r: VultrFirewallGroup)
        ensures
            r == *self,
    {
        VultrFirewallGroup { id: self.id.clone(), description: self.description.clone() }
    }
}

} // verus!
