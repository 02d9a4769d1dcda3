//! Sidebar entries: one line per resource kind, holding the header text and
//! the small live metric shown next to it.

use crate::format::{dec_string, format_percent, spec_dec_str, spec_percent_str};
use crate::selection::ResourceType;
use vstd::prelude::*;
use vstd::string::StringExecFns;

verus! {

#[derive(Debug, Clone)]
pub enum SidebarItemParentMessage {
    Tick,
}

/// One sidebar entry: the resource it links to, its header, and the metric
/// string refreshed each tick.
#[derive(Debug)]
pub struct SidebarItemParent {
    pub header: String,
    pub usage_percent: Option<u64>,
    pub resource: ResourceType,
    pub metric: Option<String>,
}

impl SidebarItemParent {
    pub fn new(resource: ResourceType, header: String) -> (r: Self)
        ensures
            r.resource == resource,
            r.header@ == header@,
            r.usage_percent is None,
            r.metric is None,
    {
        SidebarItemParent { resource, header, usage_percent: None, metric: None }
    }

    /// Refreshes the entry's metric from this tick's plain readings: the
    /// process count for the process entry, the usage percentage for the
    /// memory entry, the received and transmitted byte totals for the Wi-Fi
    /// entry. A missing reading degrades to no metric, never to an error.
    pub fn on_tick(
        &mut self,
        processes_count: u64,
        memory_usage_percent: Option<u64>,
        total_received: u64,
        total_transmitted: u64,
    )
        ensures
            final(self).resource == old(self).resource,
            final(self).header == old(self).header,
            match old(self).resource {
                ResourceType::Processes => {
                    &&& final(self).usage_percent is None
                    &&& match final(self).metric {
                        Some(m) => m@ == spec_dec_str(processes_count as nat),
                        None => false,
                    }
                },
                ResourceType::Memory => match memory_usage_percent {
                    Some(p) => {
                        &&& final(self).usage_percent == Some(p)
                        &&& match final(self).metric {
                            Some(m) => m@ == spec_percent_str(p as nat),
                            None => false,
                        }
                    },
                    None => final(self).usage_percent is None && final(self).metric is None,
                },
                ResourceType::Wifi => {
                    &&& final(self).usage_percent is None
                    &&& match final(self).metric {
                        Some(m) => m@ == spec_dec_str(total_received as nat) + " "@ + spec_dec_str(
                            total_transmitted as nat,
                        ),
                        None => false,
                    }
                },
                _ => final(self).usage_percent is None && final(self).metric is None,
            },
    {
        match self.resource {
            ResourceType::Processes => {
                self.usage_percent = None;
                self.metric = Some(dec_string(processes_count as u128));
            },
            ResourceType::Memory => {
                match memory_usage_percent {
                    Some(p) => {
                        self.usage_percent = Some(p);
                        self.metric = Some(format_percent(p));
                    },
                    None => {
                        self.usage_percent = None;
                        self.metric = None;
                    },
                }
            },
            ResourceType::Wifi => {
                let mut m = dec_string(total_received as u128);
                m.append(" ");
                let t = dec_string(total_transmitted as u128);
                m.append(t.as_str());
                self.usage_percent = None;
                self.metric = Some(m);
            },
            _ => {
                self.usage_percent = None;
                self.metric = None;
            },
        }
    }
}

} // verus!
