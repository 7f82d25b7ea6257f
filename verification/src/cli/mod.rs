//! The command line: what a user can ask for, the settings, and the order
//! in which a request is carried out.
use vstd::prelude::*;
use crate::cli::network::Command;

pub mod config;
pub mod network;

verus! {

/// The parsed command line.
pub struct Cli {
    pub sub_action: Option<SubAction>,
}

/// The groups of commands.
pub enum SubAction {
    /// Operations on the campus network.
    Network { network_action: Command },
}

/// What to do next with a command line.
#[derive(Debug, Clone, Copy, PartialEq, Eq, Structural)]
pub enum Plan {
    /// Nothing was asked for.
    Idle,
    /// Probe the portal's entrance first.
    ProbeEntrance,
    /// The entrance did not answer: report it and stop.
    Unreachable,
    /// Carry out the command.
    Run,
}

/// The plan for a command line with or without a sub action, with the
/// connection check switched on or off and the probe's outcome, if a probe
/// was made.
pub open spec fn plan_for(asked: bool, connect_check: bool, reachable: Option<bool>) -> Plan {
    if !asked {
        Plan::Idle
    } else if !connect_check {
        Plan::Run
    } else {
        match reachable {
            None => Plan::ProbeEntrance,
            Some(true) => Plan::Run,
            Some(false) => Plan::Unreachable,
        }
    }
}

/// The order of a request: without a sub action nothing happens; with the
/// connection check off the command runs at once; with it on, the entrance is
/// probed first, an unreachable entrance stops everything, and a reachable
/// one lets the command run.
pub proof fn law_plan_order(asked: bool, connect_check: bool, reachable: Option<bool>)
    ensures
        !asked ==> plan_for(asked, connect_check, reachable) == Plan::Idle,
        asked && !connect_check ==> plan_for(asked, connect_check, reachable) == Plan::Run,
        asked && connect_check && reachable is None ==> plan_for(asked, connect_check, reachable)
            == Plan::ProbeEntrance,
        asked && connect_check && reachable == Some(false) ==> plan_for(
            asked,
            connect_check,
            reachable,
        ) == Plan::Unreachable,
        asked && connect_check && reachable == Some(true) ==> plan_for(
            asked,
            connect_check,
            reachable,
        ) == Plan::Run,
{
}

impl Cli {
    /// What to do next: nothing without a sub action; otherwise, with the
    /// connection check on, probe the entrance before anything and stop when
    /// it is unreachable; then carry out the command.
    pub fn plan(&self, connect_check: bool, reachable: Option<bool>) -> (p: Plan)
        ensures
            p == plan_for(self.sub_action is Some, connect_check, reachable),
    {
        match &self.sub_action {
            None => Plan::Idle,
            Some(_) => if !connect_check {
                Plan::Run
            } else {
                match reachable {
                    None => Plan::ProbeEntrance,
                    Some(true) => Plan::Run,
                    Some(false) => Plan::Unreachable,
                }
            },
        }
    }
}

} // verus!
