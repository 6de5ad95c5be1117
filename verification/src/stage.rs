//! The stages of the engine and where it looks for skills.
use vstd::prelude::*;

verus! {

/// The stage the engine is in. A task runs Analyze, RiskScan and Plan, waits
/// in PendingApproval for an explicit decision, then runs Execute and Verify.
#[derive(Debug, PartialEq, Eq, Clone, Copy, Structural)]
pub enum VesperStage {
    Idle,
    Analyze,
    RiskScan,
    Plan,
    PendingApproval,
    Execute,
    Verify,
}

/// Which fixed skills stand in where the skill library has no document for
/// the tags.
#[derive(Debug, PartialEq, Eq, Clone, Copy, Structural)]
pub enum SkillSource {
    Obsidian,
    Notion,
    Hybrid,
}

/// The name a stage is printed by.
pub open spec fn stage_name(s: VesperStage) -> Seq<char> {
    match s {
        VesperStage::Idle => "Idle"@,
        VesperStage::Analyze => "Analyze"@,
        VesperStage::RiskScan => "RiskScan"@,
        VesperStage::Plan => "Plan"@,
        VesperStage::PendingApproval => "PendingApproval"@,
        VesperStage::Execute => "Execute"@,
        VesperStage::Verify => "Verify"@,
    }
}

impl VesperStage {
    /// The name the stage is printed by.
    pub fn name(&self) -> (r: &'static str)
        ensures
            r@ == stage_name(*self),
    {
        match self {
            VesperStage::Idle => "Idle",
            VesperStage::Analyze => "Analyze",
            VesperStage::RiskScan => "RiskScan",
            VesperStage::Plan => "Plan",
            VesperStage::PendingApproval => "PendingApproval",
            VesperStage::Execute => "Execute",
            VesperStage::Verify => "Verify",
        }
    }
}

} // verus!
