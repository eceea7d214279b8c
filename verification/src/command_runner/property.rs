//! `getprop`, which only reads.
use vstd::prelude::*;

use crate::command_runner::adapter::{
    phase_name, read_only_refusal, outcome_result_view, AndroidCommandAdapter, CommandOutcome,
    CommandPhase,
};
use crate::command_runner::error::{result_check, CommandError};
use crate::command_runner::invocation::{invocation, strs_view, CommandInvocation, InvocationView};
use crate::command_runner::runner::AndroidCommandRunner;
use crate::command_runner::validation::{property_check, validate_property};

verus! {

pub const GETPROP: &'static str = "/system/bin/getprop";

/// The intent of a property read.
pub open spec fn property_intent(phase: CommandPhase, property: Seq<char>) -> Seq<char> {
    phase_name(phase) + " property "@ + property
}

/// `getprop <property>`.
pub open spec fn getprop(property: Seq<char>) -> InvocationView {
    invocation(GETPROP@, seq![property])
}

/// The read-only `getprop` adapter.
#[derive(Debug, Clone, PartialEq, Eq)]
pub struct GetpropAdapter {
    property: String,
}

impl GetpropAdapter {
    pub closed spec fn property_view(&self) -> Seq<char> {
        self.property@
    }

    /// A property reader.
    pub fn new(property: &str) -> (r: Result<Self, CommandError>)
        ensures
            result_check(r) == property_check(property@),
            r matches Ok(a) ==> a.property_view() == property@,
    {
        validate_property(property)?;
        Ok(GetpropAdapter { property: property.to_owned() })
    }
}

impl AndroidCommandAdapter for GetpropAdapter {
    open spec fn spec_command(&self, phase: CommandPhase) -> InvocationView {
        getprop(self.property_view())
    }

    open spec fn spec_intent(&self, phase: CommandPhase) -> Seq<char> {
        property_intent(phase, self.property_view())
    }

    fn command(&self, phase: CommandPhase) -> (r: CommandInvocation) {
        let args = [self.property.as_str()];
        assert(strs_view(args@) =~= seq![self.property@]);
        CommandInvocation::new(GETPROP, args.as_slice())
    }

    fn intent(&self, phase: CommandPhase) -> (r: String) {
        let mut s = phase.as_str().to_owned();
        s.append(" property ");
        s.append(self.property.as_str());
        s
    }

    fn apply<R: AndroidCommandRunner>(&self, runner: &R) -> (r: Result<CommandOutcome, CommandError>)
        ensures
            outcome_result_view(r) == read_only_refusal(CommandPhase::Apply, self.spec_intent(CommandPhase::Apply)),
    {
        Err(
            CommandError::unsupported_read_only_phase(
                CommandPhase::Apply.as_str(),
                self.intent(CommandPhase::Apply),
            ),
        )
    }

    fn restore<R: AndroidCommandRunner>(&self, runner: &R) -> (r: Result<CommandOutcome, CommandError>)
        ensures
            outcome_result_view(r) == read_only_refusal(CommandPhase::Restore, self.spec_intent(CommandPhase::Restore)),
    {
        Err(
            CommandError::unsupported_read_only_phase(
                CommandPhase::Restore.as_str(),
                self.intent(CommandPhase::Restore),
            ),
        )
    }
}

} // verus!
