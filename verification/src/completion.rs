//! The completion builder: what a completion request knows about its
//! trigger position, and the types collected for it to complete
//! against.

use vstd::prelude::*;

use crate::types::LuaType;

verus! {

/// A binary operator at a trigger position.
#[derive(Clone, Copy, PartialEq, Eq, Structural, Debug)]
pub enum BinaryOperator {
    OpEq,
    OpNe,
    OpLt,
    OpAdd,
}

/// Where the trigger token stands, with the inference results the
/// semantic model produced for the surrounding expression.
pub enum CompletionTriggerContext {
    /// Inside a binary expression whose left side inferred to the
    /// given type, when inference succeeded.
    BinaryExpr { op: BinaryOperator, left_type: Option<LuaType> },
    /// In the value position of a table field whose expected type is
    /// given, when one could be computed.
    TableField { value_type: Option<LuaType> },
    /// In a local-declaration statement.
    LocalStat,
    /// In an assignment statement.
    AssignStat,
    /// Anywhere else.
    Other,
}

/// The state a completion request accumulates while providers run.
pub struct CompletionBuilder {
    pub is_cancelled: bool,
    pub is_space_trigger_character: bool,
    pub is_invoked: bool,
    pub stopped: bool,
    pub context: CompletionTriggerContext,
    pub completion_types: Vec<LuaType>,
}

impl CompletionBuilder {
    pub fn is_cancelled(&self) -> (r: bool)
        ensures
            r == self.is_cancelled,
    {
        self.is_cancelled
    }

    pub fn is_invoked(&self) -> (r: bool)
        ensures
            r == self.is_invoked,
    {
        self.is_invoked
    }

    /// No later provider runs once a provider claims the position.
    pub fn stop_here(&mut self) -> (r: ())
        ensures
            final(self).stopped,
            final(self).is_cancelled == old(self).is_cancelled,
            final(self).is_space_trigger_character == old(self).is_space_trigger_character,
            final(self).is_invoked == old(self).is_invoked,
            final(self).context == old(self).context,
            final(self).completion_types == old(self).completion_types,
    {
        self.stopped = true;
    }

    /// Collect one type for the completion to draw items from.
    pub fn dispatch_type(&mut self, typ: LuaType) -> (r: ())
        ensures
            final(self).completion_types@ == old(self).completion_types@.push(typ),
            final(self).stopped == old(self).stopped,
            final(self).is_cancelled == old(self).is_cancelled,
            final(self).is_space_trigger_character == old(self).is_space_trigger_character,
            final(self).is_invoked == old(self).is_invoked,
            final(self).context == old(self).context,
    {
        self.completion_types.push(typ);
    }
}

} // verus!
