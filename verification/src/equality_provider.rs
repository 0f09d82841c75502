//! Completion by expected value: at an equality comparison the left
//! side's type supplies the candidates, and in a table-field value
//! position the field's expected type does.

use vstd::prelude::*;

use crate::completion::{BinaryOperator, CompletionBuilder, CompletionTriggerContext};
use crate::equality_comparison_provider::spec_eq_trigger;
use crate::types::LuaType;

verus! {

/// Whether the trigger stands in a table-field value position with a
/// computed expected type.
pub open spec fn spec_field_trigger(c: CompletionTriggerContext) -> bool {
    match c {
        CompletionTriggerContext::TableField { value_type } => value_type is Some,
        _ => false,
    }
}

/// Space may trigger this provider as well; nothing else blocks it.
fn check_can_add_completion(builder: &CompletionBuilder) -> (r: bool)
    ensures
        r,
{
    if builder.is_space_trigger_character {
        return true;
    }
    true
}

/// Offer completions from the expected type of the trigger position:
/// the left side of an equality comparison, or a table field's
/// declared value type. Local and assignment statements contribute
/// nothing here.
pub fn add_completion(builder: &mut CompletionBuilder) -> (r: Option<()>)
    ensures
        old(builder).is_cancelled ==> (r is None && *final(builder) == *old(builder)),
        (!old(builder).is_cancelled && !spec_eq_trigger(old(builder).context)
            && !spec_field_trigger(old(builder).context)) ==> (r is None && *final(builder)
            == *old(builder)),
        (!old(builder).is_cancelled && spec_eq_trigger(old(builder).context)) ==> (
        old(builder).context matches CompletionTriggerContext::BinaryExpr {
            op,
            left_type: Some(t),
        } ==> {
            &&& r is Some
            &&& final(builder).completion_types@ == old(builder).completion_types@.push(t)
            &&& final(builder).stopped == (old(builder).stopped || !old(builder).is_invoked)
        }),
        (!old(builder).is_cancelled && spec_field_trigger(old(builder).context)) ==> (
        old(builder).context matches CompletionTriggerContext::TableField {
            value_type: Some(t),
        } ==> {
            &&& r is Some
            &&& final(builder).completion_types@ == old(builder).completion_types@.push(t)
            &&& final(builder).stopped == (old(builder).stopped || !old(builder).is_invoked)
        }),
{
    if builder.is_cancelled() {
        return None;
    }
    if !check_can_add_completion(builder) {
        return None;
    }
    let taken: Option<LuaType> = match &mut builder.context {
        CompletionTriggerContext::BinaryExpr { op, left_type } => {
            if *op == BinaryOperator::OpEq || *op == BinaryOperator::OpNe {
                left_type.take()
            } else {
                None
            }
        },
        CompletionTriggerContext::TableField { value_type } => value_type.take(),
        CompletionTriggerContext::LocalStat => None,
        CompletionTriggerContext::AssignStat => None,
        _ => None,
    };
    match taken {
        Some(t) => {
            builder.dispatch_type(t);
            if !builder.is_invoked() {
                builder.stop_here();
            }
            Some(())
        },
        None => None,
    }
}

} // verus!
