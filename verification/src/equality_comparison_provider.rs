//! Completion at an equality comparison: when the trigger stands on
//! the right side of `==` or `~=`, the values to offer are drawn
//! from the left side's inferred type.

use vstd::prelude::*;

use crate::completion::{BinaryOperator, CompletionBuilder, CompletionTriggerContext};
use crate::types::LuaType;

verus! {

/// Whether the trigger position calls for equality completion: a
/// binary `==`/`~=` whose left side inferred to a type.
pub open spec fn spec_eq_trigger(c: CompletionTriggerContext) -> bool {
    match c {
        CompletionTriggerContext::BinaryExpr { op, left_type } => (op == BinaryOperator::OpEq || op
            == BinaryOperator::OpNe) && left_type is Some,
        _ => false,
    }
}

/// Space may trigger this provider as well; nothing else blocks it.
fn check_can_add_completion(builder: &CompletionBuilder) -> (r: bool)
    ensures
        r,
{
    if builder.is_space_trigger_character {
        return true;
    }
    true
}

/// Offer completions for the right side of an equality comparison:
/// the left side's type is collected, and unless completion was
/// invoked explicitly, later providers are stopped. A cancelled
/// request, or any other trigger position, contributes nothing.
pub fn add_completion(builder: &mut CompletionBuilder) -> (r: Option<()>)
    ensures
        old(builder).is_cancelled ==> (r is None && *final(builder) == *old(builder)),
        (!old(builder).is_cancelled && !spec_eq_trigger(old(builder).context)) ==> (r is None
            && *final(builder) == *old(builder)),
        (!old(builder).is_cancelled && spec_eq_trigger(old(builder).context)) ==> (
        old(builder).context matches CompletionTriggerContext::BinaryExpr {
            op,
            left_type: Some(t),
        } ==> {
            &&& r is Some
            &&& final(builder).completion_types@ == old(builder).completion_types@.push(t)
            &&& final(builder).stopped == (old(builder).stopped || !old(builder).is_invoked)
            &&& final(builder).context == (CompletionTriggerContext::BinaryExpr {
                op,
                left_type: None,
            })
        }),
{
    if builder.is_cancelled() {
        return None;
    }
    if !check_can_add_completion(builder) {
        return None;
    }
    let taken: Option<LuaType> = match &mut builder.context {
        CompletionTriggerContext::BinaryExpr { op, left_type } => {
            if *op == BinaryOperator::OpEq || *op == BinaryOperator::OpNe {
                left_type.take()
            } else {
                None
            }
        },
        _ => None,
    };
    match taken {
        Some(t) => {
            builder.dispatch_type(t);
            if !builder.is_invoked() {
                builder.stop_here();
            }
            Some(())
        },
        None => None,
    }
}

} // verus!
