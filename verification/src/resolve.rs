//! Overload resolution: given the argument types at a call site and a
//! set of candidate signatures, pick the best-matching signature
//! deterministically.

use vstd::prelude::*;

use crate::signature::{
    LuaFunctionType, is_func_last_param_variadic, is_variadic_param, spec_is_variadic_param,
    spec_last_param_variadic,
};
use crate::types::{InferFailReason, LuaType, spec_type_compat};

verus! {

/// How one argument relates to one declared parameter: no match at
/// all, a match only because the parameter is `any`, or a real type
/// match. Ranked in that order.
#[derive(Clone, Copy, PartialEq, Eq, Structural)]
enum ParamMatchResult {
    NotMatch,
    AnyMatch,
    TypeMatch,
}

impl ParamMatchResult {
    /// Numeric rank used to compare match quality.
    spec fn spec_rank(self) -> int {
        match self {
            ParamMatchResult::NotMatch => 0,
            ParamMatchResult::AnyMatch => 1,
            ParamMatchResult::TypeMatch => 2,
        }
    }

    fn rank(self) -> (r: u8)
        ensures
            r as int == self.spec_rank(),
    {
        match self {
            ParamMatchResult::NotMatch => 0,
            ParamMatchResult::AnyMatch => 1,
            ParamMatchResult::TypeMatch => 2,
        }
    }
}

/// Whether some candidate declares no parameters at all.
pub open spec fn has_zero_param(s: Seq<LuaFunctionType>) -> bool {
    exists|i: int| 0 <= i < s.len() && (#[trigger] s[i]).params@.len() == 0
}

/// The declared parameter index argument `a` aligns with, given how
/// the candidate was declared and how the call was written: a method
/// declaration called without method syntax shifts down one (and
/// argument 0 aligns with nothing but the implicit receiver), a
/// plain declaration called with method syntax shifts up one.
pub open spec fn spec_aligned_index(colon_define: bool, is_colon_call: bool, a: int) -> Option<
    int,
> {
    if colon_define && !is_colon_call {
        if a == 0 {
            None
        } else {
            Some(a - 1)
        }
    } else if !colon_define && is_colon_call {
        Some(a + 1)
    } else {
        Some(a)
    }
}

/// The type a candidate declares at logical position `pi`: the
/// declared type if in range (an untyped parameter counts as `any`),
/// the variadic tail's type past the end, nothing otherwise.
pub open spec fn spec_param_type_at(f: LuaFunctionType, pi: int) -> Option<LuaType> {
    if 0 <= pi < f.params@.len() {
        Some(
            match f.params@[pi].ty {
                Some(t) => t,
                None => LuaType::Any,
            },
        )
    } else if f.params@.len() > 0 && spec_is_variadic_param(f.params@.last()) {
        Some(
            match f.params@.last().ty {
                Some(t) => t,
                None => LuaType::Any,
            },
        )
    } else {
        None
    }
}

/// An exact trailing match for the first candidate: every argument
/// aligns with a declared position it is accepted at, and the last
/// argument lands exactly on the candidate's last declared
/// parameter with a real type match, not one by `any`. Such a
/// candidate wins outright.
pub open spec fn spec_exact_tail_first(
    f: LuaFunctionType,
    expr: Seq<LuaType>,
    is_colon_call: bool,
    arg_count: int,
) -> bool {
    &&& expr.len() > 0
    &&& (arg_count <= f.params@.len() || spec_last_param_variadic(f))
    &&& (forall|a: int|
        0 <= a < expr.len() - 1 ==> (spec_aligned_index(f.colon_define, is_colon_call, a)
            matches Some(pi) && (spec_param_type_at(f, pi) matches Some(pt) && (pt is Any
            || spec_type_compat(pt, #[trigger] expr[a])))))
    &&& (spec_aligned_index(f.colon_define, is_colon_call, expr.len() - 1) matches Some(pi) && {
        &&& pi == f.params@.len() - 1
        &&& (spec_param_type_at(f, pi) matches Some(pt) && !(pt is Any) && spec_type_compat(
            pt,
            expr.last(),
        ))
    })
}

/// Resolve a call with the given argument types against a list of
/// candidate signatures.
///
/// `is_colon_call` says whether the call used method (colon) syntax;
/// a mismatch between call syntax and a candidate's declaration
/// syntax shifts which declared parameter each argument aligns with.
/// `arg_count` is the call site's syntactic argument count, when it
/// differs from the number of typed arguments supplied.
///
/// The result is always one of the input candidates; only an empty
/// candidate list fails. A single candidate is returned untested; if
/// no argument is supplied, the first candidate declaring no
/// parameters wins; and a first candidate with an exact trailing
/// arity-and-type match wins outright, as `spec_exact_tail_first`
/// states.
pub fn resolve_signature_by_args<'a>(
    overloads: &'a Vec<LuaFunctionType>,
    expr_types: &Vec<LuaType>,
    is_colon_call: bool,
    arg_count: Option<usize>,
) -> (r: Result<&'a LuaFunctionType, InferFailReason>)
    ensures
        (overloads@.len() == 0) <==> (r is Err),
        r matches Err(e) ==> e == InferFailReason::NoCandidate,
        r matches Ok(f) ==> exists|i: int| 0 <= i < overloads@.len() && f == &overloads@[i],
        overloads@.len() == 1 ==> (r matches Ok(f) && f == &overloads@[0]),
        (expr_types@.len() == 0 && overloads@.len() > 1 && has_zero_param(overloads@)) ==> (
        r matches Ok(f) && exists|i: int|
            {
                &&& 0 <= i < overloads@.len()
                &&& f == &overloads@[i]
                &&& overloads@[i].params@.len() == 0
                &&& forall|j: int| 0 <= j < i ==> (#[trigger] overloads@[j]).params@.len() != 0
            }),
        (overloads@.len() > 0 && spec_exact_tail_first(
            overloads@[0],
            expr_types@,
            is_colon_call,
            match arg_count {
                Some(c) => c as int,
                None => expr_types@.len() as int,
            },
        )) ==> (r matches Ok(f) && f == &overloads@[0]),
{
    let expr_len = expr_types.len();
    let ac = match arg_count {
        Some(c) => c,
        None => expr_len,
    };
    let n = overloads.len();
    if n == 0 {
        return Err(InferFailReason::NoCandidate);
    }
    if n == 1 {
        return Ok(&overloads[0]);
    }

    if expr_len == 0 {
        let mut i: usize = 0;
        while i < n
            invariant
                n == overloads@.len(),
                0 <= i <= n,
                expr_types@.len() == 0,
                forall|j: int| 0 <= j < i ==> (#[trigger] overloads@[j]).params@.len() != 0,
            decreases n - i,
        {
            if overloads[i].get_params().len() == 0 {
                return Ok(&overloads[i]);
            }
            i = i + 1;
        }
    }
    proof {
        assert(expr_types@.len() == 0 ==> !has_zero_param(overloads@));
    }

    let ghost no_zero: bool = expr_types@.len() == 0 ==> !has_zero_param(overloads@);

    let mut alive: Vec<bool> = Vec::new();
    let mut k: usize = 0;
    while k < n
        invariant
            alive@.len() == k,
            0 <= k <= n,
            forall|j: int| 0 <= j < k ==> alive@[j],
        decreases n - k,
    {
        alive.push(true);
        k = k + 1;
    }

    let ghost h = overloads@.len() > 0 && spec_exact_tail_first(
        overloads@[0],
        expr_types@,
        is_colon_call,
        ac as int,
    );

    let any_type = LuaType::Any;
    let mut best: usize = 0;

    let mut arg_index: usize = 0;
    let mut done = false;
    while arg_index < expr_len && !done
        invariant
            n == overloads@.len(),
            n >= 2,
            expr_len == expr_types@.len(),
            ac == (match arg_count {
                Some(c) => c,
                None => expr_len,
            }),
            h == (overloads@.len() > 0 && spec_exact_tail_first(
                overloads@[0],
                expr_types@,
                is_colon_call,
                ac as int,
            )),
            alive@.len() == n,
            best < n,
            0 <= arg_index <= expr_len,
            any_type == LuaType::Any,
            h ==> alive@[0],
            h ==> arg_index < expr_len,
            done ==> !h,
            no_zero == (expr_types@.len() == 0 ==> !has_zero_param(overloads@)),
            no_zero,
        decreases expr_len - arg_index + (if done {
            0int
        } else {
            1int
        }),
    {
        let mut current_rank: u8 = 0;
        let mut i: usize = 0;
        while i < n
            invariant
                n == overloads@.len(),
                n >= 2,
                expr_len == expr_types@.len(),
                ac == (match arg_count {
                    Some(c) => c,
                    None => expr_len,
                }),
                h == (overloads@.len() > 0 && spec_exact_tail_first(
                    overloads@[0],
                    expr_types@,
                    is_colon_call,
                    ac as int,
                )),
                alive@.len() == n,
                best < n,
                0 <= i <= n,
                arg_index < expr_len,
                any_type == LuaType::Any,
                h ==> alive@[0],
                h && arg_index == expr_len - 1 ==> i == 0,
                h && arg_index < expr_len - 1 && i >= 1 ==> current_rank >= 1,
                no_zero == (expr_types@.len() == 0 ==> !has_zero_param(overloads@)),
                no_zero,
            decreases n - i,
        {
            if !alive[i] {
                i = i + 1;
                continue;
            }
            let func = &overloads[i];
            let param_len = func.get_params().len();
            proof {
                if h && i == 0 {
                    assert(*func == overloads@[0]);
                    assert(spec_exact_tail_first(
                        overloads@[0],
                        expr_types@,
                        is_colon_call,
                        ac as int,
                    ));
                    if arg_index < expr_len - 1 {
                        let e0 = expr_types@[arg_index as int];
                        assert(e0 == expr_types@[arg_index as int]);
                        assert(spec_aligned_index(
                            func.colon_define,
                            is_colon_call,
                            arg_index as int,
                        ) matches Some(pi) && (spec_param_type_at(*func, pi) matches Some(pt) && (
                        pt is Any || spec_type_compat(pt, expr_types@[arg_index as int]))));
                    }
                }
            }
            if param_len < ac && !is_func_last_param_variadic(func) {
                proof {
                    if h && i == 0 {
                        assert(false);
                    }
                }
                alive.set(i, false);
                i = i + 1;
                continue;
            }

            let colon_define = func.is_colon_define();
            let mut param_index = arg_index;
            if colon_define && !is_colon_call {
                if param_index == 0 {
                    proof {
                        if h && i == 0 {
                            assert(spec_aligned_index(
                                func.colon_define,
                                is_colon_call,
                                arg_index as int,
                            ) is None);
                            assert(false);
                        }
                    }
                    i = i + 1;
                    continue;
                }
                param_index = param_index - 1;
            } else if !colon_define && is_colon_call {
                param_index = param_index + 1;
            }
            proof {
                if h && i == 0 {
                    assert(spec_aligned_index(func.colon_define, is_colon_call, arg_index as int)
                        == Some(param_index as int));
                }
            }

            let mut eliminated = false;
            let param_type: &LuaType = if param_index < param_len {
                match &func.get_params()[param_index].ty {
                    Some(t) => t,
                    None => &any_type,
                }
            } else if param_len > 0 {
                let last = &func.get_params()[param_len - 1];
                if is_variadic_param(last) {
                    match &last.ty {
                        Some(t) => t,
                        None => &any_type,
                    }
                } else {
                    eliminated = true;
                    &any_type
                }
            } else {
                eliminated = true;
                &any_type
            };
            if eliminated {
                proof {
                    if h && i == 0 {
                        assert(spec_param_type_at(*func, param_index as int) is None);
                        assert(false);
                    }
                }
                alive.set(i, false);
                i = i + 1;
                continue;
            }
            proof {
                if h && i == 0 {
                    assert(spec_param_type_at(*func, param_index as int) == Some(*param_type));
                }
            }

            let expr_type = &expr_types[arg_index];
            let match_result = if param_type.is_any() {
                ParamMatchResult::AnyMatch
            } else if crate::types::check_type_compact(param_type, expr_type) {
                ParamMatchResult::TypeMatch
            } else {
                ParamMatchResult::NotMatch
            };
            proof {
                if h && i == 0 {
                    if arg_index == expr_len - 1 {
                        assert(expr_types@[arg_index as int] == expr_types@.last());
                        assert(!(*param_type is Any) && spec_type_compat(
                            *param_type,
                            expr_types@.last(),
                        ));
                        assert(match_result == ParamMatchResult::TypeMatch);
                        assert(param_index == func.params@.len() - 1);
                    } else {
                        assert(*param_type is Any || spec_type_compat(
                            *param_type,
                            expr_types@[arg_index as int],
                        ));
                        assert(match_result != ParamMatchResult::NotMatch);
                    }
                }
            }

            if match_result.rank() > current_rank {
                current_rank = match_result.rank();
                best = i;
            }

            if match_result.rank() == 0 {
                alive.set(i, false);
                i = i + 1;
                continue;
            }

            if match_result.rank() > 1 && arg_index == expr_len - 1 && param_index < param_len
                && param_index == param_len - 1 {
                return Ok(&overloads[i]);
            }
            proof {
                if h && i == 0 {
                    assert(arg_index < expr_len - 1);
                    assert(current_rank >= 1);
                }
            }
            i = i + 1;
        }

        proof {
            if h {
                assert(i == n);
                assert(arg_index != expr_len - 1);
                assert(current_rank >= 1);
            }
        }
        if current_rank == 0 {
            done = true;
        } else {
            arg_index = arg_index + 1;
        }
    }

    proof {
        assert(!h);
    }
    let mut rest: Vec<usize> = Vec::new();
    let mut k2: usize = 0;
    while k2 < n
        invariant
            n == overloads@.len(),
            alive@.len() == n,
            0 <= k2 <= n,
            forall|j: int| 0 <= j < rest@.len() ==> (#[trigger] rest@[j]) < n,
        decreases n - k2,
    {
        if alive[k2] {
            rest.push(k2);
        }
        k2 = k2 + 1;
    }

    let rest_len = rest.len();
    if rest_len == 0 {
        return Ok(&overloads[best]);
    }
    if rest_len == 1 {
        let idx = rest[0];
        return Ok(&overloads[idx]);
    }

    let mut max_param_len: usize = 0;
    let mut k3: usize = 0;
    while k3 < rest_len
        invariant
            n == overloads@.len(),
            rest_len == rest@.len(),
            forall|j: int| 0 <= j < rest@.len() ==> (#[trigger] rest@[j]) < n,
            0 <= k3 <= rest_len,
        decreases rest_len - k3,
    {
        let idx = rest[k3];
        let param_len = overloads[idx].get_params().len();
        if param_len > max_param_len {
            max_param_len = param_len;
        }
        k3 = k3 + 1;
    }

    let mut rest_alive: Vec<bool> = Vec::new();
    let mut k4: usize = 0;
    while k4 < rest_len
        invariant
            rest_alive@.len() == k4,
            0 <= k4 <= rest_len,
        decreases rest_len - k4,
    {
        rest_alive.push(true);
        k4 = k4 + 1;
    }

    let mut param_cursor: usize = expr_len;
    while param_cursor < max_param_len
        invariant
            n == overloads@.len(),
            n >= 2,
            expr_len == expr_types@.len(),
            ac == (match arg_count {
                Some(c) => c,
                None => expr_len,
            }),
            h == (overloads@.len() > 0 && spec_exact_tail_first(
                overloads@[0],
                expr_types@,
                is_colon_call,
                ac as int,
            )),
            !h,
            rest_len == rest@.len(),
            rest_len >= 2,
            rest_alive@.len() == rest_len,
            forall|j: int| 0 <= j < rest@.len() ==> (#[trigger] rest@[j]) < n,
            best < n,
            expr_len <= param_cursor,
            no_zero == (expr_types@.len() == 0 ==> !has_zero_param(overloads@)),
            no_zero,
        decreases max_param_len - param_cursor,
    {
        let mut current_rank: u8 = 0;
        let mut i: usize = 0;
        while i < rest_len
            invariant
                n == overloads@.len(),
                n >= 2,
                expr_len == expr_types@.len(),
                ac == (match arg_count {
                    Some(c) => c,
                    None => expr_len,
                }),
                h == (overloads@.len() > 0 && spec_exact_tail_first(
                    overloads@[0],
                    expr_types@,
                    is_colon_call,
                    ac as int,
                )),
                !h,
                rest_len == rest@.len(),
                rest_len >= 2,
                rest_alive@.len() == rest_len,
                forall|j: int| 0 <= j < rest@.len() ==> (#[trigger] rest@[j]) < n,
                best < n,
                0 <= i <= rest_len,
                param_cursor < max_param_len,
                no_zero == (expr_types@.len() == 0 ==> !has_zero_param(overloads@)),
                no_zero,
            decreases rest_len - i,
        {
            if !rest_alive[i] {
                i = i + 1;
                continue;
            }
            let idx = rest[i];
            let func = &overloads[idx];
            let param_len = func.get_params().len();
            let colon_define = func.is_colon_define();
            let mut param_index = param_cursor;
            if colon_define && !is_colon_call {
                if param_index == 0 {
                    i = i + 1;
                    continue;
                }
                param_index = param_index - 1;
            } else if !colon_define && is_colon_call {
                param_index = param_index + 1;
            }

            let mut returned_early = false;
            let param_type: &LuaType = if param_index < param_len {
                match &func.get_params()[param_index].ty {
                    Some(t) => t,
                    None => &any_type,
                }
            } else if param_len > 0 {
                let last = &func.get_params()[param_len - 1];
                if is_variadic_param(last) {
                    match &last.ty {
                        Some(t) => t,
                        None => &any_type,
                    }
                } else {
                    returned_early = true;
                    &any_type
                }
            } else {
                returned_early = true;
                &any_type
            };
            if returned_early {
                return Ok(&overloads[idx]);
            }

            let match_result = if param_type.is_any() {
                ParamMatchResult::AnyMatch
            } else if param_type.is_nullable() {
                ParamMatchResult::TypeMatch
            } else {
                ParamMatchResult::NotMatch
            };

            if match_result.rank() > current_rank {
                current_rank = match_result.rank();
                best = idx;
            }

            if match_result.rank() == 0 {
                rest_alive.set(i, false);
                i = i + 1;
                continue;
            }

            if match_result.rank() >= 1 && i == rest_len - 1 && param_index < param_len
                && param_index == param_len - 1 {
                return Ok(&overloads[idx]);
            }
            i = i + 1;
        }

        if current_rank == 0 {
            break;
        }
        param_cursor = param_cursor + 1;
    }

    Ok(&overloads[best])
}

} // verus!
