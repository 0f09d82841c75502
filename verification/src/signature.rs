//! Function types: ordered parameter lists, the method-declaration
//! flag, and the variadic-tail convention.

use vstd::prelude::*;

use crate::types::LuaType;

verus! {

/// One declared parameter: its name and, optionally, its declared
/// type. A parameter literally named `...` marks a variadic tail
/// whose declared type applies to all remaining argument positions.
pub struct LuaFunctionParam {
    pub name: String,
    pub ty: Option<LuaType>,
}

/// Whether a parameter is the variadic-tail marker.
pub open spec fn spec_is_variadic_param(p: LuaFunctionParam) -> bool {
    p.name@ == "..."@
}

pub fn is_variadic_param(p: &LuaFunctionParam) -> (r: bool)
    ensures
        r == spec_is_variadic_param(*p),
{
    let dots: String = "...".to_owned();
    p.name == dots
}

/// A function/overload signature: its parameters in declaration
/// order and whether it was declared with method (colon) syntax,
/// which implies a leading `self` parameter not listed here.
pub struct LuaFunctionType {
    pub colon_define: bool,
    pub params: Vec<LuaFunctionParam>,
    pub ret: LuaType,
}

impl LuaFunctionType {
    pub fn new(colon_define: bool, params: Vec<LuaFunctionParam>, ret: LuaType) -> (r:
        LuaFunctionType)
        ensures
            r.colon_define == colon_define,
            r.params == params,
            r.ret == ret,
    {
        LuaFunctionType { colon_define, params, ret }
    }

    pub fn get_params(&self) -> (r: &Vec<LuaFunctionParam>)
        ensures
            r == &self.params,
    {
        &self.params
    }

    pub fn is_colon_define(&self) -> (r: bool)
        ensures
            r == self.colon_define,
    {
        self.colon_define
    }
}

/// Whether the last declared parameter is the variadic tail.
pub open spec fn spec_last_param_variadic(f: LuaFunctionType) -> bool {
    f.params@.len() > 0 && spec_is_variadic_param(f.params@.last())
}

pub fn is_func_last_param_variadic(func: &LuaFunctionType) -> (r: bool)
    ensures
        r == spec_last_param_variadic(*func),
{
    let n = func.params.len();
    if n == 0 {
        false
    } else {
        is_variadic_param(&func.params[n - 1])
    }
}

} // verus!
