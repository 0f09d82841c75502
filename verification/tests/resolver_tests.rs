use lua_semantics::resolve::resolve_signature_by_args;
use lua_semantics::signature::{LuaFunctionParam, LuaFunctionType};
use lua_semantics::types::{InferFailReason, LuaType};

fn param(name: &str, ty: Option<LuaType>) -> LuaFunctionParam {
    LuaFunctionParam { name: name.to_string(), ty }
}

fn func(colon: bool, params: Vec<LuaFunctionParam>) -> LuaFunctionType {
    LuaFunctionType::new(colon, params, LuaType::Any)
}

#[test]
fn empty_candidates_fail() {
    let overloads: Vec<LuaFunctionType> = Vec::new();
    let args = vec![LuaType::Str];
    let r = resolve_signature_by_args(&overloads, &args, false, None);
    assert!(matches!(r, Err(InferFailReason::NoCandidate)));
}

#[test]
fn single_candidate_wins_unconditionally() {
    let overloads = vec![func(false, vec![param("x", Some(LuaType::Integer))])];
    let args = vec![LuaType::Str];
    let r = resolve_signature_by_args(&overloads, &args, false, None).unwrap();
    assert_eq!(r.get_params().len(), 1);
}

#[test]
fn zero_args_prefer_zero_param_candidate() {
    let overloads = vec![
        func(false, vec![param("x", Some(LuaType::Str))]),
        func(false, vec![]),
        func(false, vec![param("y", Some(LuaType::Integer))]),
    ];
    let args: Vec<LuaType> = Vec::new();
    let r = resolve_signature_by_args(&overloads, &args, false, None).unwrap();
    assert_eq!(r.get_params().len(), 0);
}

#[test]
fn exact_tail_match_beats_longer_overload() {
    // resolver exact-match priority: f(x: string) wins over
    // f(x: string, y: number?) for a single string argument
    let overloads = vec![
        func(false, vec![param("x", Some(LuaType::Str))]),
        func(
            false,
            vec![
                param("x", Some(LuaType::Str)),
                param("y", Some(LuaType::Union(vec![LuaType::Number, LuaType::Nil]))),
            ],
        ),
    ];
    let args = vec![LuaType::StringConst("hello".to_string())];
    let r = resolve_signature_by_args(&overloads, &args, false, None).unwrap();
    assert_eq!(r.get_params().len(), 1);
}

#[test]
fn colon_call_on_dot_definition_shifts_alignment() {
    // obj:m(a) against function M.m(self, a): the argument aligns to
    // the second declared parameter
    let overloads = vec![
        func(
            false,
            vec![param("self", Some(LuaType::Table)), param("a", Some(LuaType::Number))],
        ),
        func(
            false,
            vec![param("p", Some(LuaType::Str)), param("q", Some(LuaType::Str))],
        ),
    ];
    let args = vec![LuaType::Number];
    let r = resolve_signature_by_args(&overloads, &args, true, None).unwrap();
    assert_eq!(r.get_params()[0].name, "self");
}

#[test]
fn dot_call_on_colon_definition_shifts_alignment() {
    // m(obj, a) against function M:m(a): argument 0 can never satisfy
    // the implicit self slot, argument 1 aligns to parameter 0
    let overloads = vec![
        func(true, vec![param("a", Some(LuaType::Number))]),
        func(false, vec![param("x", Some(LuaType::Str)), param("y", Some(LuaType::Str))]),
    ];
    let args = vec![LuaType::Table, LuaType::Number];
    let r = resolve_signature_by_args(&overloads, &args, false, None).unwrap();
    assert!(r.is_colon_define());
}

#[test]
fn variadic_tail_accepts_extra_arguments() {
    let overloads = vec![
        func(false, vec![param("x", Some(LuaType::Str))]),
        func(
            false,
            vec![param("x", Some(LuaType::Integer)), param("...", Some(LuaType::Integer))],
        ),
    ];
    let args = vec![LuaType::Integer, LuaType::Integer, LuaType::Integer];
    let r = resolve_signature_by_args(&overloads, &args, false, None).unwrap();
    assert_eq!(r.get_params().len(), 2);
}

#[test]
fn result_is_always_an_input_candidate() {
    // no resolution ever synthesizes a signature: the result is one
    // of the inputs, pointer-identical to a slice element
    let overloads = vec![
        func(false, vec![param("a", Some(LuaType::Boolean))]),
        func(false, vec![param("b", Some(LuaType::Integer))]),
        func(false, vec![param("c", None)]),
    ];
    let args = vec![LuaType::Str];
    let r = resolve_signature_by_args(&overloads, &args, false, None).unwrap();
    let found = overloads.iter().any(|f| {
        f.is_colon_define() == r.is_colon_define()
            && f.get_params().len() == r.get_params().len()
            && f.get_params()[0].name == r.get_params()[0].name
    });
    assert!(found);
    assert_eq!(r.get_params()[0].name, "c");
}

#[test]
fn nullable_padding_keeps_optional_tail_overload() {
    // padding round: a missing trailing parameter is accepted when
    // its declared type is nullable
    let overloads = vec![
        func(
            false,
            vec![
                param("x", Some(LuaType::Str)),
                param("y", Some(LuaType::Union(vec![LuaType::Integer, LuaType::Nil]))),
                param("z", Some(LuaType::Union(vec![LuaType::Str, LuaType::Nil]))),
            ],
        ),
        func(
            false,
            vec![param("x", Some(LuaType::Str)), param("y", Some(LuaType::Integer))],
        ),
    ];
    let args = vec![LuaType::Str];
    let r = resolve_signature_by_args(&overloads, &args, false, None).unwrap();
    assert_eq!(r.get_params().len(), 3);
}
