use lua_semantics::completion::{
    BinaryOperator, CompletionBuilder, CompletionTriggerContext,
};
use lua_semantics::config::{
    calculate_include_and_exclude, Emmyrc, EmmyrcRuntime, EmmyrcWorkspace,
};
use lua_semantics::equality_comparison_provider;
use lua_semantics::equality_provider;
use lua_semantics::types::LuaType;

fn emmyrc(extensions: Vec<&str>, ignore_globs: Vec<&str>, ignore_dir: Vec<&str>) -> Emmyrc {
    Emmyrc {
        runtime: EmmyrcRuntime {
            extensions: extensions.into_iter().map(|s| s.to_string()).collect(),
        },
        workspace: EmmyrcWorkspace {
            ignore_globs: ignore_globs.into_iter().map(|s| s.to_string()).collect(),
            ignore_dir: ignore_dir.into_iter().map(|s| s.to_string()).collect(),
            library: vec![],
            workspace_roots: vec![],
            encoding: "utf-8".to_string(),
        },
    }
}

#[test]
fn default_patterns_cover_lua_and_extensions() {
    let rc = emmyrc(vec![".luau", "*.rockspec", "special.lua"], vec![], vec![]);
    let (inc, exc, dirs) = calculate_include_and_exclude(&rc, None, None);
    assert_eq!(
        inc,
        vec![
            "**/*.lua".to_string(),
            "**/*.luau".to_string(),
            "**/*.rockspec".to_string(),
            "**/.editorconfig".to_string(),
            "special.lua".to_string(),
        ]
    );
    assert!(exc.is_empty());
    assert!(dirs.is_empty());
}

#[test]
fn patterns_are_deduplicated_and_sorted() {
    let rc = emmyrc(
        vec![".lua"],
        vec!["**/build/**", "**/.git/**", "**/build/**"],
        vec!["node_modules", "target"],
    );
    let (inc, exc, dirs) = calculate_include_and_exclude(
        &rc,
        Some(vec!["**/out/**".to_string(), "**/.git/**".to_string()]),
        None,
    );
    // ".lua" expands to the same pattern as the built-in one and is
    // dropped as a duplicate
    assert_eq!(
        inc,
        vec!["**/*.lua".to_string(), "**/.editorconfig".to_string()]
    );
    assert_eq!(
        exc,
        vec![
            "**/.git/**".to_string(),
            "**/build/**".to_string(),
            "**/out/**".to_string(),
        ]
    );
    assert_eq!(dirs, vec!["node_modules".to_string(), "target".to_string()]);
}

#[test]
fn include_override_replaces_defaults() {
    let rc = emmyrc(vec![".luau"], vec![], vec![]);
    let (inc, _, _) = calculate_include_and_exclude(
        &rc,
        None,
        Some(vec!["b.lua".to_string(), "a.lua".to_string(), "b.lua".to_string()]),
    );
    assert_eq!(inc, vec!["a.lua".to_string(), "b.lua".to_string()]);
}

fn builder(context: CompletionTriggerContext) -> CompletionBuilder {
    CompletionBuilder {
        is_cancelled: false,
        is_space_trigger_character: false,
        is_invoked: false,
        stopped: false,
        context,
        completion_types: vec![],
    }
}

#[test]
fn equality_comparison_collects_left_type() {
    let mut b = builder(CompletionTriggerContext::BinaryExpr {
        op: BinaryOperator::OpEq,
        left_type: Some(LuaType::BooleanConst(true)),
    });
    let r = equality_comparison_provider::add_completion(&mut b);
    assert!(r.is_some());
    assert_eq!(b.completion_types.len(), 1);
    assert!(matches!(b.completion_types[0], LuaType::BooleanConst(true)));
    assert!(b.stopped);
}

#[test]
fn equality_comparison_ignores_other_positions() {
    let mut b = builder(CompletionTriggerContext::BinaryExpr {
        op: BinaryOperator::OpAdd,
        left_type: Some(LuaType::Integer),
    });
    assert!(equality_comparison_provider::add_completion(&mut b).is_none());
    assert!(b.completion_types.is_empty());
    assert!(!b.stopped);

    let mut cancelled = builder(CompletionTriggerContext::BinaryExpr {
        op: BinaryOperator::OpEq,
        left_type: Some(LuaType::Integer),
    });
    cancelled.is_cancelled = true;
    assert!(equality_comparison_provider::add_completion(&mut cancelled).is_none());
    assert!(cancelled.completion_types.is_empty());
}

#[test]
fn equality_provider_handles_table_fields_too() {
    let mut b = builder(CompletionTriggerContext::TableField {
        value_type: Some(LuaType::Str),
    });
    let r = equality_provider::add_completion(&mut b);
    assert!(r.is_some());
    assert!(matches!(b.completion_types[0], LuaType::Str));
    assert!(b.stopped);

    // explicit invocation keeps later providers running
    let mut inv = builder(CompletionTriggerContext::BinaryExpr {
        op: BinaryOperator::OpNe,
        left_type: Some(LuaType::Integer),
    });
    inv.is_invoked = true;
    assert!(equality_provider::add_completion(&mut inv).is_some());
    assert!(!inv.stopped);

    let mut idle = builder(CompletionTriggerContext::LocalStat);
    assert!(equality_provider::add_completion(&mut idle).is_none());
}

#[test]
fn structural_equality_compares_contents() {
    let a = LuaType::Union(vec![LuaType::Integer, LuaType::StringConst("x".to_string())]);
    let b = LuaType::Union(vec![LuaType::Integer, LuaType::StringConst("x".to_string())]);
    let c = LuaType::Union(vec![LuaType::Integer, LuaType::StringConst("y".to_string())]);
    assert!(a.type_equals(&b));
    assert!(!a.type_equals(&c));
    assert!(!a.type_equals(&LuaType::Integer));
    assert!(LuaType::IntegerConst(3).type_equals(&LuaType::IntegerConst(3)));
    assert!(!LuaType::IntegerConst(3).type_equals(&LuaType::IntegerConst(4)));
}
