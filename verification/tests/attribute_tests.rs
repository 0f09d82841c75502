use lua_semantics::diagnostics::DiagnosticCode;
use lua_semantics::index::LuaSemanticDeclId;
use lua_semantics::property::LuaDeprecated;
use lua_semantics::syntax::{
    attribute_find_doc_field, LuaSyntaxNodeKind, LuaSyntaxSibling,
};
use lua_semantics::vworkspace::VirtualWorkspace;
use lua_semantics::diagnostics::TextRange;
use lua_semantics::readonly::{LuaAssignStat, LuaAssignTarget, ReadOnlyChecker};

#[test]
fn test_constructor() {
    let mut ws = VirtualWorkspace::new();

    ws.def_files(vec![
        (
            "init.lua",
            r#"
                A = meta("A")
                "#,
        ),
        (
            "meta.lua",
            r#"
            ---@attribute constructor(name: string, root_class: string?, strip_self: boolean?, return_self: boolean?)

            ---@generic T
            ---@[constructor("__init")]
            ---@param name `T`
            ---@return T
            function meta(name)
            end
                "#,
        ),
    ]);
}

#[test]
fn test_def_attribute() {
    let mut ws = VirtualWorkspace::new_with_init_std_lib();

    ws.check_code_for(
        DiagnosticCode::AssignTypeMismatch,
        r#"
        ---@[lsp_perf_optim("check_table_field")]
        local config = {}
        "#,
    );
}

#[test]
fn attribute_attaches_to_following_field() {
    // an attribute usage immediately followed by a field tag attaches
    // to that field
    let mut ws = VirtualWorkspace::new();
    ws.def(
        r#"
        ---@field a string
        ---@[deprecated("gone")]
        ---@field b string
        local klass = {}
        "#,
    );
    let b = ws.find_decl("b").expect("field b should have a declaration");
    let prop = ws
        .db
        .properties
        .get_property(&b)
        .expect("field b should carry a property record");
    match prop.deprecated() {
        Some(LuaDeprecated::DeprecatedWithMessage(m)) => assert_eq!(m, "gone"),
        other => panic!("field b should be deprecated with a message, got {:?}", other),
    }
    // field a was never annotated: either no record at all, or one
    // without a deprecation marker
    if let Some(a) = ws.find_decl("a") {
        if let Some(prop_a) = ws.db.properties.get_property(&a) {
            assert!(prop_a.deprecated().is_none());
        }
    }
}

#[test]
fn attribute_without_owner_is_orphan() {
    // a usage followed by a blank line and an expression statement
    // has no special owner and no normal target: it is dropped with
    // an orphan diagnostic
    let mut ws = VirtualWorkspace::new();
    ws.def(
        r#"
        ---@[deprecated]

        print(1)
        "#,
    );
    assert!(ws
        .diagnostics
        .iter()
        .any(|d| d.code == DiagnosticCode::OrphanAttribute));
}

#[test]
fn adjacency_scan_finds_field_first() {
    let siblings = vec![
        LuaSyntaxSibling { kind: LuaSyntaxNodeKind::DocTagOther, decl: None },
        LuaSyntaxSibling {
            kind: LuaSyntaxNodeKind::DocTagField,
            decl: Some(LuaSemanticDeclId::new(7)),
        },
    ];
    assert_eq!(attribute_find_doc_field(&siblings), Some(1));
}

#[test]
fn adjacency_scan_stops_at_comment_block_expr() {
    for stopper in [
        LuaSyntaxNodeKind::Comment,
        LuaSyntaxNodeKind::Block,
        LuaSyntaxNodeKind::Expr,
    ] {
        let siblings = vec![
            LuaSyntaxSibling { kind: stopper, decl: None },
            LuaSyntaxSibling {
                kind: LuaSyntaxNodeKind::DocTagField,
                decl: Some(LuaSemanticDeclId::new(7)),
            },
        ];
        assert_eq!(attribute_find_doc_field(&siblings), None);
    }
}

#[test]
fn readonly_attribute_sets_feature_and_reports() {
    let mut ws = VirtualWorkspace::new();
    ws.def(
        r#"
        ---@[readonly]
        ---@field frozen string
        local klass = {}
        "#,
    );
    let frozen = ws.find_decl("frozen").expect("field frozen should exist");

    let stats = vec![LuaAssignStat {
        targets: vec![LuaAssignTarget {
            decl: Some(frozen),
            range: TextRange { start: 10, end: 16 },
            prefix_decl: None,
            prefix_range: TextRange { start: 0, end: 0 },
        }],
    }];
    let mut diagnostics = Vec::new();
    ReadOnlyChecker::check(&ws.db.properties, &mut diagnostics, &stats);
    assert_eq!(diagnostics.len(), 1);
    assert_eq!(diagnostics[0].code, DiagnosticCode::ReadOnly);
    assert_eq!(diagnostics[0].range.start, 10);

    // a write to an unmarked declaration reports nothing
    let other_stats = vec![LuaAssignStat {
        targets: vec![LuaAssignTarget {
            decl: Some(LuaSemanticDeclId::new(9999)),
            range: TextRange { start: 0, end: 1 },
            prefix_decl: None,
            prefix_range: TextRange { start: 0, end: 0 },
        }],
    }];
    let mut none = Vec::new();
    ReadOnlyChecker::check(&ws.db.properties, &mut none, &other_stats);
    assert!(none.is_empty());
}

#[test]
fn attribute_falls_back_to_comment_target() {
    // with no field tag following, the usage attaches to the
    // declaration the comment documents
    let mut ws = VirtualWorkspace::new();
    ws.def(
        r#"
        ---@attribute constructor(name: string)

        ---@[constructor("__init")]
        ---@param name string
        function meta(name)
        end
        "#,
    );
    let meta = ws.find_decl("meta").expect("the function should own the usage");
    let uses = ws
        .db
        .properties
        .get_attribute_uses(&meta)
        .expect("the usage should be recorded");
    assert_eq!(uses.len(), 1);
    assert_eq!(uses[0].id.get_name(), "constructor");
    assert_eq!(uses[0].args.len(), 1);
    assert!(matches!(&uses[0].args[0],
        lua_semantics::types::LuaType::StringConst(s) if s == "__init"));
    assert!(ws.diagnostics.is_empty());
}
