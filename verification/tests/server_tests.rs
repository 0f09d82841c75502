use lua_semantics::attribute::{
    infer_attribute_arg_type, infer_attribute_uses, AttributeDeclRegistry,
};
use lua_semantics::call::{analyze_call, LuaDocParamInfo, LuaSignature, LuaSignatureIndex};
use lua_semantics::client::{get_client_id, ClientId, ClientInfo};
use lua_semantics::context::FormatterContext;
use lua_semantics::features::{
    ClientCapabilities, DiagnosticClientCapabilities, LspFeatures,
    SemanticTokensClientCapabilities, TextDocumentClientCapabilities,
    WorkspaceClientCapabilities,
};
use lua_semantics::index::LuaAttributeUse;
use lua_semantics::server::{
    can_process_during_init, handle_shutdown_decision, DocumentDiagnosticCapabilities,
    InitSignal, LspMessage, ServerMessageProcessor, ShutdownOutcome, ShutdownWait,
};
use lua_semantics::status::{ProgressTask, StatusBar, WorkDoneProgress};
use lua_semantics::syntax::{LuaAttributeUseSyntax, LuaDocTagAttributeUse, LuaLiteralToken};
use lua_semantics::types::{LuaSignatureId, LuaType, LuaTypeDeclId};
use lua_semantics::workspace::{FileId, Workspace, WorkspaceId};

#[test]
fn workspace_id_classification() {
    assert!(WorkspaceId { id: 0 }.is_std());
    assert!(WorkspaceId { id: 1 }.is_main());
    assert!(WorkspaceId { id: 2 }.is_library());
    assert!(!WorkspaceId { id: 1 }.is_library());
    assert!(WorkspaceId { id: 0 } < WorkspaceId { id: 2 });
    let w = Workspace::new("/tmp/proj".to_string(), WorkspaceId { id: 1 });
    assert!(w.id.is_main());
    assert_eq!(w.root, "/tmp/proj");
}

#[test]
fn client_names_resolve_to_editor_families() {
    let info = |name: &str| {
        Some(ClientInfo { name: name.to_string(), version: None })
    };
    assert!(get_client_id(&info("Visual Studio Code")).is_vscode());
    assert!(get_client_id(&info("VSCodium 1.2")).is_vscode());
    assert!(get_client_id(&info("Cursor")).is_vscode());
    assert!(get_client_id(&info("Neovim")).is_neovim());
    assert!(get_client_id(&info("coc.nvim")).is_neovim());
    assert!(get_client_id(&info("IntelliJ IDEA")).is_intellij());
    assert!(get_client_id(&info("PyCharm 2024")).is_intellij());
    assert!(get_client_id(&info("ed")).is_other());
    assert!(get_client_id(&None).is_other());
    assert!(ClientId::default().is_other());
}

#[test]
fn features_read_capability_announcements() {
    let caps = ClientCapabilities {
        text_document: Some(TextDocumentClientCapabilities {
            semantic_tokens: Some(SemanticTokensClientCapabilities {
                multiline_token_support: Some(true),
            }),
            diagnostic: Some(DiagnosticClientCapabilities { dynamic_registration: None }),
        }),
        workspace: Some(WorkspaceClientCapabilities { configuration: Some(true) }),
    };
    let features = LspFeatures::new(caps);
    assert!(features.supports_multiline_tokens());
    assert!(features.supports_config_request());
    assert!(features.supports_pull_diagnostics());

    let bare = LspFeatures::new(ClientCapabilities { text_document: None, workspace: None });
    assert!(!bare.supports_multiline_tokens());
    assert!(!bare.supports_config_request());
    assert!(!bare.supports_pull_diagnostics());
}

#[test]
fn progress_payloads_carry_task_identity() {
    let bar = StatusBar::new();
    assert_eq!(ProgressTask::LoadWorkspace.as_i32(), 0);
    assert_eq!(ProgressTask::DiagnoseWorkspace.as_i32(), 1);
    assert_eq!(ProgressTask::RefreshIndex.as_i32(), 2);
    assert_eq!(ProgressTask::LoadWorkspace.get_task_name(), "Load workspace");
    assert_eq!(ProgressTask::DiagnoseWorkspace.get_task_name(), "Diagnose workspace");
    assert_eq!(ProgressTask::RefreshIndex.get_task_name(), "Refresh index");

    let (create, begin) = bar.create_progress_task(ProgressTask::LoadWorkspace);
    assert_eq!(create.token, 0);
    assert_eq!(begin.token, 0);
    match begin.value {
        WorkDoneProgress::Begin { title, cancellable, message, percentage } => {
            assert_eq!(title, "Load workspace");
            assert_eq!(cancellable, Some(false));
            assert_eq!(message.as_deref(), Some("Load workspace"));
            assert!(percentage.is_none());
        }
        _ => panic!("begin payload expected"),
    }

    let report = bar.update_progress_task(
        ProgressTask::DiagnoseWorkspace,
        Some(40),
        Some("half".to_string()),
    );
    assert_eq!(report.token, 1);
    match report.value {
        WorkDoneProgress::Report { cancellable, message, percentage } => {
            assert_eq!(cancellable, Some(false));
            assert_eq!(message.as_deref(), Some("half"));
            assert_eq!(percentage, Some(40));
        }
        _ => panic!("report payload expected"),
    }

    let end = bar.finish_progress_task(ProgressTask::RefreshIndex, None);
    assert_eq!(end.token, 2);
    assert!(matches!(end.value, WorkDoneProgress::End { message: None }));
}

#[test]
fn init_gating_admits_only_safe_messages() {
    let note = |m: &str| LspMessage::Notification { method: m.to_string() };
    assert!(can_process_during_init(&LspMessage::Response));
    assert!(can_process_during_init(&note("workspace/didChangeConfiguration")));
    assert!(can_process_during_init(&note("$/cancelRequest")));
    assert!(can_process_during_init(&note("initialized")));
    assert!(!can_process_during_init(&note("textDocument/didOpen")));
    assert!(!can_process_during_init(
        &LspMessage::Request { method: "textDocument/hover".to_string() }
    ));
}

#[test]
fn diagnostic_registration_is_per_file() {
    let opts = DocumentDiagnosticCapabilities::register_capabilities();
    assert_eq!(opts.identifier.as_deref(), Some("EmmyLua"));
    assert!(!opts.inter_file_dependencies);
    assert!(!opts.workspace_diagnostics);
}

#[test]
fn formatter_trims_trailing_spaces() {
    let mut ctx = FormatterContext::new();
    assert!(ctx.is_line_first_token);
    ctx.text = b"local x  ".to_vec();
    ctx.reset_whitespace();
    assert_eq!(ctx.text, b"local x".to_vec());
    ctx.reset_whitespace();
    assert_eq!(ctx.text, b"local x".to_vec());
    ctx.text = b"   ".to_vec();
    ctx.reset_whitespace();
    assert!(ctx.text.is_empty());
}

#[test]
fn literal_arguments_get_narrowest_types() {
    let t = |lit: Option<LuaLiteralToken>| infer_attribute_arg_type(&lit);
    assert!(matches!(
        t(Some(LuaLiteralToken::Str("hi".to_string()))),
        LuaType::StringConst(s) if s == "hi"
    ));
    assert!(matches!(t(Some(LuaLiteralToken::Int(9))), LuaType::IntegerConst(9)));
    assert!(matches!(t(Some(LuaLiteralToken::Num)), LuaType::Number));
    assert!(matches!(t(Some(LuaLiteralToken::Bool(true))), LuaType::BooleanConst(true)));
    assert!(matches!(t(Some(LuaLiteralToken::Nil)), LuaType::Nil));
    assert!(matches!(t(Some(LuaLiteralToken::Dots)), LuaType::Any));
    assert!(matches!(t(Some(LuaLiteralToken::Question)), LuaType::Nil));
    assert!(matches!(t(None), LuaType::Unknown));
}

#[test]
fn undeclared_uses_are_skipped_and_nameless_abort() {
    let mut reg = AttributeDeclRegistry::new();
    reg.declare("known".to_string());
    let tag = LuaDocTagAttributeUse {
        uses: vec![
            LuaAttributeUseSyntax {
                name: Some("known".to_string()),
                args: Some(vec![Some(LuaLiteralToken::Int(1))]),
            },
            LuaAttributeUseSyntax { name: Some("unknown".to_string()), args: None },
        ],
    };
    let uses = infer_attribute_uses(&reg, &tag).unwrap();
    assert_eq!(uses.len(), 1);
    assert_eq!(uses[0].id.get_name(), "known");
    assert!(matches!(uses[0].args[0], LuaType::IntegerConst(1)));

    let bad = LuaDocTagAttributeUse {
        uses: vec![LuaAttributeUseSyntax { name: None, args: None }],
    };
    assert!(infer_attribute_uses(&reg, &bad).is_none());
}

#[test]
fn ctor_attribute_queues_call_resolution() {
    let mut index = LuaSignatureIndex::new();
    let sid = LuaSignatureId { id: 4 };
    index.insert(
        sid,
        LuaSignature {
            param_docs: vec![
                (0, LuaDocParamInfo { attributes: None }),
                (
                    1,
                    LuaDocParamInfo {
                        attributes: Some(vec![LuaAttributeUse::new(
                            LuaTypeDeclId::new("class_ctor".to_string()),
                            vec![],
                        )]),
                    },
                ),
            ],
        },
    );
    let file = FileId { id: 1 };
    let work = analyze_call(&index, &LuaType::Signature(sid), file, 42).unwrap();
    assert_eq!(work.signature_id, sid);
    assert_eq!(work.param_idx, 1);
    assert_eq!(work.call_id, 42);
    assert_eq!(work.file_id, file);

    // a non-signature prefix queues nothing
    assert!(analyze_call(&index, &LuaType::Table, file, 1).is_none());
    // a signature without the attribute queues nothing
    let sid2 = LuaSignatureId { id: 9 };
    index.insert(sid2, LuaSignature { param_docs: vec![(0, LuaDocParamInfo { attributes: None })] });
    assert!(analyze_call(&index, &LuaType::Signature(sid2), file, 1).is_none());
}

#[test]
fn shutdown_handshake_outcomes() {
    let note = |m: &str| LspMessage::Notification { method: m.to_string() };
    let shutdown = "shutdown".to_string();
    assert_eq!(
        handle_shutdown_decision(&"textDocument/hover".to_string(), ShutdownWait::TimedOut),
        ShutdownOutcome::NotShutdown
    );
    assert_eq!(
        handle_shutdown_decision(&shutdown, ShutdownWait::Message(note("exit"))),
        ShutdownOutcome::Exit
    );
    assert_eq!(
        handle_shutdown_decision(&shutdown, ShutdownWait::Message(note("initialized"))),
        ShutdownOutcome::UnexpectedMessage
    );
    assert_eq!(
        handle_shutdown_decision(&shutdown, ShutdownWait::Message(LspMessage::Response)),
        ShutdownOutcome::UnexpectedMessage
    );
    assert_eq!(
        handle_shutdown_decision(&shutdown, ShutdownWait::ChannelClosed),
        ShutdownOutcome::ChannelClosedEarly
    );
    assert_eq!(
        handle_shutdown_decision(&shutdown, ShutdownWait::TimedOut),
        ShutdownOutcome::WaitTimedOut
    );
}

#[test]
fn init_gate_completes_once() {
    let mut p = ServerMessageProcessor::new();
    assert!(!p.initialization_complete);
    p.queue_pending();
    p.queue_pending();
    assert!(!p.check_initialization_complete(InitSignal::Pending));
    assert!(!p.initialization_complete);
    assert!(p.check_initialization_complete(InitSignal::Ready));
    assert!(p.initialization_complete);
    assert_eq!(p.pending_count, 2);
    // a second poll changes nothing
    assert!(!p.check_initialization_complete(InitSignal::Ready));

    let mut q = ServerMessageProcessor::new();
    assert!(q.check_initialization_complete(InitSignal::Closed));
    assert!(q.initialization_complete);
}
