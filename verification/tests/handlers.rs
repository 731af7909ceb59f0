use core_engine::{
    Backend, ConnectionState, InitializeResult, LogMessage, MessageType, ServerCapabilities,
    GREETING,
};
use tower_lsp::lsp_types::{ClientInfo, InitializeParams, InitializedParams};

fn unset_capabilities() -> ServerCapabilities {
    ServerCapabilities {
        position_encoding: None,
        text_document_sync: None,
        selection_range_provider: None,
        hover_provider: None,
        completion_provider: None,
        signature_help_provider: None,
        definition_provider: None,
        type_definition_provider: None,
        implementation_provider: None,
        references_provider: None,
        document_highlight_provider: None,
        document_symbol_provider: None,
        workspace_symbol_provider: None,
        code_action_provider: None,
        code_lens_provider: None,
        document_formatting_provider: None,
        document_range_formatting_provider: None,
        document_on_type_formatting_provider: None,
        rename_provider: None,
        document_link_provider: None,
        color_provider: None,
        folding_range_provider: None,
        declaration_provider: None,
        execute_command_provider: None,
        workspace: None,
        call_hierarchy_provider: None,
        semantic_tokens_provider: None,
        moniker_provider: None,
        linked_editing_range_provider: None,
        inline_value_provider: None,
        inlay_hint_provider: None,
        diagnostic_provider: None,
        experimental: None,
    }
}

fn detailed_params() -> InitializeParams {
    let mut params = InitializeParams::default();
    params.process_id = Some(4242);
    params.client_info = Some(ClientInfo {
        name: "editor".to_string(),
        version: Some("1.2.3".to_string()),
    });
    params.locale = Some("en-GB".to_string());
    params
}

#[test]
fn greeting_is_the_fixed_text() {
    assert_eq!(GREETING, "IAMA Core Engine Started");
}

#[test]
fn default_capabilities_leave_every_field_out() {
    assert_eq!(ServerCapabilities::default(), unset_capabilities());
}

#[test]
fn default_initialize_result_names_no_server() {
    let result = InitializeResult::default();
    assert_eq!(result.capabilities, unset_capabilities());
    assert_eq!(result.server_info, None);
}

#[test]
fn info_message_carries_its_text() {
    let message = LogMessage::info("ready");
    assert_eq!(message.typ, MessageType::Info);
    assert_eq!(message.message, "ready");
    assert_ne!(message.typ, MessageType::Log);
}

#[test]
fn initialize_answers_with_unset_capabilities() {
    let mut backend = Backend::new();
    let reply = backend.initialize(InitializeParams::default());
    let result = reply.expect("initialize never fails");
    assert_eq!(result.capabilities, unset_capabilities());
    assert_eq!(result.server_info, None);
    assert_eq!(
        result,
        InitializeResult { capabilities: ServerCapabilities::default(), server_info: None }
    );
}

#[test]
fn initialize_ignores_its_params() {
    let mut plain = Backend::new();
    let mut detailed = Backend::new();
    let from_plain = plain.initialize(InitializeParams::default());
    let from_detailed = detailed.initialize(detailed_params());
    assert_eq!(from_plain, from_detailed);
    assert_eq!(from_detailed.unwrap().capabilities, unset_capabilities());
    assert_eq!(plain.state(), detailed.state());
}

#[test]
fn initialize_alone_leaves_the_connection_uninitialized() {
    let mut backend = Backend::new();
    assert_eq!(backend.state(), ConnectionState::Uninitialized);
    assert!(backend.initialize(InitializeParams::default()).is_ok());
    assert_eq!(backend.state(), ConnectionState::Uninitialized);
}

#[test]
fn initialized_hands_back_the_greeting_at_info() {
    let mut backend = Backend::new();
    assert!(backend.initialize(InitializeParams::default()).is_ok());
    let message = backend.initialized(InitializedParams {});
    assert_eq!(
        message,
        LogMessage { typ: MessageType::Info, message: "IAMA Core Engine Started".to_string() }
    );
    assert_eq!(backend.state(), ConnectionState::Initialized);
}

#[test]
fn initialized_without_initialize_greets_but_changes_nothing() {
    let mut backend = Backend::new();
    let message = backend.initialized(InitializedParams {});
    assert_eq!(message.typ, MessageType::Info);
    assert_eq!(message.message, GREETING);
    assert_eq!(backend.state(), ConnectionState::Uninitialized);
}

#[test]
fn initialized_twice_greets_twice() {
    let mut backend = Backend::new();
    assert!(backend.initialize(InitializeParams::default()).is_ok());
    let first = backend.initialized(InitializedParams {});
    let second = backend.initialized(InitializedParams {});
    assert_eq!(first, second);
    assert_eq!(backend.state(), ConnectionState::Initialized);
}

#[test]
fn shutdown_succeeds_on_a_fresh_connection() {
    let mut backend = Backend::new();
    assert_eq!(backend.shutdown(), Ok(()));
    assert_eq!(backend.state(), ConnectionState::Uninitialized);
}

#[test]
fn shutdown_succeeds_between_the_halves_of_the_handshake() {
    let mut backend = Backend::new();
    assert!(backend.initialize(InitializeParams::default()).is_ok());
    assert_eq!(backend.shutdown(), Ok(()));
    assert_eq!(backend.state(), ConnectionState::Uninitialized);
    backend.initialized(InitializedParams {});
    assert_eq!(backend.state(), ConnectionState::Initialized);
}

#[test]
fn shutdown_moves_an_initialized_connection_on() {
    let mut backend = Backend::new();
    assert!(backend.initialize(InitializeParams::default()).is_ok());
    backend.initialized(InitializedParams {});
    assert_eq!(backend.shutdown(), Ok(()));
    assert_eq!(backend.state(), ConnectionState::ShuttingDown);
}

#[test]
fn shutdown_twice_succeeds_both_times() {
    let mut backend = Backend::new();
    assert!(backend.initialize(InitializeParams::default()).is_ok());
    backend.initialized(InitializedParams {});
    assert_eq!(backend.shutdown(), Ok(()));
    let after_first = backend.state();
    assert_eq!(backend.shutdown(), Ok(()));
    assert_eq!(backend.state(), after_first);
    assert_eq!(backend.state(), ConnectionState::ShuttingDown);
}

#[test]
fn shutdown_twice_succeeds_on_a_fresh_connection() {
    let mut backend = Backend::new();
    assert_eq!(backend.shutdown(), Ok(()));
    assert_eq!(backend.shutdown(), Ok(()));
    assert_eq!(backend.state(), ConnectionState::Uninitialized);
}

#[test]
fn nothing_takes_a_shutting_down_connection_back() {
    let mut backend = Backend::new();
    assert!(backend.initialize(InitializeParams::default()).is_ok());
    backend.initialized(InitializedParams {});
    assert!(backend.shutdown().is_ok());
    assert!(backend.initialize(detailed_params()).is_ok());
    assert_eq!(backend.state(), ConnectionState::ShuttingDown);
    backend.initialized(InitializedParams {});
    assert_eq!(backend.state(), ConnectionState::ShuttingDown);
}

#[test]
fn a_second_initialize_is_answered_like_the_first() {
    let mut backend = Backend::new();
    let first = backend.initialize(InitializeParams::default());
    backend.initialized(InitializedParams {});
    let second = backend.initialize(detailed_params());
    assert_eq!(first, second);
    assert!(second.is_ok());
    assert_eq!(backend.state(), ConnectionState::Initialized);
}
