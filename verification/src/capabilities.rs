//! The records exchanged during the handshake: what the server advertises
//! and how it answers the `initialize` request.

use vstd::prelude::*;
use serde_json::Value;
use tower_lsp::lsp_types::{
    CodeLensOptions,
    CompletionOptions,
    DiagnosticServerCapabilities,
    DocumentLinkOptions,
    DocumentOnTypeFormattingOptions,
    ExecuteCommandOptions,
    PositionEncodingKind,
    SemanticTokensServerCapabilities,
    SignatureHelpOptions,
    TextDocumentSyncCapability,
    WorkspaceServerCapabilities,
};

verus! {

/// `tower_lsp::lsp_types::PositionEncodingKind`, which a capabilities record
/// carries as it is. Nothing here makes one or looks inside it.
#[verifier::external_type_specification]
#[verifier::external_body]
pub struct ExPositionEncodingKind(tower_lsp::lsp_types::PositionEncodingKind);

/// `tower_lsp::lsp_types::TextDocumentSyncCapability`, which a capabilities record
/// carries as it is. Nothing here makes one or looks inside it.
#[verifier::external_type_specification]
#[verifier::external_body]
pub struct ExTextDocumentSyncCapability(tower_lsp::lsp_types::TextDocumentSyncCapability);

/// `tower_lsp::lsp_types::CompletionOptions`, which a capabilities record
/// carries as it is. Nothing here makes one or looks inside it.
#[verifier::external_type_specification]
#[verifier::external_body]
pub struct ExCompletionOptions(tower_lsp::lsp_types::CompletionOptions);

/// `tower_lsp::lsp_types::SignatureHelpOptions`, which a capabilities record
/// carries as it is. Nothing here makes one or looks inside it.
#[verifier::external_type_specification]
#[verifier::external_body]
pub struct ExSignatureHelpOptions(tower_lsp::lsp_types::SignatureHelpOptions);

/// `tower_lsp::lsp_types::CodeLensOptions`, which a capabilities record
/// carries as it is. Nothing here makes one or looks inside it.
#[verifier::external_type_specification]
#[verifier::external_body]
pub struct ExCodeLensOptions(tower_lsp::lsp_types::CodeLensOptions);

/// `tower_lsp::lsp_types::DocumentOnTypeFormattingOptions`, which a capabilities record
/// carries as it is. Nothing here makes one or looks inside it.
#[verifier::external_type_specification]
#[verifier::external_body]
pub struct ExDocumentOnTypeFormattingOptions(tower_lsp::lsp_types::DocumentOnTypeFormattingOptions);

/// `tower_lsp::lsp_types::DocumentLinkOptions`, which a capabilities record
/// carries as it is. Nothing here makes one or looks inside it.
#[verifier::external_type_specification]
#[verifier::external_body]
pub struct ExDocumentLinkOptions(tower_lsp::lsp_types::DocumentLinkOptions);

/// `tower_lsp::lsp_types::ExecuteCommandOptions`, which a capabilities record
/// carries as it is. Nothing here makes one or looks inside it.
#[verifier::external_type_specification]
#[verifier::external_body]
pub struct ExExecuteCommandOptions(tower_lsp::lsp_types::ExecuteCommandOptions);

/// `tower_lsp::lsp_types::WorkspaceServerCapabilities`, which a capabilities record
/// carries as it is. Nothing here makes one or looks inside it.
#[verifier::external_type_specification]
#[verifier::external_body]
pub struct ExWorkspaceServerCapabilities(tower_lsp::lsp_types::WorkspaceServerCapabilities);

/// `tower_lsp::lsp_types::SemanticTokensServerCapabilities`, which a capabilities record
/// carries as it is. Nothing here makes one or looks inside it.
#[verifier::external_type_specification]
#[verifier::external_body]
pub struct ExSemanticTokensServerCapabilities(tower_lsp::lsp_types::SemanticTokensServerCapabilities);

/// `tower_lsp::lsp_types::DiagnosticServerCapabilities`, which a capabilities record
/// carries as it is. Nothing here makes one or looks inside it.
#[verifier::external_type_specification]
#[verifier::external_body]
pub struct ExDiagnosticServerCapabilities(tower_lsp::lsp_types::DiagnosticServerCapabilities);

/// `serde_json::Value`, which a capabilities record
/// carries as it is. Nothing here makes one or looks inside it.
#[verifier::external_type_specification]
#[verifier::external_body]
pub struct ExValue(serde_json::Value);

/// What a server advertises to its client.
///
/// Each field is one capability of the protocol, and `None` leaves it out of
/// the record: the feature is not offered. A feature that is only switched on
/// or off is a boolean here; one that takes options carries them as the
/// protocol defines them.
#[derive(Debug, PartialEq, Eq)]
pub struct ServerCapabilities {
    /// The position encoding that the server picked from the client's offers.
    pub position_encoding: Option<PositionEncodingKind>,
    /// How text documents are synchronised.
    pub text_document_sync: Option<TextDocumentSyncCapability>,
    /// `textDocument/selectionRange`.
    pub selection_range_provider: Option<bool>,
    /// `textDocument/hover`.
    pub hover_provider: Option<bool>,
    /// `textDocument/completion`.
    pub completion_provider: Option<CompletionOptions>,
    /// `textDocument/signatureHelp`.
    pub signature_help_provider: Option<SignatureHelpOptions>,
    /// `textDocument/definition`.
    pub definition_provider: Option<bool>,
    /// `textDocument/typeDefinition`.
    pub type_definition_provider: Option<bool>,
    /// `textDocument/implementation`.
    pub implementation_provider: Option<bool>,
    /// `textDocument/references`.
    pub references_provider: Option<bool>,
    /// `textDocument/documentHighlight`.
    pub document_highlight_provider: Option<bool>,
    /// `textDocument/documentSymbol`.
    pub document_symbol_provider: Option<bool>,
    /// `workspace/symbol`.
    pub workspace_symbol_provider: Option<bool>,
    /// `textDocument/codeAction`.
    pub code_action_provider: Option<bool>,
    /// `textDocument/codeLens`.
    pub code_lens_provider: Option<CodeLensOptions>,
    /// `textDocument/formatting`.
    pub document_formatting_provider: Option<bool>,
    /// `textDocument/rangeFormatting`.
    pub document_range_formatting_provider: Option<bool>,
    /// `textDocument/onTypeFormatting`.
    pub document_on_type_formatting_provider: Option<DocumentOnTypeFormattingOptions>,
    /// `textDocument/rename`.
    pub rename_provider: Option<bool>,
    /// `textDocument/documentLink`.
    pub document_link_provider: Option<DocumentLinkOptions>,
    /// `textDocument/documentColor`.
    pub color_provider: Option<bool>,
    /// `textDocument/foldingRange`.
    pub folding_range_provider: Option<bool>,
    /// `textDocument/declaration`.
    pub declaration_provider: Option<bool>,
    /// `workspace/executeCommand`.
    pub execute_command_provider: Option<ExecuteCommandOptions>,
    /// What the server offers for the workspace as a whole.
    pub workspace: Option<WorkspaceServerCapabilities>,
    /// `textDocument/prepareCallHierarchy`.
    pub call_hierarchy_provider: Option<bool>,
    /// `textDocument/semanticTokens`.
    pub semantic_tokens_provider: Option<SemanticTokensServerCapabilities>,
    /// `textDocument/moniker`.
    pub moniker_provider: Option<bool>,
    /// `textDocument/linkedEditingRange`.
    pub linked_editing_range_provider: Option<bool>,
    /// `textDocument/inlineValue`.
    pub inline_value_provider: Option<bool>,
    /// `textDocument/inlayHint`.
    pub inlay_hint_provider: Option<bool>,
    /// `textDocument/diagnostic`.
    pub diagnostic_provider: Option<DiagnosticServerCapabilities>,
    /// Capabilities outside the protocol.
    pub experimental: Option<Value>,
}

impl ServerCapabilities {
    /// The record that advertises nothing: every capability is left out.
    pub open spec fn unset() -> ServerCapabilities {
        ServerCapabilities {
            position_encoding: None,
            text_document_sync: None,
            selection_range_provider: None,
            hover_provider: None,
            completion_provider: None,
            signature_help_provider: None,
            definition_provider: None,
            type_definition_provider: None,
            implementation_provider: None,
            references_provider: None,
            document_highlight_provider: None,
            document_symbol_provider: None,
            workspace_symbol_provider: None,
            code_action_provider: None,
            code_lens_provider: None,
            document_formatting_provider: None,
            document_range_formatting_provider: None,
            document_on_type_formatting_provider: None,
            rename_provider: None,
            document_link_provider: None,
            color_provider: None,
            folding_range_provider: None,
            declaration_provider: None,
            execute_command_provider: None,
            workspace: None,
            call_hierarchy_provider: None,
            semantic_tokens_provider: None,
            moniker_provider: None,
            linked_editing_range_provider: None,
            inline_value_provider: None,
            inlay_hint_provider: None,
            diagnostic_provider: None,
            experimental: None,
        }
    }
}

impl Default for ServerCapabilities {
    fn default() -> (capabilities: ServerCapabilities)
        ensures
            capabilities == ServerCapabilities::unset(),
    {
        ServerCapabilities {
            position_encoding: None,
            text_document_sync: None,
            selection_range_provider: None,
            hover_provider: None,
            completion_provider: None,
            signature_help_provider: None,
            definition_provider: None,
            type_definition_provider: None,
            implementation_provider: None,
            references_provider: None,
            document_highlight_provider: None,
            document_symbol_provider: None,
            workspace_symbol_provider: None,
            code_action_provider: None,
            code_lens_provider: None,
            document_formatting_provider: None,
            document_range_formatting_provider: None,
            document_on_type_formatting_provider: None,
            rename_provider: None,
            document_link_provider: None,
            color_provider: None,
            folding_range_provider: None,
            declaration_provider: None,
            execute_command_provider: None,
            workspace: None,
            call_hierarchy_provider: None,
            semantic_tokens_provider: None,
            moniker_provider: None,
            linked_editing_range_provider: None,
            inline_value_provider: None,
            inlay_hint_provider: None,
            diagnostic_provider: None,
            experimental: None,
        }
    }
}

/// How the server names itself to the client.
#[derive(Clone, Debug, PartialEq, Eq)]
pub struct ServerInfo {
    /// The server's name.
    pub name: String,
    /// The server's version, if it states one.
    pub version: Option<String>,
}

/// A `ServerInfo` as a mathematical value.
pub struct ServerInfoView {
    pub name: Seq<char>,
    pub version: Option<Seq<char>>,
}

impl View for ServerInfo {
    type V = ServerInfoView;

    open spec fn view(&self) -> ServerInfoView {
        ServerInfoView {
            name: self.name@,
            version: match self.version {
                Some(version) => Some(version@),
                None => None,
            },
        }
    }
}

/// The result of a successful `initialize` request.
#[derive(Debug, PartialEq, Eq)]
pub struct InitializeResult {
    /// What the server offers.
    pub capabilities: ServerCapabilities,
    /// Who the server is, if it says so.
    pub server_info: Option<ServerInfo>,
}

/// An `InitializeResult` as a mathematical value.
pub struct InitializeResultView {
    pub capabilities: ServerCapabilities,
    pub server_info: Option<ServerInfoView>,
}

impl InitializeResultView {
    /// The result that advertises nothing and names no server.
    pub open spec fn unset() -> InitializeResultView {
        InitializeResultView { capabilities: ServerCapabilities::unset(), server_info: None }
    }
}

impl View for InitializeResult {
    type V = InitializeResultView;

    open spec fn view(&self) -> InitializeResultView {
        InitializeResultView {
            capabilities: self.capabilities,
            server_info: match self.server_info {
                Some(info) => Some(info@),
                None => None,
            },
        }
    }
}

impl Default for InitializeResult {
    fn default() -> (result: InitializeResult)
        ensures
            result@ == InitializeResultView::unset(),
    {
        InitializeResult { capabilities: ServerCapabilities::default(), server_info: None }
    }
}

} // verus!
