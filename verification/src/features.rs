//! The client capabilities the server consults, and the feature
//! switches derived from them.

use vstd::prelude::*;

verus! {

/// What a client said about its semantic-token support.
pub struct SemanticTokensClientCapabilities {
    pub multiline_token_support: Option<bool>,
}

/// What a client said about its diagnostic pulling support.
pub struct DiagnosticClientCapabilities {
    pub dynamic_registration: Option<bool>,
}

/// Text-document capabilities the server reads.
pub struct TextDocumentClientCapabilities {
    pub semantic_tokens: Option<SemanticTokensClientCapabilities>,
    pub diagnostic: Option<DiagnosticClientCapabilities>,
}

/// Workspace capabilities the server reads.
pub struct WorkspaceClientCapabilities {
    pub configuration: Option<bool>,
}

/// The capability announcement of a connected client, reduced to the
/// parts this server consults.
pub struct ClientCapabilities {
    pub text_document: Option<TextDocumentClientCapabilities>,
    pub workspace: Option<WorkspaceClientCapabilities>,
}

/// Feature switches derived from the client's capabilities.
pub struct LspFeatures {
    pub client_capabilities: ClientCapabilities,
}

/// Whether the capabilities announce multiline semantic tokens.
pub open spec fn spec_supports_multiline_tokens(c: ClientCapabilities) -> bool {
    match c.text_document {
        Some(td) => match td.semantic_tokens {
            Some(st) => st.multiline_token_support == Some(true),
            None => false,
        },
        None => false,
    }
}

/// Whether the capabilities announce configuration requests.
pub open spec fn spec_supports_config_request(c: ClientCapabilities) -> bool {
    match c.workspace {
        Some(w) => w.configuration == Some(true),
        None => false,
    }
}

/// Whether the capabilities announce pull diagnostics.
pub open spec fn spec_supports_pull_diagnostics(c: ClientCapabilities) -> bool {
    match c.text_document {
        Some(td) => td.diagnostic is Some,
        None => false,
    }
}

impl LspFeatures {
    pub fn new(client_capabilities: ClientCapabilities) -> (r: LspFeatures)
        ensures
            r.client_capabilities == client_capabilities,
    {
        LspFeatures { client_capabilities }
    }

    pub fn supports_multiline_tokens(&self) -> (r: bool)
        ensures
            r == spec_supports_multiline_tokens(self.client_capabilities),
    {
        if let Some(td) = &self.client_capabilities.text_document {
            if let Some(st) = &td.semantic_tokens {
                if let Some(supports) = st.multiline_token_support {
                    return supports;
                }
            }
        }
        false
    }

    pub fn supports_config_request(&self) -> (r: bool)
        ensures
            r == spec_supports_config_request(self.client_capabilities),
    {
        if let Some(w) = &self.client_capabilities.workspace {
            if let Some(supports) = w.configuration {
                return supports;
            }
        }
        false
    }

    pub fn supports_pull_diagnostics(&self) -> (r: bool)
        ensures
            r == spec_supports_pull_diagnostics(self.client_capabilities),
    {
        if let Some(td) = &self.client_capabilities.text_document {
            return td.diagnostic.is_some();
        }
        false
    }
}

} // verus!
