use vstd::prelude::*;
use crate::events::InternalEventPayload;

verus! {

/// A family of the payload catalog: a request and its response, or a
/// one-way notification.
#[derive(Debug, Clone, Copy, PartialEq, Eq, Structural)]
pub enum PayloadFamily {
    Boot,
    Reload,
    Terminate,
    Import,
    Filter,
    ExportHttpRequest,
    SendHttpRequest,
    GetHttpRequestActions,
    CallHttpRequestAction,
    GetTemplateFunctions,
    CallTemplateFunction,
    GetHttpAuthentication,
    CallHttpAuthentication,
    CopyText,
    RenderHttpRequest,
    TemplateRender,
    ShowToast,
    PromptText,
    GetHttpRequestById,
    FindHttpResponses,
    Empty,
}

/// What part a payload plays in an exchange.
#[derive(Debug, Clone, Copy, PartialEq, Eq, Structural)]
pub enum PayloadRole {
    /// Asks for exactly one reply.
    Request,
    /// Answers a request.
    Response,
    /// Expects no reply.
    Notification,
}

#[derive(Debug, Clone, Copy, PartialEq, Eq, Structural)]
pub struct PayloadShape {
    pub family: PayloadFamily,
    pub role: PayloadRole,
}

/// The family and role of each payload variant.
pub open spec fn shape_of(p: InternalEventPayload) -> PayloadShape {
    match p {
        InternalEventPayload::BootRequest(_) => PayloadShape { family: PayloadFamily::Boot, role: PayloadRole::Request },
        InternalEventPayload::BootResponse(_) => PayloadShape { family: PayloadFamily::Boot, role: PayloadRole::Response },
        InternalEventPayload::ReloadRequest(_) => PayloadShape { family: PayloadFamily::Reload, role: PayloadRole::Request },
        InternalEventPayload::ReloadResponse(_) => PayloadShape { family: PayloadFamily::Reload, role: PayloadRole::Response },
        InternalEventPayload::TerminateRequest => PayloadShape { family: PayloadFamily::Terminate, role: PayloadRole::Request },
        InternalEventPayload::TerminateResponse => PayloadShape { family: PayloadFamily::Terminate, role: PayloadRole::Response },
        InternalEventPayload::ImportRequest(_) => PayloadShape { family: PayloadFamily::Import, role: PayloadRole::Request },
        InternalEventPayload::ImportResponse(_) => PayloadShape { family: PayloadFamily::Import, role: PayloadRole::Response },
        InternalEventPayload::FilterRequest(_) => PayloadShape { family: PayloadFamily::Filter, role: PayloadRole::Request },
        InternalEventPayload::FilterResponse(_) => PayloadShape { family: PayloadFamily::Filter, role: PayloadRole::Response },
        InternalEventPayload::ExportHttpRequestRequest(_) => PayloadShape { family: PayloadFamily::ExportHttpRequest, role: PayloadRole::Request },
        InternalEventPayload::ExportHttpRequestResponse(_) => PayloadShape { family: PayloadFamily::ExportHttpRequest, role: PayloadRole::Response },
        InternalEventPayload::SendHttpRequestRequest(_) => PayloadShape { family: PayloadFamily::SendHttpRequest, role: PayloadRole::Request },
        InternalEventPayload::SendHttpRequestResponse(_) => PayloadShape { family: PayloadFamily::SendHttpRequest, role: PayloadRole::Response },
        InternalEventPayload::GetHttpRequestActionsRequest(_) => PayloadShape { family: PayloadFamily::GetHttpRequestActions, role: PayloadRole::Request },
        InternalEventPayload::GetHttpRequestActionsResponse(_) => PayloadShape { family: PayloadFamily::GetHttpRequestActions, role: PayloadRole::Response },
        InternalEventPayload::CallHttpRequestActionRequest(_) => PayloadShape { family: PayloadFamily::CallHttpRequestAction, role: PayloadRole::Request },
        InternalEventPayload::GetTemplateFunctionsRequest => PayloadShape { family: PayloadFamily::GetTemplateFunctions, role: PayloadRole::Request },
        InternalEventPayload::GetTemplateFunctionsResponse(_) => PayloadShape { family: PayloadFamily::GetTemplateFunctions, role: PayloadRole::Response },
        InternalEventPayload::CallTemplateFunctionRequest(_) => PayloadShape { family: PayloadFamily::CallTemplateFunction, role: PayloadRole::Request },
        InternalEventPayload::CallTemplateFunctionResponse(_) => PayloadShape { family: PayloadFamily::CallTemplateFunction, role: PayloadRole::Response },
        InternalEventPayload::GetHttpAuthenticationRequest(_) => PayloadShape { family: PayloadFamily::GetHttpAuthentication, role: PayloadRole::Request },
        InternalEventPayload::GetHttpAuthenticationResponse(_) => PayloadShape { family: PayloadFamily::GetHttpAuthentication, role: PayloadRole::Response },
        InternalEventPayload::CallHttpAuthenticationRequest(_) => PayloadShape { family: PayloadFamily::CallHttpAuthentication, role: PayloadRole::Request },
        InternalEventPayload::CallHttpAuthenticationResponse(_) => PayloadShape { family: PayloadFamily::CallHttpAuthentication, role: PayloadRole::Response },
        InternalEventPayload::CopyTextRequest(_) => PayloadShape { family: PayloadFamily::CopyText, role: PayloadRole::Notification },
        InternalEventPayload::RenderHttpRequestRequest(_) => PayloadShape { family: PayloadFamily::RenderHttpRequest, role: PayloadRole::Request },
        InternalEventPayload::RenderHttpRequestResponse(_) => PayloadShape { family: PayloadFamily::RenderHttpRequest, role: PayloadRole::Response },
        InternalEventPayload::TemplateRenderRequest(_) => PayloadShape { family: PayloadFamily::TemplateRender, role: PayloadRole::Request },
        InternalEventPayload::TemplateRenderResponse(_) => PayloadShape { family: PayloadFamily::TemplateRender, role: PayloadRole::Response },
        InternalEventPayload::ShowToastRequest(_) => PayloadShape { family: PayloadFamily::ShowToast, role: PayloadRole::Notification },
        InternalEventPayload::PromptTextRequest(_) => PayloadShape { family: PayloadFamily::PromptText, role: PayloadRole::Request },
        InternalEventPayload::PromptTextResponse(_) => PayloadShape { family: PayloadFamily::PromptText, role: PayloadRole::Response },
        InternalEventPayload::GetHttpRequestByIdRequest(_) => PayloadShape { family: PayloadFamily::GetHttpRequestById, role: PayloadRole::Request },
        InternalEventPayload::GetHttpRequestByIdResponse(_) => PayloadShape { family: PayloadFamily::GetHttpRequestById, role: PayloadRole::Response },
        InternalEventPayload::FindHttpResponsesRequest(_) => PayloadShape { family: PayloadFamily::FindHttpResponses, role: PayloadRole::Request },
        InternalEventPayload::FindHttpResponsesResponse(_) => PayloadShape { family: PayloadFamily::FindHttpResponses, role: PayloadRole::Response },
        InternalEventPayload::EmptyResponse(_) => PayloadShape { family: PayloadFamily::Empty, role: PayloadRole::Response },
    }
}

/// Whether a reply of shape `reply` answers a request of family `expected`:
/// the family's own response, or the generic empty response that a plugin
/// sends when it has no handler.
pub open spec fn answers(expected: PayloadFamily, reply: PayloadShape) -> bool {
    reply.role == PayloadRole::Response && (reply.family == expected || reply.family
        == PayloadFamily::Empty)
}

impl InternalEventPayload {
    /// The family and role of this payload.
    pub fn shape(&self) -> (r: PayloadShape)
        ensures
            r == shape_of(*self),
    {
        match self {
            InternalEventPayload::BootRequest(_) => PayloadShape { family: PayloadFamily::Boot, role: PayloadRole::Request },
            InternalEventPayload::BootResponse(_) => PayloadShape { family: PayloadFamily::Boot, role: PayloadRole::Response },
            InternalEventPayload::ReloadRequest(_) => PayloadShape { family: PayloadFamily::Reload, role: PayloadRole::Request },
            InternalEventPayload::ReloadResponse(_) => PayloadShape { family: PayloadFamily::Reload, role: PayloadRole::Response },
            InternalEventPayload::TerminateRequest => PayloadShape { family: PayloadFamily::Terminate, role: PayloadRole::Request },
            InternalEventPayload::TerminateResponse => PayloadShape { family: PayloadFamily::Terminate, role: PayloadRole::Response },
            InternalEventPayload::ImportRequest(_) => PayloadShape { family: PayloadFamily::Import, role: PayloadRole::Request },
            InternalEventPayload::ImportResponse(_) => PayloadShape { family: PayloadFamily::Import, role: PayloadRole::Response },
            InternalEventPayload::FilterRequest(_) => PayloadShape { family: PayloadFamily::Filter, role: PayloadRole::Request },
            InternalEventPayload::FilterResponse(_) => PayloadShape { family: PayloadFamily::Filter, role: PayloadRole::Response },
            InternalEventPayload::ExportHttpRequestRequest(_) => PayloadShape { family: PayloadFamily::ExportHttpRequest, role: PayloadRole::Request },
            InternalEventPayload::ExportHttpRequestResponse(_) => PayloadShape { family: PayloadFamily::ExportHttpRequest, role: PayloadRole::Response },
            InternalEventPayload::SendHttpRequestRequest(_) => PayloadShape { family: PayloadFamily::SendHttpRequest, role: PayloadRole::Request },
            InternalEventPayload::SendHttpRequestResponse(_) => PayloadShape { family: PayloadFamily::SendHttpRequest, role: PayloadRole::Response },
            InternalEventPayload::GetHttpRequestActionsRequest(_) => PayloadShape { family: PayloadFamily::GetHttpRequestActions, role: PayloadRole::Request },
            InternalEventPayload::GetHttpRequestActionsResponse(_) => PayloadShape { family: PayloadFamily::GetHttpRequestActions, role: PayloadRole::Response },
            InternalEventPayload::CallHttpRequestActionRequest(_) => PayloadShape { family: PayloadFamily::CallHttpRequestAction, role: PayloadRole::Request },
            InternalEventPayload::GetTemplateFunctionsRequest => PayloadShape { family: PayloadFamily::GetTemplateFunctions, role: PayloadRole::Request },
            InternalEventPayload::GetTemplateFunctionsResponse(_) => PayloadShape { family: PayloadFamily::GetTemplateFunctions, role: PayloadRole::Response },
            InternalEventPayload::CallTemplateFunctionRequest(_) => PayloadShape { family: PayloadFamily::CallTemplateFunction, role: PayloadRole::Request },
            InternalEventPayload::CallTemplateFunctionResponse(_) => PayloadShape { family: PayloadFamily::CallTemplateFunction, role: PayloadRole::Response },
            InternalEventPayload::GetHttpAuthenticationRequest(_) => PayloadShape { family: PayloadFamily::GetHttpAuthentication, role: PayloadRole::Request },
            InternalEventPayload::GetHttpAuthenticationResponse(_) => PayloadShape { family: PayloadFamily::GetHttpAuthentication, role: PayloadRole::Response },
            InternalEventPayload::CallHttpAuthenticationRequest(_) => PayloadShape { family: PayloadFamily::CallHttpAuthentication, role: PayloadRole::Request },
            InternalEventPayload::CallHttpAuthenticationResponse(_) => PayloadShape { family: PayloadFamily::CallHttpAuthentication, role: PayloadRole::Response },
            InternalEventPayload::CopyTextRequest(_) => PayloadShape { family: PayloadFamily::CopyText, role: PayloadRole::Notification },
            InternalEventPayload::RenderHttpRequestRequest(_) => PayloadShape { family: PayloadFamily::RenderHttpRequest, role: PayloadRole::Request },
            InternalEventPayload::RenderHttpRequestResponse(_) => PayloadShape { family: PayloadFamily::RenderHttpRequest, role: PayloadRole::Response },
            InternalEventPayload::TemplateRenderRequest(_) => PayloadShape { family: PayloadFamily::TemplateRender, role: PayloadRole::Request },
            InternalEventPayload::TemplateRenderResponse(_) => PayloadShape { family: PayloadFamily::TemplateRender, role: PayloadRole::Response },
            InternalEventPayload::ShowToastRequest(_) => PayloadShape { family: PayloadFamily::ShowToast, role: PayloadRole::Notification },
            InternalEventPayload::PromptTextRequest(_) => PayloadShape { family: PayloadFamily::PromptText, role: PayloadRole::Request },
            InternalEventPayload::PromptTextResponse(_) => PayloadShape { family: PayloadFamily::PromptText, role: PayloadRole::Response },
            InternalEventPayload::GetHttpRequestByIdRequest(_) => PayloadShape { family: PayloadFamily::GetHttpRequestById, role: PayloadRole::Request },
            InternalEventPayload::GetHttpRequestByIdResponse(_) => PayloadShape { family: PayloadFamily::GetHttpRequestById, role: PayloadRole::Response },
            InternalEventPayload::FindHttpResponsesRequest(_) => PayloadShape { family: PayloadFamily::FindHttpResponses, role: PayloadRole::Request },
            InternalEventPayload::FindHttpResponsesResponse(_) => PayloadShape { family: PayloadFamily::FindHttpResponses, role: PayloadRole::Response },
            InternalEventPayload::EmptyResponse(_) => PayloadShape { family: PayloadFamily::Empty, role: PayloadRole::Response },
        }
    }

    /// Whether this payload asks for a reply.
    pub fn is_request(&self) -> (r: bool)
        ensures
            r == (shape_of(*self).role == PayloadRole::Request),
    {
        self.shape().role == PayloadRole::Request
    }

    /// Whether this payload answers a request.
    pub fn is_response(&self) -> (r: bool)
        ensures
            r == (shape_of(*self).role == PayloadRole::Response),
    {
        self.shape().role == PayloadRole::Response
    }

    /// Whether this payload is one-way.
    pub fn is_notification(&self) -> (r: bool)
        ensures
            r == (shape_of(*self).role == PayloadRole::Notification),
    {
        self.shape().role == PayloadRole::Notification
    }
}

/// Whether a reply of shape `reply` answers a request of family `expected`.
pub fn reply_answers(expected: PayloadFamily, reply: PayloadShape) -> (r: bool)
    ensures
        r == answers(expected, reply),
{
    reply.role == PayloadRole::Response && (reply.family == expected || reply.family
        == PayloadFamily::Empty)
}

} // verus!
