use vstd::prelude::*;
use std::collections::HashMap;
use crate::models::{Environment, Folder, GrpcRequest, HttpRequest, HttpResponse, Workspace};

verus! {

/// Declares `serde_json::Value`, carried opaquely inside some payload bodies.
#[verifier::external_type_specification]
#[verifier::external_body]
pub struct ExJsonValue(serde_json::Value);

/// Declares `serde_json::Map`, the object type of a JSON configuration.
#[verifier::external_type_specification]
#[verifier::external_body]
#[verifier::reject_recursive_types(K)]
#[verifier::reject_recursive_types(V)]
pub struct ExJsonMap<K, V>(serde_json::Map<K, V>);

/// Relies on serde_json's `Clone` for `Map`, used by the derived `Clone` of
/// the authentication request.
pub assume_specification[ <serde_json::Map<String, serde_json::Value> as core::clone::Clone>::clone ](
    m: &serde_json::Map<String, serde_json::Value>,
) -> serde_json::Map<String, serde_json::Value>;

/// Relies on serde_json's `Clone` for `Value`, used by the derived `Clone`
/// of the payload bodies that carry one.
pub assume_specification[ <serde_json::Value as core::clone::Clone>::clone ](
    v: &serde_json::Value,
) -> serde_json::Value;

/// Which UI surface an event is meant for.
#[derive(Debug, Clone, PartialEq, Eq)]
pub enum WindowContext {
    NoWindow,
    Label { label: String },
}

impl WindowContext {
    /// The context of the window with the given label.
    pub fn from_window(label: &str) -> (r: Self)
        ensures
            r == (WindowContext::Label { label: r->label }),
            r->label@ == label@,
    {
        WindowContext::Label { label: label.to_string() }
    }
}

/// One unit of communication on a plugin channel.
#[derive(Debug, Clone)]
pub struct InternalEvent {
    pub id: String,
    pub plugin_ref_id: String,
    pub reply_id: Option<String>,
    pub payload: InternalEventPayload,
    pub window_context: WindowContext,
}

/// Whether two window contexts name the same destination.
pub open spec fn same_window(a: WindowContext, b: WindowContext) -> bool {
    match (a, b) {
        (WindowContext::NoWindow, WindowContext::NoWindow) => true,
        (WindowContext::Label { label: x }, WindowContext::Label { label: y }) => x@ == y@,
        _ => false,
    }
}

impl WindowContext {
    /// A copy of this context.
    pub fn duplicate(&self) -> (r: Self)
        ensures
            same_window(r, *self),
    {
        match self {
            WindowContext::NoWindow => WindowContext::NoWindow,
            WindowContext::Label { label } => WindowContext::Label { label: label.clone() },
        }
    }
}

impl InternalEvent {
    /// An envelope that starts an exchange (a request or a notification):
    /// it answers nothing.
    pub fn new(
        id: String,
        plugin_ref_id: String,
        payload: InternalEventPayload,
        window_context: WindowContext,
    ) -> (r: Self)
        ensures
            r.id == id,
            r.plugin_ref_id == plugin_ref_id,
            r.reply_id is None,
            r.payload == payload,
            r.window_context == window_context,
    {
        InternalEvent { id, plugin_ref_id, reply_id: None, payload, window_context }
    }

    /// The envelope with id `id` that answers this one with `payload`: it
    /// names this envelope's id as its `reply_id`, and keeps its plugin and
    /// window.
    pub fn reply(&self, id: String, payload: InternalEventPayload) -> (r: Self)
        ensures
            r.id == id,
            r.plugin_ref_id@ == self.plugin_ref_id@,
            r.reply_id matches Some(x) && x@ == self.id@,
            r.payload == payload,
            same_window(r.window_context, self.window_context),
    {
        InternalEvent {
            id,
            plugin_ref_id: self.plugin_ref_id.clone(),
            reply_id: Some(self.id.clone()),
            payload,
            window_context: self.window_context.duplicate(),
        }
    }

    /// The reply with id `id` to a request that no handler takes: the
    /// generic empty response, so that the caller is not left waiting.
    pub fn reply_without_handler(&self, id: String) -> (r: Self)
        ensures
            r.id == id,
            r.plugin_ref_id@ == self.plugin_ref_id@,
            r.reply_id matches Some(x) && x@ == self.id@,
            r.payload == InternalEventPayload::EmptyResponse(EmptyPayload {}),
            same_window(r.window_context, self.window_context),
    {
        self.reply(id, InternalEventPayload::EmptyResponse(EmptyPayload {}))
    }
}

/// The closed catalog of payload shapes.
#[derive(Debug, Clone)]
pub enum InternalEventPayload {
    BootRequest(BootRequest),
    BootResponse(BootResponse),
    ReloadRequest(EmptyPayload),
    ReloadResponse(EmptyPayload),
    TerminateRequest,
    TerminateResponse,
    ImportRequest(ImportRequest),
    ImportResponse(ImportResponse),
    FilterRequest(FilterRequest),
    FilterResponse(FilterResponse),
    ExportHttpRequestRequest(ExportHttpRequestRequest),
    ExportHttpRequestResponse(ExportHttpRequestResponse),
    SendHttpRequestRequest(SendHttpRequestRequest),
    SendHttpRequestResponse(SendHttpRequestResponse),
    GetHttpRequestActionsRequest(EmptyPayload),
    GetHttpRequestActionsResponse(GetHttpRequestActionsResponse),
    CallHttpRequestActionRequest(CallHttpRequestActionRequest),
    GetTemplateFunctionsRequest,
    GetTemplateFunctionsResponse(GetTemplateFunctionsResponse),
    CallTemplateFunctionRequest(CallTemplateFunctionRequest),
    CallTemplateFunctionResponse(CallTemplateFunctionResponse),
    GetHttpAuthenticationRequest(EmptyPayload),
    GetHttpAuthenticationResponse(GetHttpAuthenticationResponse),
    CallHttpAuthenticationRequest(CallHttpAuthenticationRequest),
    CallHttpAuthenticationResponse(CallHttpAuthenticationResponse),
    CopyTextRequest(CopyTextRequest),
    RenderHttpRequestRequest(RenderHttpRequestRequest),
    RenderHttpRequestResponse(RenderHttpRequestResponse),
    TemplateRenderRequest(TemplateRenderRequest),
    TemplateRenderResponse(TemplateRenderResponse),
    ShowToastRequest(ShowToastRequest),
    PromptTextRequest(PromptTextRequest),
    PromptTextResponse(PromptTextResponse),
    GetHttpRequestByIdRequest(GetHttpRequestByIdRequest),
    GetHttpRequestByIdResponse(GetHttpRequestByIdResponse),
    FindHttpResponsesRequest(FindHttpResponsesRequest),
    FindHttpResponsesResponse(FindHttpResponsesResponse),
    /// Sent when a plugin has no handler for a call, so that the caller
    /// still has something to wait for.
    EmptyResponse(EmptyPayload),
}

#[derive(Debug, Clone, Default)]
pub struct EmptyPayload {}

#[derive(Debug, Clone, Default)]
pub struct BootRequest {
    pub dir: String,
    pub watch: bool,
}

#[derive(Debug, Clone, Default)]
pub struct BootResponse {
    pub name: String,
    pub version: String,
    pub capabilities: Vec<String>,
}

#[derive(Debug, Clone, Default)]
pub struct ImportRequest {
    pub content: String,
}

#[derive(Debug, Clone, Default)]
pub struct ImportResponse {
    pub resources: ImportResources,
}

#[derive(Debug, Clone, Default)]
pub struct FilterRequest {
    pub content: String,
    pub filter: String,
}

#[derive(Debug, Clone, Default)]
pub struct FilterResponse {
    pub content: String,
}

#[derive(Debug, Clone, Default)]
pub struct ExportHttpRequestRequest {
    pub http_request: HttpRequest,
}

#[derive(Debug, Clone, Default)]
pub struct ExportHttpRequestResponse {
    pub content: String,
}

#[derive(Debug, Clone, Default)]
pub struct SendHttpRequestRequest {
    pub http_request: HttpRequest,
}

#[derive(Debug, Clone, Default)]
pub struct SendHttpRequestResponse {
    pub http_response: HttpResponse,
}

#[derive(Debug, Clone, Default)]
pub struct CopyTextRequest {
    pub text: String,
}

#[derive(Debug, Clone, Default)]
pub struct RenderHttpRequestRequest {
    pub http_request: HttpRequest,
    pub purpose: RenderPurpose,
}

#[derive(Debug, Clone, Default)]
pub struct RenderHttpRequestResponse {
    pub http_request: HttpRequest,
}

#[derive(Debug, Clone, Default)]
pub struct TemplateRenderRequest {
    pub data: serde_json::Value,
    pub purpose: RenderPurpose,
}

#[derive(Debug, Clone, Default)]
pub struct TemplateRenderResponse {
    pub data: serde_json::Value,
}

#[derive(Debug, Clone, Default)]
pub struct ShowToastRequest {
    pub message: String,
    pub color: Option<Color>,
    pub icon: Option<Icon>,
}

#[derive(Debug, Clone, Default)]
pub struct PromptTextRequest {
    /// A unique id of the prompt (such as "enter-password").
    pub id: String,
    /// Title of the prompt dialog.
    pub title: String,
    /// Text of the label above the input.
    pub label: String,
    pub description: Option<String>,
    pub default_value: Option<String>,
    pub placeholder: Option<String>,
    /// Text of the confirmation button.
    pub confirm_text: Option<String>,
    /// Text of the cancel button.
    pub cancel_text: Option<String>,
    /// Whether the user must enter a non-empty value.
    pub required: Option<bool>,
}

#[derive(Debug, Clone, Default)]
pub struct PromptTextResponse {
    pub value: Option<String>,
}

#[derive(Debug, Clone, PartialEq, Eq)]
pub enum Color {
    Custom,
    Default,
    Primary,
    Secondary,
    Info,
    Success,
    Notice,
    Warning,
    Danger,
}

impl Default for Color {
    fn default() -> (r: Self)
        ensures
            r == Color::Default,
    {
        Color::Default
    }
}

/// The icon of a toast or an action; a name outside the known set is kept
/// as it came.
#[derive(Debug, Clone)]
pub enum Icon {
    Copy,
    Info,
    CheckCircle,
    AlertTriangle,
    _Unknown(String),
}

#[derive(Debug, Clone, Default)]
pub struct GetHttpAuthenticationResponse {
    pub name: String,
    pub label: String,
    pub short_label: String,
    pub config: Vec<FormInput>,
}

#[derive(Debug, Clone, Default)]
pub struct HttpHeader {
    pub name: String,
    pub value: String,
}

#[derive(Debug, Clone, Default)]
pub struct CallHttpAuthenticationRequest {
    pub config: serde_json::Map<String, serde_json::Value>,
    pub method: String,
    pub url: String,
    pub headers: Vec<HttpHeader>,
}

#[derive(Debug, Clone, Default)]
pub struct CallHttpAuthenticationResponse {
    /// Headers to set on the request: existing ones are replaced, new ones
    /// added.
    pub set_headers: Vec<HttpHeader>,
}

#[derive(Debug, Clone, Default)]
pub struct GetTemplateFunctionsResponse {
    pub functions: Vec<TemplateFunction>,
    pub plugin_ref_id: String,
}

#[derive(Debug, Clone, Default)]
pub struct TemplateFunction {
    pub name: String,
    pub description: Option<String>,
    /// Other names the function answers to, so that existing tags keep
    /// working after a rename.
    pub aliases: Option<Vec<String>>,
    pub args: Vec<FormInput>,
}

/// A declarative description of one configurable argument.
#[derive(Debug, Clone)]
pub enum FormInput {
    Text(FormInputText),
    Editor(FormInputEditor),
    Select(FormInputSelect),
    Checkbox(FormInputCheckbox),
    File(FormInputFile),
    HttpRequest(FormInputHttpRequest),
}

#[derive(Debug, Clone, Default)]
pub struct FormInputBase {
    pub name: String,
    /// Whether the user may leave the argument empty.
    pub optional: Option<bool>,
    /// The label of the input.
    pub label: Option<String>,
    /// Whether to hide the label.
    pub hide_label: Option<bool>,
    /// The default value.
    pub default_value: Option<String>,
}

#[derive(Debug, Clone, Default)]
pub struct FormInputText {
    pub base: FormInputBase,
    /// Placeholder of the text input.
    pub placeholder: Option<String>,
    /// Whether the input holds a secret.
    pub password: Option<bool>,
}

#[derive(Debug, Clone, PartialEq, Eq)]
pub enum EditorLanguage {
    Text,
    Javascript,
    Json,
    Html,
    Xml,
    Graphql,
    Markdown,
}

impl Default for EditorLanguage {
    fn default() -> (r: Self)
        ensures
            r == EditorLanguage::Text,
    {
        EditorLanguage::Text
    }
}

#[derive(Debug, Clone, Default)]
pub struct FormInputEditor {
    pub base: FormInputBase,
    /// Placeholder of the editor.
    pub placeholder: Option<String>,
    /// Whether to hide the gutter (line numbers, folds).
    pub hide_gutter: Option<bool>,
    /// Language for syntax highlighting.
    pub language: Option<EditorLanguage>,
}

#[derive(Debug, Clone, Default)]
pub struct FormInputHttpRequest {
    pub base: FormInputBase,
}

#[derive(Debug, Clone, Default)]
pub struct FormInputFile {
    pub base: FormInputBase,
    /// Title of the file selection window.
    pub title: String,
    /// Whether several files may be selected.
    pub multiple: Option<bool>,
    /// Whether a directory is selected rather than a file.
    pub directory: Option<bool>,
    /// Path the selection dialog opens at.
    pub default_path: Option<String>,
    /// Extensions the selection is limited to.
    pub filters: Option<Vec<FileFilter>>,
}

#[derive(Debug, Clone, Default)]
pub struct FileFilter {
    pub name: String,
    /// File extensions to require.
    pub extensions: Vec<String>,
}

#[derive(Debug, Clone, Default)]
pub struct FormInputSelect {
    pub base: FormInputBase,
    /// The options of the select input.
    pub options: Vec<FormInputSelectOption>,
}

#[derive(Debug, Clone, Default)]
pub struct FormInputCheckbox {
    pub base: FormInputBase,
}

#[derive(Debug, Clone, Default)]
pub struct FormInputSelectOption {
    pub name: String,
    pub value: String,
}

#[derive(Debug, Clone, Default)]
pub struct CallTemplateFunctionRequest {
    pub name: String,
    pub args: CallTemplateFunctionArgs,
}

#[derive(Debug, Clone, Default)]
pub struct CallTemplateFunctionResponse {
    pub value: Option<String>,
}

#[derive(Debug, Clone, Default)]
pub struct CallTemplateFunctionArgs {
    pub purpose: RenderPurpose,
    pub values: HashMap<String, String>,
}

#[derive(Debug, Clone, PartialEq, Eq)]
pub enum RenderPurpose {
    Send,
    Preview,
}

impl Default for RenderPurpose {
    fn default() -> (r: Self)
        ensures
            r == RenderPurpose::Preview,
    {
        RenderPurpose::Preview
    }
}

#[derive(Debug, Clone, Default)]
pub struct GetHttpRequestActionsRequest {}

#[derive(Debug, Clone, Default)]
pub struct GetHttpRequestActionsResponse {
    pub actions: Vec<HttpRequestAction>,
    pub plugin_ref_id: String,
}

#[derive(Debug, Clone, Default)]
pub struct HttpRequestAction {
    pub key: String,
    pub label: String,
    pub icon: Option<Icon>,
}

#[derive(Debug, Clone, Default)]
pub struct CallHttpRequestActionRequest {
    pub key: String,
    pub plugin_ref_id: String,
    pub args: CallHttpRequestActionArgs,
}

#[derive(Debug, Clone, Default)]
pub struct CallHttpRequestActionArgs {
    pub http_request: HttpRequest,
}

#[derive(Debug, Clone, Default)]
pub struct GetHttpRequestByIdRequest {
    pub id: String,
}

#[derive(Debug, Clone, Default)]
pub struct GetHttpRequestByIdResponse {
    pub http_request: Option<HttpRequest>,
}

#[derive(Debug, Clone, Default)]
pub struct FindHttpResponsesRequest {
    pub request_id: String,
    pub limit: Option<i32>,
}

#[derive(Debug, Clone, Default)]
pub struct FindHttpResponsesResponse {
    pub http_responses: Vec<HttpResponse>,
}

#[derive(Debug, Clone, Default)]
pub struct ImportResources {
    pub workspaces: Vec<Workspace>,
    pub environments: Vec<Environment>,
    pub folders: Vec<Folder>,
    pub http_requests: Vec<HttpRequest>,
    pub grpc_requests: Vec<GrpcRequest>,
}

} // verus!
