use vstd::prelude::*;

verus! {

// Domain entities travel through the protocol as opaque JSON documents: the
// correlation, routing and lifecycle rules never look inside them.

#[derive(Debug, Clone, Default)]
pub struct Workspace {
    pub model: serde_json::Value,
}

#[derive(Debug, Clone, Default)]
pub struct Environment {
    pub model: serde_json::Value,
}

#[derive(Debug, Clone, Default)]
pub struct Folder {
    pub model: serde_json::Value,
}

#[derive(Debug, Clone, Default)]
pub struct HttpRequest {
    pub model: serde_json::Value,
}

#[derive(Debug, Clone, Default)]
pub struct GrpcRequest {
    pub model: serde_json::Value,
}

#[derive(Debug, Clone, Default)]
pub struct HttpResponse {
    pub model: serde_json::Value,
}

} // verus!
