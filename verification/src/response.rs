use vstd::prelude::*;

verus! {

/// The host's default status for a served page.
pub const STATUS_OK: u16 = 200;

/// The status signalled when the catch-all page is served.
pub const STATUS_NOT_FOUND: u16 = 404;

/// The outgoing response of one server-handled request. Its status starts at
/// the host's default and may be overridden at most once, to not-found.
#[derive(Clone, Copy, PartialEq, Eq, Structural, Debug)]
pub struct ServerResponse {
    /// The status code that will be sent with the rendered page.
    pub status: u16,
}

impl ServerResponse {
    /// A fresh request starts at the default status.
    pub fn new() -> (r: ServerResponse)
        ensures
            r.status == STATUS_OK,
    {
        ServerResponse { status: STATUS_OK }
    }

    /// Override the status to not-found. Write-once: only the default status
    /// may be overridden, so the override cannot happen twice per request.
    pub fn set_not_found(&mut self)
        requires
            old(self).status == STATUS_OK,
        ensures
            final(self).status == STATUS_NOT_FOUND,
    {
        self.status = STATUS_NOT_FOUND;
    }
}

/// The capability a render pass runs under. During the initial render of a
/// server-handled request it carries the request's response; during a purely
/// client-side navigation no response exists and the handle is absent.
#[derive(Clone, Copy, Debug)]
pub struct RenderContext {
    /// The response of the request being served, if any.
    pub response: Option<ServerResponse>,
}

impl RenderContext {
    /// Whether this render pass serves the initial request of a server render.
    pub open spec fn is_server_initial(self) -> bool {
        self.response is Some
    }

    /// The status the client will observe: the response's status on a server
    /// render, and the host default when no request is being served.
    pub open spec fn spec_status(self) -> u16 {
        match self.response {
            Some(r) => r.status,
            None => STATUS_OK,
        }
    }

    /// The context of the initial render of a server-handled request.
    pub fn server_initial() -> (c: RenderContext)
        ensures
            c.is_server_initial(),
            c.spec_status() == STATUS_OK,
    {
        RenderContext { response: Some(ServerResponse::new()) }
    }

    /// The context of a client-side-only navigation: no active request.
    pub fn client_side() -> (c: RenderContext)
        ensures
            !c.is_server_initial(),
    {
        RenderContext { response: None }
    }
}

} // verus!
