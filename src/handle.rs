use vstd::prelude::*;

use crate::common::{encoding_name, EncodingKind, TransportKind};
use crate::error::ClientError;
use crate::query::ActorQuery;
use crate::remote_manager::{
    actor_headers_of, opt_str, pairs_view, resolve_request_spec, url_encoded, ControlRequest,
    ManagerView, RemoteManager,
};

verus! {

/// What resolving a stateless handle takes next.
pub enum ResolveStep {
    /// The actor id is known; no request is needed.
    Known(String),
    /// The query cannot be resolved here.
    Rejected(ClientError),
    /// Send this request, resolve its reply, then record the id.
    Request(ControlRequest),
}

/// A unary action call: the URL to `POST` the CBOR arguments to, and its headers.
pub struct ActionCall {
    pub url: String,
    pub headers: Vec<(String, String)>,
}

/// The headers of a unary action: the gateway headers, the encoding, then the
/// JSON connection parameters if there are any.
pub open spec fn action_headers_of(
    m: ManagerView,
    actor_id: Seq<char>,
    encoding: EncodingKind,
    params: Option<Seq<char>>,
) -> Seq<(Seq<char>, Seq<char>)> {
    actor_headers_of(m.token, actor_id) + seq![(crate::common::HEADER_ENCODING@, encoding_name(encoding))]
        + match params {
        Some(p) => seq![(crate::common::HEADER_CONN_PARAMS@, p)],
        None => Seq::empty(),
    }
}

/// What `resolve_step` returns for query `q` against manager `m`.
pub open spec fn resolve_step_spec(m: ManagerView, q: ActorQuery, r: ResolveStep) -> bool {
    match q {
        ActorQuery::GetForId { actor_id, .. } => r == ResolveStep::Known(actor_id),
        ActorQuery::Create { .. } => r == ResolveStep::Rejected(ClientError::QueryIsCreate),
        _ => r is Request && resolve_request_spec(m, q, r->Request_0),
    }
}

/// How `record_resolved` rewrites query `pre` into `post` for `actor_id`.
pub open spec fn recorded(pre: ActorQuery, post: ActorQuery, actor_id: String) -> bool {
    match pre {
        ActorQuery::GetForKey { name, .. } => post == (ActorQuery::GetForId { name, actor_id }),
        ActorQuery::GetOrCreateForKey { name, .. } => post == (ActorQuery::GetForId { name, actor_id }),
        _ => post == pre,
    }
}

/// Resolution of a query by id is idempotent: it yields the query's id
/// without a request each time, and recording any resolution leaves the
/// query as it is. The control-plane request for such a query is a lookup
/// whose URL depends on the endpoint, name and id alone, so repeating it
/// asks the same thing. And once a lookup by key or a get-or-create has
/// been recorded, the next resolution is the recorded id.
pub proof fn lemma_resolve_by_id_idempotent(
    m: ManagerView,
    name: String,
    actor_id: String,
    r1: ResolveStep,
    r2: ResolveStep,
    other: String,
    post: ActorQuery,
    req1: crate::remote_manager::ControlRequest,
    req2: crate::remote_manager::ControlRequest,
)
    requires
        resolve_step_spec(m, ActorQuery::GetForId { name, actor_id }, r1),
        resolve_step_spec(m, ActorQuery::GetForId { name, actor_id }, r2),
        recorded(ActorQuery::GetForId { name, actor_id }, post, other),
        resolve_request_spec(m, ActorQuery::GetForId { name, actor_id }, req1),
        resolve_request_spec(m, ActorQuery::GetForId { name, actor_id }, req2),
    ensures
        r1 == ResolveStep::Known(actor_id),
        r1 == r2,
        post == (ActorQuery::GetForId { name, actor_id }),
        req1.op == req2.op,
        req1.url@ == req2.url@,
        req1.body is None && req2.body is None,
{
}

/// After a lookup by key or a get-or-create resolved to `actor_id` and was
/// recorded, resolving again yields `actor_id` without a request.
pub proof fn lemma_recorded_resolution_is_known(m: ManagerView, pre: ActorQuery, post: ActorQuery, actor_id: String, r: ResolveStep)
    requires
        pre is GetForKey || pre is GetOrCreateForKey,
        recorded(pre, post, actor_id),
        resolve_step_spec(m, post, r),
    ensures
        r == ResolveStep::Known(actor_id),
{
}

/// A handle that resolves its query once and remembers the actor id.
pub struct ActorHandleStateless {
    manager: RemoteManager,
    params: Option<String>,
    encoding: EncodingKind,
    query: ActorQuery,
}

impl ActorHandleStateless {
    pub closed spec fn spec_manager(&self) -> ManagerView {
        self.manager@
    }

    pub closed spec fn spec_params(&self) -> Option<Seq<char>> {
        opt_str(self.params)
    }

    pub closed spec fn spec_encoding(&self) -> EncodingKind {
        self.encoding
    }

    pub closed spec fn spec_query(&self) -> ActorQuery {
        self.query
    }

    /// `params` is the JSON text of the connection parameters.
    pub fn new(manager: RemoteManager, params: Option<String>, encoding_kind: EncodingKind, query: ActorQuery) -> (r: ActorHandleStateless)
        ensures
            r.spec_manager() == manager@,
            r.spec_params() == opt_str(params),
            r.spec_encoding() == encoding_kind,
            r.spec_query() == query,
    {
        ActorHandleStateless { manager, params, encoding: encoding_kind, query }
    }

    pub fn query(&self) -> (r: &ActorQuery)
        ensures
            *r == self.spec_query(),
    {
        &self.query
    }

    pub fn manager(&self) -> (r: &RemoteManager)
        ensures
            r@ == self.spec_manager(),
    {
        &self.manager
    }

    /// A query by id is resolved already; a creation is not resolved here;
    /// the others take a request to the control plane.
    pub fn resolve_step(&self) -> (r: ResolveStep)
        ensures
            resolve_step_spec(self.spec_manager(), self.spec_query(), r),
    {
        match &self.query {
            ActorQuery::GetForId { actor_id, .. } => ResolveStep::Known(actor_id.clone()),
            ActorQuery::Create { .. } => ResolveStep::Rejected(ClientError::QueryIsCreate),
            _ => ResolveStep::Request(self.manager.resolve_request(&self.query)),
        }
    }

    /// Remembers the id a lookup by key or a get-or-create resolved to: the
    /// query becomes a query by id for the same name.
    pub fn record_resolved(&mut self, actor_id: String)
        ensures
            final(self).spec_manager() == old(self).spec_manager(),
            final(self).spec_params() == old(self).spec_params(),
            final(self).spec_encoding() == old(self).spec_encoding(),
            recorded(old(self).spec_query(), final(self).spec_query(), actor_id),
    {
        let name = match &self.query {
            ActorQuery::GetForKey { name, .. } => name.clone(),
            ActorQuery::GetOrCreateForKey { name, .. } => name.clone(),
            _ => return,
        };
        self.query = ActorQuery::GetForId { name, actor_id };
    }

    /// The call of action `name` on actor `actor_id`.
    pub fn action_call(&self, actor_id: &str, name: &str) -> (r: ActionCall)
        ensures
            r.url@ == self.spec_manager().endpoint + "/action/"@ + url_encoded(name@),
            pairs_view(r.headers@) == action_headers_of(self.spec_manager(), actor_id@, self.spec_encoding(), self.spec_params()),
    {
        let path = crate::remote_manager::action_path(name);
        let url = self.manager.url_for(path.as_str());
        let mut headers = self.manager.actor_headers(actor_id);
        let ghost base = pairs_view(headers@);
        headers.push((String::from_str(crate::common::HEADER_ENCODING), self.encoding.to_string()));
        if let Some(p) = &self.params {
            headers.push((String::from_str(crate::common::HEADER_CONN_PARAMS), p.clone()));
        }
        assert(pairs_view(headers@) =~= action_headers_of(self.spec_manager(), actor_id@, self.spec_encoding(), self.spec_params()));
        ActionCall { url, headers }
    }
}

/// Whether a unary action's reply status is a success; otherwise the error
/// `ActionFailed` with that status.
pub fn action_status(status: u16) -> (r: Result<(), ClientError>)
    ensures
        crate::remote_manager::is_success(status) <==> r is Ok,
        !crate::remote_manager::is_success(status) ==> r == Err::<(), ClientError>(ClientError::ActionFailed { status }),
{
    if crate::remote_manager::status_is_success(status) {
        Ok(())
    } else {
        Err(ClientError::ActionFailed { status })
    }
}

/// A stateless handle that can also open a live connection.
pub struct ActorHandle {
    handle: ActorHandleStateless,
    transport: TransportKind,
}

impl ActorHandle {
    pub closed spec fn spec_handle(&self) -> &ActorHandleStateless {
        &self.handle
    }

    pub closed spec fn spec_transport(&self) -> TransportKind {
        self.transport
    }

    pub fn new(
        manager: RemoteManager,
        params: Option<String>,
        query: ActorQuery,
        transport_kind: TransportKind,
        encoding_kind: EncodingKind,
    ) -> (r: ActorHandle)
        ensures
            r.spec_handle().spec_manager() == manager@,
            r.spec_handle().spec_params() == opt_str(params),
            r.spec_handle().spec_encoding() == encoding_kind,
            r.spec_handle().spec_query() == query,
            r.spec_transport() == transport_kind,
    {
        ActorHandle { handle: ActorHandleStateless::new(manager, params, encoding_kind, query), transport: transport_kind }
    }

    pub fn stateless(&self) -> (r: &ActorHandleStateless)
        ensures
            r == self.spec_handle(),
    {
        &self.handle
    }

    pub fn stateless_mut(&mut self) -> (r: &mut ActorHandleStateless)
        ensures
            *r == *old(self).spec_handle(),
            final(self).spec_transport() == old(self).spec_transport(),
            *final(self).spec_handle() == *final(r),
    {
        &mut self.handle
    }

    pub fn transport(&self) -> (r: TransportKind)
        ensures
            r == self.spec_transport(),
    {
        self.transport
    }

    /// The parameters of a live connection: manager, query, transport,
    /// encoding and connection parameters, in that order.
    pub fn connection_parts(&self) -> (r: (RemoteManager, ActorQuery, TransportKind, EncodingKind, Option<String>))
        ensures
            r.0@ == self.spec_handle().spec_manager(),
            r.2 == self.spec_transport(),
            r.3 == self.spec_handle().spec_encoding(),
            opt_str(r.4) == self.spec_handle().spec_params(),
    {
        (
            self.handle.manager.duplicate(),
            self.handle.query.clone(),
            self.transport,
            self.handle.encoding,
            self.handle.params.clone(),
        )
    }
}

} // verus!
