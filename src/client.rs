use vstd::prelude::*;

use crate::common::{EncodingKind, TransportKind};
use crate::error::{ClientError, ControlOp};
use crate::handle::ActorHandle;
use crate::query::ActorQuery;
use crate::remote_manager::{creation_body_spec, opt_str, strings_view, ControlRequest, ManagerView, RemoteManager};

verus! {

/// Options of a lookup by id; `params` is JSON text.
#[derive(Debug, Clone, Default)]
pub struct GetWithIdOptions {
    pub params: Option<String>,
}

/// Options of a lookup by key; `params` is JSON text.
#[derive(Debug, Clone, Default)]
pub struct GetOptions {
    pub params: Option<String>,
}

/// Options of a get-or-create; the input is CBOR. The region is accepted
/// and kept in the query, but no request sends it.
#[derive(Debug, Clone, Default)]
pub struct GetOrCreateOptions {
    pub params: Option<String>,
    pub create_in_region: Option<String>,
    pub create_with_input: Option<Vec<u8>>,
}

/// Options of a creation; the input is CBOR. The region is accepted and not
/// sent.
#[derive(Debug, Clone, Default)]
pub struct CreateOptions {
    pub params: Option<String>,
    pub region: Option<String>,
    pub input: Option<Vec<u8>>,
}

/// The root of the library: an endpoint with its transport and encoding,
/// from which handles are made.
pub struct Client {
    manager: RemoteManager,
    encoding: EncodingKind,
    transport: TransportKind,
}

impl Client {
    pub closed spec fn spec_manager(&self) -> ManagerView {
        self.manager@
    }

    pub closed spec fn spec_encoding(&self) -> EncodingKind {
        self.encoding
    }

    pub closed spec fn spec_transport(&self) -> TransportKind {
        self.transport
    }

    /// A handle of this client for `query`.
    pub open spec fn makes(&self, h: ActorHandle, params: Option<String>, query: ActorQuery) -> bool {
        &&& h.spec_handle().spec_manager() == self.spec_manager()
        &&& h.spec_handle().spec_params() == opt_str(params)
        &&& h.spec_handle().spec_encoding() == self.spec_encoding()
        &&& h.spec_handle().spec_query() == query
        &&& h.spec_transport() == self.spec_transport()
    }

    pub fn new(manager_endpoint: &str, transport_kind: TransportKind, encoding_kind: EncodingKind) -> (r: Client)
        ensures
            r.spec_manager() == (ManagerView { endpoint: manager_endpoint@, token: None }),
            r.spec_transport() == transport_kind,
            r.spec_encoding() == encoding_kind,
    {
        Client { manager: RemoteManager::new(manager_endpoint, None), encoding: encoding_kind, transport: transport_kind }
    }

    pub fn new_with_token(
        manager_endpoint: &str,
        token: String,
        transport_kind: TransportKind,
        encoding_kind: EncodingKind,
    ) -> (r: Client)
        ensures
            r.spec_manager() == (ManagerView { endpoint: manager_endpoint@, token: Some(token@) }),
            r.spec_transport() == transport_kind,
            r.spec_encoding() == encoding_kind,
    {
        Client { manager: RemoteManager::new(manager_endpoint, Some(token)), encoding: encoding_kind, transport: transport_kind }
    }

    pub fn manager(&self) -> (r: &RemoteManager)
        ensures
            r@ == self.spec_manager(),
    {
        &self.manager
    }

    fn create_handle(&self, params: Option<String>, query: ActorQuery) -> (r: ActorHandle)
        ensures
            self.makes(r, params, query),
    {
        ActorHandle::new(self.manager.duplicate(), params, query, self.transport, self.encoding)
    }

    /// A handle on the actor `name` with `key`; nothing is sent.
    pub fn get(&self, name: &str, key: Vec<String>, opts: GetOptions) -> (r: Result<ActorHandle, ClientError>)
        ensures
            r is Ok,
            r matches Ok(h) && self.makes(h, opts.params, h.spec_handle().spec_query()) && match h.spec_handle().spec_query() {
                ActorQuery::GetForKey { name: n, key: k } => n@ == name@ && k == key,
                _ => false,
            },
    {
        let query = ActorQuery::GetForKey { name: String::from_str(name), key };
        Ok(self.create_handle(opts.params, query))
    }

    /// A handle on the actor `name` with id `actor_id`; nothing is sent.
    pub fn get_for_id(&self, name: &str, actor_id: &str, opts: GetOptions) -> (r: Result<ActorHandle, ClientError>)
        ensures
            r is Ok,
            r matches Ok(h) && self.makes(h, opts.params, h.spec_handle().spec_query()) && match h.spec_handle().spec_query() {
                ActorQuery::GetForId { name: n, actor_id: a } => n@ == name@ && a@ == actor_id@,
                _ => false,
            },
    {
        let query = ActorQuery::GetForId { name: String::from_str(name), actor_id: String::from_str(actor_id) };
        Ok(self.create_handle(opts.params, query))
    }

    /// A handle on the actor `name` with `key`, created on first resolution
    /// if missing; nothing is sent.
    pub fn get_or_create(&self, name: &str, key: Vec<String>, opts: GetOrCreateOptions) -> (r: Result<ActorHandle, ClientError>)
        ensures
            r is Ok,
            r matches Ok(h) && self.makes(h, opts.params, h.spec_handle().spec_query()) && match h.spec_handle().spec_query() {
                ActorQuery::GetOrCreateForKey { name: n, key: k, input, region } => n@ == name@ && k == key
                    && input == opts.create_with_input && region == opts.create_in_region,
                _ => false,
            },
    {
        let query = ActorQuery::GetOrCreateForKey {
            name: String::from_str(name),
            key,
            input: opts.create_with_input,
            region: opts.create_in_region,
        };
        Ok(self.create_handle(opts.params, query))
    }

    /// The creation request of `create`, sent before any handle exists;
    /// `input` is the CBOR creation input.
    pub fn create_request(&self, name: &str, key: Vec<String>, input: Option<Vec<u8>>) -> (r: ControlRequest)
        ensures
            r.op == ControlOp::Create,
            r.url@ == self.spec_manager().endpoint + "/actors"@,
            r.body is Some,
            creation_body_spec(r.body->Some_0, name@, strings_view(key@), input),
    {
        let query = ActorQuery::Create { name: String::from_str(name), key, input, region: None };
        self.manager.resolve_request(&query)
    }

    /// The handle `create` returns once the actor exists: a query by id, so
    /// that resolving it sends nothing.
    pub fn created_handle(&self, name: &str, actor_id: String, opts: CreateOptions) -> (r: ActorHandle)
        ensures
            self.makes(r, opts.params, r.spec_handle().spec_query()),
            match r.spec_handle().spec_query() {
                ActorQuery::GetForId { name: n, actor_id: a } => n@ == name@ && a == actor_id,
                _ => false,
            },
    {
        let query = ActorQuery::GetForId { name: String::from_str(name), actor_id };
        self.create_handle(opts.params, query)
    }
}

} // verus!
