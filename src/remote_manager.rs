use vstd::prelude::*;

use base64::Engine;

use crate::common::{encoding_name, EncodingKind};
use crate::error::{ClientError, ControlOp};
use crate::query::ActorQuery;

verus! {

/// What `urlencoding::encode` makes of a string.
pub uninterp spec fn url_encoded(s: Seq<char>) -> Seq<char>;

/// What `serde_json::to_string` makes of a list of strings.
pub uninterp spec fn json_of_strings(items: Seq<Seq<char>>) -> Seq<char>;

/// What the standard base64 engine makes of a byte string.
pub uninterp spec fn base64_of(bytes: Seq<u8>) -> Seq<char>;

/// Relies on `urlencoding::encode`: the percent-encoding of `s`.
#[verifier::external_body]
fn url_encode(s: &str) -> (r: String)
    ensures
        r@ == url_encoded(s@),
{
    urlencoding::encode(s).into_owned()
}

/// Relies on `serde_json::to_string`: the JSON array of `items`. It cannot
/// fail on a list of strings: strings always serialise, and writing into a
/// byte vector does not fail.
#[verifier::external_body]
fn strings_to_json(items: &Vec<String>) -> (r: String)
    ensures
        r@ == json_of_strings(strings_view(items@)),
{
    serde_json::to_string(items).unwrap_or_default()
}

/// Relies on `base64::engine::general_purpose::STANDARD.encode`.
#[verifier::external_body]
fn base64_encode(bytes: &[u8]) -> (r: String)
    ensures
        r@ == base64_of(bytes@),
{
    base64::engine::general_purpose::STANDARD.encode(bytes)
}

pub open spec fn strings_view(v: Seq<String>) -> Seq<Seq<char>> {
    v.map_values(|s: String| s@)
}

pub open spec fn pairs_view(v: Seq<(String, String)>) -> Seq<(Seq<char>, Seq<char>)> {
    v.map_values(|p: (String, String)| (p.0@, p.1@))
}

pub open spec fn starts_with(s: Seq<char>, p: Seq<char>) -> bool {
    p.len() <= s.len() && s.subrange(0, p.len() as int) == p
}

/// The WebSocket URL of an endpoint: `https` becomes `wss`, `http` becomes
/// `ws`, and the path is the upgrade endpoint; other schemes have none.
pub open spec fn websocket_url_of(e: Seq<char>) -> Option<Seq<char>> {
    if starts_with(e, "https://"@) {
        Some("wss://"@ + e.subrange("https://"@.len() as int, e.len() as int) + "/connect/websocket"@)
    } else if starts_with(e, "http://"@) {
        Some("ws://"@ + e.subrange("http://"@.len() as int, e.len() as int) + "/connect/websocket"@)
    } else {
        None
    }
}

pub open spec fn opt_entry(prefix: Seq<char>, o: Option<Seq<char>>) -> Seq<Seq<char>> {
    match o {
        Some(v) => seq![prefix + v],
        None => Seq::empty(),
    }
}

/// The WebSocket subprotocols, in the order the handshake carries them.
pub open spec fn protocols_of(
    token: Option<Seq<char>>,
    actor_id: Seq<char>,
    encoding: EncodingKind,
    params: Option<Seq<char>>,
    conn_id: Option<Seq<char>>,
    conn_token: Option<Seq<char>>,
) -> Seq<Seq<char>> {
    seq!["rivet"@, "rivet_target.actor"@, "rivet_actor."@ + actor_id, "rivet_encoding."@ + encoding_name(encoding)]
        + opt_entry("rivet_token."@, token)
        + opt_entry(
            "rivet_conn_params."@,
            match params {
                Some(p) => Some(url_encoded(p)),
                None => None,
            },
        )
        + opt_entry("rivet_conn."@, conn_id)
        + opt_entry("rivet_conn_token."@, conn_token)
}

/// `items` joined with `sep` between neighbours.
pub open spec fn joined(items: Seq<Seq<char>>, sep: Seq<char>) -> Seq<char>
    decreases items.len(),
{
    if items.len() == 0 {
        Seq::empty()
    } else if items.len() == 1 {
        items[0]
    } else {
        joined(items.drop_last(), sep) + sep + items.last()
    }
}

pub open spec fn is_success(status: u16) -> bool {
    200 <= status < 300
}

/// The control-plane operation a query resolves through.
pub open spec fn resolve_op(q: ActorQuery) -> ControlOp {
    match q {
        ActorQuery::GetForId { .. } => ControlOp::GetForId,
        ActorQuery::GetForKey { .. } => ControlOp::GetWithKey,
        ActorQuery::GetOrCreateForKey { .. } => ControlOp::GetOrCreate,
        ActorQuery::Create { .. } => ControlOp::Create,
    }
}

/// The request body of a creation: the key as JSON text, and the input as
/// base64 of its CBOR encoding.
pub struct CreationBody {
    pub name: String,
    pub key: String,
    pub input: Option<String>,
}

/// One call of the control plane: which operation, at which URL, with which
/// body.
pub struct ControlRequest {
    pub op: ControlOp,
    pub url: String,
    pub body: Option<CreationBody>,
}

pub ghost struct ManagerView {
    pub endpoint: Seq<char>,
    pub token: Option<Seq<char>>,
}

/// The client of the HTTP control plane at one endpoint.
#[derive(Debug, Clone)]
pub struct RemoteManager {
    endpoint: String,
    token: Option<String>,
}

pub open spec fn opt_str(o: Option<String>) -> Option<Seq<char>> {
    match o {
        Some(s) => Some(s@),
        None => None,
    }
}

/// `prefix` followed by `v`.
fn prefixed(prefix: &str, v: &str) -> (r: String)
    ensures
        r@ == prefix@ + v@,
{
    let mut s = String::from_str(prefix);
    s.append(v);
    s
}

/// Whether `s` starts with `p`.
fn has_prefix(s: &str, p: &str) -> (r: bool)
    ensures
        r == starts_with(s@, p@),
{
    let n = p.unicode_len();
    let m = s.unicode_len();
    if n > m {
        return false;
    }
    let mut i: usize = 0;
    while i < n
        invariant
            n == p@.len(),
            m == s@.len(),
            n <= m,
            i <= n,
            forall|k: int| 0 <= k < i ==> s@[k] == p@[k],
        decreases n - i,
    {
        if s.get_char(i) != p.get_char(i) {
            assert(s@.subrange(0, n as int)[i as int] != p@[i as int]);
            return false;
        }
        i += 1;
    }
    assert(s@.subrange(0, n as int) =~= p@);
    true
}

/// Joins `items` with `sep` between neighbours.
pub fn join(items: &Vec<String>, sep: &str) -> (r: String)
    ensures
        r@ == joined(strings_view(items@), sep@),
{
    let ghost v = strings_view(items@);
    let mut out = String::new();
    let mut i: usize = 0;
    while i < items.len()
        invariant
            i <= items@.len(),
            v == strings_view(items@),
            out@ == joined(v.subrange(0, i as int), sep@),
        decreases items@.len() - i,
    {
        if i > 0 {
            out.append(sep);
        }
        out.append(items[i].as_str());
        proof {
            let w = v.subrange(0, i as int + 1);
            assert(w.drop_last() =~= v.subrange(0, i as int));
            if i == 0 {
                assert(out@ =~= w[0]);
            }
        }
        i += 1;
    }
    assert(v.subrange(0, items@.len() as int) =~= v);
    out
}

/// Whether a status is in the success class.
pub fn status_is_success(status: u16) -> (r: bool)
    ensures
        r == is_success(status),
{
    200 <= status && status < 300
}

/// The id of the first actor in `actors` (given as name and id) whose name
/// is `name`.
pub open spec fn first_named(actors: Seq<(String, String)>, name: Seq<char>) -> Option<String>
    decreases actors.len(),
{
    if actors.len() == 0 {
        None
    } else if actors[0].0@ == name {
        Some(actors[0].1)
    } else {
        first_named(actors.drop_first(), name)
    }
}

/// The id of the first actor in `actors` whose name is `name`.
pub fn find_named(actors: &Vec<(String, String)>, name: &str) -> (r: Option<String>)
    ensures
        r == first_named(actors@, name@),
{
    let wanted = String::from_str(name);
    let ghost all = actors@;
    let mut i: usize = 0;
    assert(all.subrange(0, all.len() as int) =~= all);
    while i < actors.len()
        invariant
            i <= actors@.len(),
            actors@ == all,
            wanted@ == name@,
            first_named(all, name@) == first_named(all.subrange(i as int, all.len() as int), name@),
        decreases actors@.len() - i,
    {
        let ghost rest = all.subrange(i as int, all.len() as int);
        assert(rest[0] == all[i as int]);
        if actors[i].0 == wanted {
            assert(rest.len() > 0 && rest[0].0@ == name@);
            assert(first_named(rest, name@) == Some(all[i as int].1));
            let id = actors[i].1.clone();
            return Some(id);
        }
        assert(rest.drop_first() =~= all.subrange(i as int + 1, all.len() as int));
        i += 1;
    }
    assert(all.subrange(i as int, all.len() as int).len() == 0);
    None
}

/// What a lookup by id yields: among the listed actors (given as name and
/// id), the first whose name is `name`.
pub fn lookup_by_id_outcome(name: &str, status: u16, actors: Vec<(String, String)>) -> (r: Result<Option<String>, ClientError>)
    ensures
        !is_success(status) ==> r == Err::<Option<String>, ClientError>(ClientError::HttpStatus { op: ControlOp::GetForId, status }),
        is_success(status) ==> r == Ok::<Option<String>, ClientError>(first_named(actors@, name@)),
{
    if !status_is_success(status) {
        return Err(ClientError::HttpStatus { op: ControlOp::GetForId, status });
    }
    Ok(find_named(&actors, name))
}

/// The id of the first listed actor, if any.
pub open spec fn first_id(actors: Seq<(String, String)>) -> Option<String> {
    if actors.len() == 0 {
        None
    } else {
        Some(actors[0].1)
    }
}

fn take_first_id(actors: Vec<(String, String)>) -> (r: Option<String>)
    ensures
        r == first_id(actors@),
{
    let mut actors = actors;
    if actors.len() == 0 {
        None
    } else {
        let (_, id) = actors.swap_remove(0);
        Some(id)
    }
}

/// What a lookup by key yields: a 404 means no such actor, other failures
/// are errors, and otherwise the first listed actor's id, if any.
pub fn lookup_by_key_outcome(status: u16, actors: Vec<(String, String)>) -> (r: Result<Option<String>, ClientError>)
    ensures
        status == 404 ==> r == Ok::<Option<String>, ClientError>(None),
        !is_success(status) && status != 404 ==> r == Err::<Option<String>, ClientError>(
            ClientError::HttpStatus { op: ControlOp::GetWithKey, status },
        ),
        is_success(status) ==> r == Ok::<Option<String>, ClientError>(first_id(actors@)),
{
    if !status_is_success(status) {
        if status == 404 {
            return Ok(None);
        }
        return Err(ClientError::HttpStatus { op: ControlOp::GetWithKey, status });
    }
    Ok(take_first_id(actors))
}

/// What a creation (or get-or-create) yields: the id of the returned actor.
pub fn creation_outcome(op: ControlOp, status: u16, actor_id: Option<String>) -> (r: Result<String, ClientError>)
    ensures
        !is_success(status) ==> r == Err::<String, ClientError>(ClientError::HttpStatus { op, status }),
        is_success(status) ==> match actor_id {
            Some(id) => r == Ok::<String, ClientError>(id),
            None => r == Err::<String, ClientError>(ClientError::MalformedResponse { op }),
        },
{
    if !status_is_success(status) {
        return Err(ClientError::HttpStatus { op, status });
    }
    match actor_id {
        Some(id) => Ok(id),
        None => Err(ClientError::MalformedResponse { op }),
    }
}

/// A lookup that found nothing fails with `ActorNotFound`.
pub fn found_or_not_found(found: Option<String>) -> (r: Result<String, ClientError>)
    ensures
        match found {
            Some(id) => r == Ok::<String, ClientError>(id),
            None => r == Err::<String, ClientError>(ClientError::ActorNotFound),
        },
{
    match found {
        Some(id) => Ok(id),
        None => Err(ClientError::ActorNotFound),
    }
}

/// The query part `?name=<n>&actor_ids=<id>` of a lookup by id.
pub open spec fn by_id_url(e: Seq<char>, name: Seq<char>, actor_id: Seq<char>) -> Seq<char> {
    e + "/actors?name="@ + url_encoded(name) + "&actor_ids="@ + url_encoded(actor_id)
}

/// The URL of a lookup by key; the key travels as its JSON text.
pub open spec fn by_key_url(e: Seq<char>, name: Seq<char>, key_json: Seq<char>) -> Seq<char> {
    e + "/actors?name="@ + url_encoded(name) + "&key="@ + url_encoded(key_json)
}

pub open spec fn header(name: &str, value: Seq<char>) -> (Seq<char>, Seq<char>) {
    (name@, value)
}

/// Headers of every control-plane request: the user agent, then the token.
pub open spec fn control_headers_of(token: Option<Seq<char>>) -> Seq<(Seq<char>, Seq<char>)> {
    seq![header("user-agent", crate::common::USER_AGENT_VALUE@)] + match token {
        Some(t) => seq![header(crate::common::HEADER_RIVET_TOKEN, t)],
        None => Seq::empty(),
    }
}

/// Headers of a request routed to an actor through the gateway.
pub open spec fn actor_headers_of(token: Option<Seq<char>>, actor_id: Seq<char>) -> Seq<(Seq<char>, Seq<char>)> {
    seq![
        header("user-agent", crate::common::USER_AGENT_VALUE@),
        header(crate::common::HEADER_RIVET_TARGET, "actor"@),
        header(crate::common::HEADER_RIVET_ACTOR, actor_id),
    ] + match token {
        Some(t) => seq![header(crate::common::HEADER_RIVET_TOKEN, t)],
        None => Seq::empty(),
    }
}

/// The HTTP method of each control-plane operation.
#[derive(Debug, Clone, Copy, PartialEq, Eq, Structural)]
pub enum HttpMethod {
    Get,
    Put,
    Post,
}

pub open spec fn method_spec(op: ControlOp) -> HttpMethod {
    match op {
        ControlOp::GetForId => HttpMethod::Get,
        ControlOp::GetWithKey => HttpMethod::Get,
        ControlOp::GetOrCreate => HttpMethod::Put,
        ControlOp::Create => HttpMethod::Post,
    }
}

/// Lookups are `GET`s, get-or-create is a `PUT`, creation a `POST`.
pub fn method_of(op: ControlOp) -> (r: HttpMethod)
    ensures
        r == method_spec(op),
{
    match op {
        ControlOp::GetForId => HttpMethod::Get,
        ControlOp::GetWithKey => HttpMethod::Get,
        ControlOp::GetOrCreate => HttpMethod::Put,
        ControlOp::Create => HttpMethod::Post,
    }
}

pub open spec fn opt_base64(input: Option<Vec<u8>>) -> Option<Seq<char>> {
    match input {
        Some(b) => Some(base64_of(b@)),
        None => None,
    }
}

/// The creation body holds the name, the key as JSON text (so the key is
/// encoded twice once the body is JSON), and the base64 of the CBOR input.
pub open spec fn creation_body_spec(b: CreationBody, name: Seq<char>, key: Seq<Seq<char>>, input: Option<Vec<u8>>) -> bool {
    &&& b.name@ == name
    &&& b.key@ == json_of_strings(key)
    &&& opt_str(b.input) == opt_base64(input)
}

/// The body of a creation request.
pub fn creation_body(name: &str, key: &Vec<String>, input: &Option<Vec<u8>>) -> (r: CreationBody)
    ensures
        creation_body_spec(r, name@, strings_view(key@), *input),
{
    let key_json = strings_to_json(key);
    let input_b64 = match input {
        Some(b) => Some(base64_encode(b.as_slice())),
        None => None,
    };
    CreationBody { name: String::from_str(name), key: key_json, input: input_b64 }
}

/// The request a query resolves through, against `manager`.
pub open spec fn resolve_request_spec(m: ManagerView, q: ActorQuery, r: ControlRequest) -> bool {
    &&& r.op == resolve_op(q)
    &&& match q {
        ActorQuery::GetForId { name, actor_id } => r.url@ == by_id_url(m.endpoint, name@, actor_id@) && r.body is None,
        ActorQuery::GetForKey { name, key } => r.url@ == by_key_url(
            m.endpoint,
            name@,
            json_of_strings(strings_view(key@)),
        ) && r.body is None,
        ActorQuery::GetOrCreateForKey { name, key, input, .. } => r.url@ == m.endpoint + "/actors"@
            && r.body is Some && creation_body_spec(r.body->Some_0, name@, strings_view(key@), input),
        ActorQuery::Create { name, key, input, .. } => r.url@ == m.endpoint + "/actors"@
            && r.body is Some && creation_body_spec(r.body->Some_0, name@, strings_view(key@), input),
    }
}

/// The result of resolving through operation `op` for actor `name`, from the
/// reply's status and the actors it names (given as name and id): the listed
/// actors of a lookup, or the one actor a creation returned.
pub open spec fn resolve_outcome_spec(op: ControlOp, name: Seq<char>, status: u16, actors: Seq<(String, String)>) -> Result<String, ClientError> {
    match op {
        ControlOp::GetForId => if !is_success(status) {
            Err(ClientError::HttpStatus { op, status })
        } else {
            match first_named(actors, name) {
                Some(id) => Ok(id),
                None => Err(ClientError::ActorNotFound),
            }
        },
        ControlOp::GetWithKey => if status == 404 {
            Err(ClientError::ActorNotFound)
        } else if !is_success(status) {
            Err(ClientError::HttpStatus { op, status })
        } else {
            match first_id(actors) {
                Some(id) => Ok(id),
                None => Err(ClientError::ActorNotFound),
            }
        },
        _ => if !is_success(status) {
            Err(ClientError::HttpStatus { op, status })
        } else {
            match first_id(actors) {
                Some(id) => Ok(id),
                None => Err(ClientError::MalformedResponse { op }),
            }
        },
    }
}

/// Resolves the reply of operation `op`: lookups that find nothing fail with
/// `ActorNotFound`; creations yield the created actor's id.
pub fn resolve_outcome(op: ControlOp, name: &str, status: u16, actors: Vec<(String, String)>) -> (r: Result<String, ClientError>)
    ensures
        r == resolve_outcome_spec(op, name@, status, actors@),
{
    match op {
        ControlOp::GetForId => {
            let found = lookup_by_id_outcome(name, status, actors)?;
            found_or_not_found(found)
        },
        ControlOp::GetWithKey => {
            let found = lookup_by_key_outcome(status, actors)?;
            found_or_not_found(found)
        },
        _ => creation_outcome(op, status, take_first_id(actors)),
    }
}

/// The path of unary action `name`.
pub fn action_path(name: &str) -> (r: String)
    ensures
        r@ == "/action/"@ + url_encoded(name@),
{
    let enc = url_encode(name);
    prefixed("/action/", enc.as_str())
}

impl View for RemoteManager {
    type V = ManagerView;

    closed spec fn view(&self) -> ManagerView {
        ManagerView { endpoint: self.endpoint@, token: opt_str(self.token) }
    }
}

fn pair(name: &str, value: String) -> (r: (String, String))
    ensures
        r.0@ == name@,
        r.1 == value,
{
    (String::from_str(name), value)
}

impl RemoteManager {
    pub fn new(endpoint: &str, token: Option<String>) -> (r: RemoteManager)
        ensures
            r@ == (ManagerView { endpoint: endpoint@, token: opt_str(token) }),
    {
        RemoteManager { endpoint: String::from_str(endpoint), token }
    }

    /// A copy of this manager.
    pub fn duplicate(&self) -> (r: RemoteManager)
        ensures
            r@ == self@,
    {
        RemoteManager { endpoint: self.endpoint.clone(), token: self.token.clone() }
    }

    pub fn endpoint(&self) -> (r: &str)
        ensures
            r@ == self@.endpoint,
    {
        self.endpoint.as_str()
    }

    /// The URL of the WebSocket upgrade, or `InvalidEndpointUrl` for an
    /// endpoint that is neither `http://` nor `https://`.
    pub fn websocket_url(&self) -> (r: Result<String, ClientError>)
        ensures
            match websocket_url_of(self@.endpoint) {
                Some(u) => r is Ok && r->Ok_0@ == u,
                None => r == Err::<String, ClientError>(ClientError::InvalidEndpointUrl),
            },
    {
        let e = self.endpoint.as_str();
        let (scheme, prefix) = if has_prefix(e, "https://") {
            ("wss://", "https://")
        } else if has_prefix(e, "http://") {
            ("ws://", "http://")
        } else {
            return Err(ClientError::InvalidEndpointUrl);
        };
        let rest = e.substring_char(prefix.unicode_len(), e.unicode_len());
        let mut u = String::from_str(scheme);
        u.append(rest);
        u.append(crate::common::PATH_CONNECT_WEBSOCKET);
        proof {
            reveal_strlit("/connect/websocket");
        }
        assert(crate::common::PATH_CONNECT_WEBSOCKET@ == "/connect/websocket"@);
        Ok(u)
    }

    /// The subprotocols of the WebSocket handshake, in their prescribed
    /// order; `params` is the JSON text of the connection parameters.
    pub fn websocket_protocols(
        &self,
        actor_id: &str,
        encoding: EncodingKind,
        params: Option<String>,
        conn_id: Option<String>,
        conn_token: Option<String>,
    ) -> (r: Vec<String>)
        ensures
            strings_view(r@) == protocols_of(
                self@.token,
                actor_id@,
                encoding,
                opt_str(params),
                opt_str(conn_id),
                opt_str(conn_token),
            ),
    {
        let mut v: Vec<String> = Vec::new();
        v.push(String::from_str("rivet"));
        v.push(String::from_str("rivet_target.actor"));
        v.push(prefixed("rivet_actor.", actor_id));
        v.push(prefixed("rivet_encoding.", encoding.as_str()));
        let ghost base = strings_view(v@);
        assert(base =~= seq!["rivet"@, "rivet_target.actor"@, "rivet_actor."@ + actor_id@, "rivet_encoding."@ + encoding_name(encoding)]);
        let ghost g0 = v@;
        if let Some(t) = &self.token {
            v.push(prefixed("rivet_token.", t.as_str()));
        }
        assert(strings_view(v@) =~= base + opt_entry("rivet_token."@, self@.token));
        let ghost s1 = strings_view(v@);
        if let Some(p) = &params {
            let enc = url_encode(p.as_str());
            v.push(prefixed("rivet_conn_params.", enc.as_str()));
        }
        let ghost pe = match opt_str(params) {
            Some(p) => Some(url_encoded(p)),
            None => None,
        };
        assert(strings_view(v@) =~= s1 + opt_entry("rivet_conn_params."@, pe));
        let ghost s2 = strings_view(v@);
        if let Some(c) = &conn_id {
            v.push(prefixed("rivet_conn.", c.as_str()));
        }
        assert(strings_view(v@) =~= s2 + opt_entry("rivet_conn."@, opt_str(conn_id)));
        let ghost s3 = strings_view(v@);
        if let Some(c) = &conn_token {
            v.push(prefixed("rivet_conn_token.", c.as_str()));
        }
        assert(strings_view(v@) =~= s3 + opt_entry("rivet_conn_token."@, opt_str(conn_token)));
        v
    }

    /// The value of the `Sec-WebSocket-Protocol` header: the subprotocols
    /// joined with `", "`.
    pub fn websocket_protocol_header(
        &self,
        actor_id: &str,
        encoding: EncodingKind,
        params: Option<String>,
        conn_id: Option<String>,
        conn_token: Option<String>,
    ) -> (r: String)
        ensures
            r@ == joined(
                protocols_of(self@.token, actor_id@, encoding, opt_str(params), opt_str(conn_id), opt_str(conn_token)),
                ", "@,
            ),
    {
        let v = self.websocket_protocols(actor_id, encoding, params, conn_id, conn_token);
        join(&v, ", ")
    }

    /// The URL of a lookup by id.
    pub fn get_for_id_url(&self, name: &str, actor_id: &str) -> (r: String)
        ensures
            r@ == by_id_url(self@.endpoint, name@, actor_id@),
    {
        let mut u = String::from_str(self.endpoint.as_str());
        u.append("/actors?name=");
        let n = url_encode(name);
        u.append(n.as_str());
        u.append("&actor_ids=");
        let a = url_encode(actor_id);
        u.append(a.as_str());
        u
    }

    /// The URL of a lookup by key; the key travels as its JSON text.
    pub fn get_with_key_url(&self, name: &str, key: &Vec<String>) -> (r: String)
        ensures
            r@ == by_key_url(self@.endpoint, name@, json_of_strings(strings_view(key@))),
    {
        let key_json = strings_to_json(key);
        let mut u = String::from_str(self.endpoint.as_str());
        u.append("/actors?name=");
        let n = url_encode(name);
        u.append(n.as_str());
        u.append("&key=");
        let k = url_encode(key_json.as_str());
        u.append(k.as_str());
        u
    }

    /// The URL of the actor collection, where actors are created.
    pub fn actors_url(&self) -> (r: String)
        ensures
            r@ == self@.endpoint + "/actors"@,
    {
        prefixed(self.endpoint.as_str(), "/actors")
    }

    /// The URL of `path` at the endpoint.
    pub fn url_for(&self, path: &str) -> (r: String)
        ensures
            r@ == self@.endpoint + path@,
    {
        prefixed(self.endpoint.as_str(), path)
    }

    /// The headers every control-plane request carries.
    pub fn control_headers(&self) -> (r: Vec<(String, String)>)
        ensures
            pairs_view(r@) == control_headers_of(self@.token),
    {
        let mut v: Vec<(String, String)> = Vec::new();
        v.push(pair("user-agent", String::from_str(crate::common::USER_AGENT_VALUE)));
        if let Some(t) = &self.token {
            v.push(pair(crate::common::HEADER_RIVET_TOKEN, t.clone()));
        }
        assert(pairs_view(v@) =~= control_headers_of(self@.token));
        v
    }

    /// The headers of a request sent to actor `actor_id` through the gateway.
    pub fn actor_headers(&self, actor_id: &str) -> (r: Vec<(String, String)>)
        ensures
            pairs_view(r@) == actor_headers_of(self@.token, actor_id@),
    {
        let mut v: Vec<(String, String)> = Vec::new();
        v.push(pair("user-agent", String::from_str(crate::common::USER_AGENT_VALUE)));
        v.push(pair(crate::common::HEADER_RIVET_TARGET, String::from_str("actor")));
        v.push(pair(crate::common::HEADER_RIVET_ACTOR, String::from_str(actor_id)));
        if let Some(t) = &self.token {
            v.push(pair(crate::common::HEADER_RIVET_TOKEN, t.clone()));
        }
        assert(pairs_view(v@) =~= actor_headers_of(self@.token, actor_id@));
        v
    }

    /// The control-plane request that resolves `query` to an actor id.
    pub fn resolve_request(&self, query: &ActorQuery) -> (r: ControlRequest)
        ensures
            resolve_request_spec(self@, *query, r),
    {
        match query {
            ActorQuery::GetForId { name, actor_id } => ControlRequest {
                op: ControlOp::GetForId,
                url: self.get_for_id_url(name.as_str(), actor_id.as_str()),
                body: None,
            },
            ActorQuery::GetForKey { name, key } => ControlRequest {
                op: ControlOp::GetWithKey,
                url: self.get_with_key_url(name.as_str(), key),
                body: None,
            },
            ActorQuery::GetOrCreateForKey { name, key, input, .. } => ControlRequest {
                op: ControlOp::GetOrCreate,
                url: self.actors_url(),
                body: Some(creation_body(name.as_str(), key, input)),
            },
            ActorQuery::Create { name, key, input, .. } => ControlRequest {
                op: ControlOp::Create,
                url: self.actors_url(),
                body: Some(creation_body(name.as_str(), key, input)),
            },
        }
    }
}

} // verus!
