//! Client-side protocol core for a hierarchical REST API with CRUD
//! operations over typed entities, a bootstrap authentication exchange
//! (password, then API key) and organization-scoped multi-tenant headers.
//!
//! The core is deliberately free of any transport: every operation is split
//! into a request builder, which turns session and entity state into an
//! [`wire::HttpRequest`] value, and a response handler, which applies an
//! [`wire::HttpResponse`] to the entity. A caller owns the round trip in
//! between and hands the response back unchanged.

pub mod error;
pub mod wire;

use vstd::prelude::*;

pub use crate::error::Error;

use crate::wire::{expected_status, HttpRequest, HttpResponse, Method, RequestHeaders};

verus! {

/// A session owns the connection configuration and the credential state
/// shared by every request: the base URL, the login, the password, the
/// organization, and the API key once the bootstrap exchange has stored one.
/// Everything but the API key is immutable after construction.
#[derive(Clone, Debug)]
pub struct Session {
    pub url: String,
    pub username: String,
    pub password: String,
    pub api_key: Option<String>,
    pub organization: String,
}

/// The capability set every concrete resource type exposes to the protocol
/// core: its serialized wire form, its REST path metadata, its optional
/// identifier, its root-ness, and a non-owning binding to the session that
/// fetched it. Concrete entity types implement this; the core never needs a
/// type hierarchy over them.
///
/// The spec functions default to an unspecified value, so an implementation
/// written outside the verifier can leave them alone; one written inside
/// `verus!` overrides them, and must then prove the method contracts that
/// speak of them.
pub trait RestEntity<'a>: Sized {
    /// The session this entity is bound to, if any.
    open spec fn spec_session(&self) -> Option<&'a Session> {
        arbitrary()
    }

    /// The same entity, rebound to the given session. Binding touches
    /// nothing but the session reference.
    open spec fn with_session(self, session: &'a Session) -> Self {
        arbitrary()
    }

    /// The entity's identifier, if one is known.
    open spec fn spec_id(&self) -> Option<Seq<char>> {
        arbitrary()
    }

    /// Whether the entity is the root of the resource hierarchy.
    open spec fn spec_is_root(&self) -> bool {
        arbitrary()
    }

    /// The REST path of the entity type, without an identifier segment.
    open spec fn spec_path() -> Seq<char> {
        arbitrary()
    }

    /// The collection endpoint under which entities of this type are listed
    /// or created as children of a parent.
    open spec fn spec_group_path() -> Seq<char> {
        arbitrary()
    }

    /// The entity's serialized wire form.
    open spec fn encode_spec(&self) -> Seq<char> {
        arbitrary()
    }

    /// How a response body decodes into the list of entities it wraps:
    /// `None` when the body does not have the expected shape.
    open spec fn decode_spec(body: Seq<char>) -> Option<Seq<Self>> {
        arbitrary()
    }

    /// Bind the entity to a session. Without one the entity cannot name the
    /// server it lives on. Binding changes the session reference and nothing
    /// else: the payload attributes stay as they were.
    fn set_session(&mut self, session: &'a Session)
        ensures
            *final(self) == (*old(self)).with_session(session),
            final(self).spec_session() == Some(session),
            final(self).spec_id() == (*old(self)).spec_id(),
            final(self).spec_is_root() == (*old(self)).spec_is_root(),
            final(self).encode_spec() == (*old(self)).encode_spec(),
    ;

    /// The session this entity is bound to, if any.
    fn get_session(&self) -> (r: Option<&'a Session>)
        ensures
            r == self.spec_session(),
    ;

    /// The REST path of the entity type, without an identifier segment.
    fn path() -> (r: &'static str)
        ensures
            r@ == Self::spec_path(),
    ;

    /// The collection endpoint for children of this type.
    fn group_path() -> (r: &'static str)
        ensures
            r@ == Self::spec_group_path(),
    ;

    /// The entity's identifier, absent before it is first fetched or saved.
    fn id(&self) -> (r: Option<&str>)
        ensures
            match r {
                Some(s) => self.spec_id() == Some(s@),
                None => self.spec_id() is None,
            },
    ;

    /// Whether the entity is the root of the resource hierarchy.
    fn is_root(&self) -> (r: bool)
        ensures
            r == self.spec_is_root(),
    ;

    /// Serialize the entity into the wire form sent as a request body.
    fn encode(&self) -> (r: String)
        ensures
            r@ == self.encode_spec(),
    ;

    /// Decode a response body into the list of entities it wraps. The API
    /// answers with a list even when one entity is addressed.
    fn decode_list(body: &str) -> (r: Result<Vec<Self>, Error>)
        ensures
            match r {
                Ok(v) => Self::decode_spec(body@) == Some(v@),
                Err(e) => Self::decode_spec(body@) is None && e matches Error::ParseFailure(_),
            },
    ;

    /// The session this entity is bound to, or `NoSession` when it was never
    /// bound to one.
    fn session(&self) -> (r: Result<&'a Session, Error>)
        ensures
            match r {
                Ok(s) => self.spec_session() == Some(s),
                Err(e) => self.spec_session() is None && e matches Error::NoSession,
            },
    {
        match self.get_session() {
            Some(s) => Ok(s),
            None => Err(Error::NoSession),
        }
    }
}

/// The root of the hierarchy additionally carries the API key handed out by
/// the bootstrap exchange.
pub trait RestRootEntity<'a>: RestEntity<'a> {
    /// The API key the server stored on the root, if any.
    open spec fn spec_api_key(&self) -> Option<Seq<char>> {
        arbitrary()
    }

    /// The API key the server stored on the root, if any. After the first
    /// password authentication the session keeps it for every later request.
    fn get_api_key(&self) -> (r: Option<&str>)
        ensures
            match r {
                Some(k) => self.spec_api_key() == Some(k@),
                None => self.spec_api_key() is None,
            },
    ;
}

impl Session {
    /// The credential that authenticates a request right now: the API key
    /// once one is stored, the password before that.
    pub open spec fn spec_secret(&self) -> Seq<char> {
        match self.api_key {
            Some(k) => k@,
            None => self.password@,
        }
    }

    /// The absolute URL addressing one entity: the base URL followed by the
    /// type's path and, unless the entity is the hierarchy root, a `/` and
    /// the identifier. `None` when a non-root entity has no identifier.
    pub open spec fn spec_entity_url<'a, E: RestEntity<'a>>(&self, entity: E) -> Option<Seq<char>> {
        if entity.spec_is_root() {
            Some(self.url@ + E::spec_path())
        } else {
            match entity.spec_id() {
                Some(id) => Some(self.url@ + E::spec_path() + seq!['/'] + id),
                None => None,
            }
        }
    }

    /// The collection URL under which children of type `C` sit: directly
    /// under the base URL when the parent is the root (the root's own path
    /// does not appear), under the parent's entity URL otherwise.
    pub open spec fn spec_children_url<'a, P: RestEntity<'a>, C: RestEntity<'a>>(
        &self,
        parent: P,
    ) -> Option<Seq<char>> {
        if parent.spec_is_root() {
            Some(self.url@ + C::spec_group_path())
        } else {
            match self.spec_entity_url(parent) {
                Some(u) => Some(u + C::spec_group_path()),
                None => None,
            }
        }
    }

    /// Build the header set of one request from the current session state.
    /// Recomputed per request: the credential switches to the API key as
    /// soon as the bootstrap exchange stores one.
    pub fn headers(&self) -> (h: RequestHeaders)
        ensures
            headers_match(h, *self),
    {
        RequestHeaders {
            organization: self.organization.clone(),
            content_type: String::from_str("application/json; charset=utf-8"),
            username: self.username.clone(),
            secret: match &self.api_key {
                Some(k) => k.clone(),
                None => self.password.clone(),
            },
        }
    }

    /// Compute the absolute URL of one entity, or `MissingId` when a
    /// non-root entity has no identifier.
    pub fn entity_url<'a, E: RestEntity<'a>>(&self, entity: &E) -> (r: Result<String, Error>)
        ensures
            match r {
                Ok(u) => self.spec_entity_url(*entity) == Some(u@),
                Err(e) => self.spec_entity_url(*entity) is None && e matches Error::MissingId,
            },
    {
        let mut u = self.url.clone();
        u.append(E::path());
        if entity.is_root() {
            Ok(u)
        } else {
            match entity.id() {
                Some(id) => {
                    u.append("/");
                    u.append(id);
                    proof {
                        reveal_strlit("/");
                        assert(u@ =~= self.url@ + E::spec_path() + seq!['/'] + id@);
                    }
                    Ok(u)
                },
                None => Err(Error::MissingId),
            }
        }
    }

    /// Compute the collection URL for children of type `C` under `parent`,
    /// or `MissingId` when the parent is non-root and has no identifier.
    pub fn children_url<'a, P: RestEntity<'a>, C: RestEntity<'a>>(&self, parent: &P) -> (r:
        Result<String, Error>)
        ensures
            match r {
                Ok(u) => self.spec_children_url::<P, C>(*parent) == Some(u@),
                Err(e) => self.spec_children_url::<P, C>(*parent) is None && e matches Error::MissingId,
            },
    {
        if parent.is_root() {
            let mut u = self.url.clone();
            u.append(C::group_path());
            Ok(u)
        } else {
            match self.entity_url(parent) {
                Ok(mut u) => {
                    u.append(C::group_path());
                    Ok(u)
                },
                Err(e) => Err(e),
            }
        }
    }
}

/// Whether `h` is exactly the header set the session builds: the tenant
/// header carries the organization, the content type announces JSON, and the
/// Basic credential pairs the login with the current secret.
pub open spec fn headers_match(h: RequestHeaders, s: Session) -> bool {
    h.organization@ == s.organization@ && h.content_type@ == "application/json; charset=utf-8"@
        && h.username@ == s.username@ && h.secret@ == s.spec_secret()
}

/// Collects the connection configuration before a session is built. The
/// values are accepted as supplied; TLS trust material and the transport
/// client are the transport's concern, not the core's.
#[derive(Clone, Debug)]
pub struct SessionBuilder {
    pub url: String,
    pub username: String,
    pub password: String,
    pub api_key: Option<String>,
    pub organization: String,
}

impl SessionBuilder {
    /// Start a builder from the connection configuration.
    pub fn new(url: &str, login: &str, password: &str, organization: &str) -> (r: Result<
        SessionBuilder,
        Error,
    >)
        ensures
            r matches Ok(b) && b.url@ == url@ && b.username@ == login@ && b.password@ == password@
                && b.organization@ == organization@ && b.api_key is None,
    {
        Ok(
            SessionBuilder {
                url: url.to_owned(),
                username: login.to_owned(),
                password: password.to_owned(),
                organization: organization.to_owned(),
                api_key: None,
            },
        )
    }

    /// Turn the collected configuration into a session.
    pub fn build(self) -> (r: Result<Session, Error>)
        ensures
            r matches Ok(s) && s.url@ == self.url@ && s.username@ == self.username@ && s.password@
                == self.password@ && opt_key_view(s.api_key) == opt_key_view(self.api_key)
                && s.organization@ == self.organization@,
    {
        Ok(
            Session {
                url: self.url,
                username: self.username,
                password: self.password,
                api_key: self.api_key,
                organization: self.organization,
            },
        )
    }
}

/// An optional credential, seen as the character sequence it holds.
pub open spec fn opt_key_view(o: Option<String>) -> Option<Seq<char>> {
    match o {
        Some(k) => Some(k@),
        None => None,
    }
}

impl Session {
    /// Build the GET request that fetches one entity.
    pub fn fetch_entity_request<'a, E: RestEntity<'a>>(&self, entity: &E) -> (r: Result<
        HttpRequest,
        Error,
    >)
        ensures
            match r {
                Ok(req) => req.method == Method::Get && self.spec_entity_url(*entity) == Some(
                    req.url@,
                ) && headers_match(req.headers, *self) && req.body is None,
                Err(e) => self.spec_entity_url(*entity) is None && e matches Error::MissingId,
            },
    {
        let url = match self.entity_url(entity) {
            Ok(u) => u,
            Err(e) => return Err(e),
        };
        Ok(HttpRequest { method: Method::Get, url, headers: self.headers(), body: None })
    }

    /// Build the PUT request that saves one entity, with the entity's
    /// current serialized state as the body.
    pub fn save_request<'a, E: RestEntity<'a>>(&self, entity: &E) -> (r: Result<
        HttpRequest,
        Error,
    >)
        ensures
            match r {
                Ok(req) => req.method == Method::Put && self.spec_entity_url(*entity) == Some(
                    req.url@,
                ) && headers_match(req.headers, *self) && (req.body matches Some(b) && b@
                    == entity.encode_spec()),
                Err(e) => self.spec_entity_url(*entity) is None && e matches Error::MissingId,
            },
    {
        let url = match self.entity_url(entity) {
            Ok(u) => u,
            Err(e) => return Err(e),
        };
        Ok(
            HttpRequest {
                method: Method::Put,
                url,
                headers: self.headers(),
                body: Some(entity.encode()),
            },
        )
    }

    /// Build the DELETE request that removes one entity.
    pub fn delete_request<'a, E: RestEntity<'a>>(&self, entity: &E) -> (r: Result<
        HttpRequest,
        Error,
    >)
        ensures
            match r {
                Ok(req) => req.method == Method::Delete && self.spec_entity_url(*entity) == Some(
                    req.url@,
                ) && headers_match(req.headers, *self) && req.body is None,
                Err(e) => self.spec_entity_url(*entity) is None && e matches Error::MissingId,
            },
    {
        let url = match self.entity_url(entity) {
            Ok(u) => u,
            Err(e) => return Err(e),
        };
        Ok(HttpRequest { method: Method::Delete, url, headers: self.headers(), body: None })
    }

    /// Build the POST request that creates `child` under `parent`, with the
    /// child's serialized state as the body. The child must not have an
    /// identifier yet: the server assigns one.
    pub fn create_child_request<'a, P: RestEntity<'a>, C: RestEntity<'a>>(
        &self,
        parent: &P,
        child: &C,
    ) -> (r: Result<HttpRequest, Error>)
        requires
            child.spec_id() is None,
        ensures
            match r {
                Ok(req) => req.method == Method::Post && self.spec_children_url::<P, C>(*parent)
                    == Some(req.url@) && headers_match(req.headers, *self) && (req.body matches Some(
                    b,
                ) && b@ == child.encode_spec()),
                Err(e) => self.spec_children_url::<P, C>(*parent) is None
                    && e matches Error::MissingId,
            },
    {
        let url = match self.children_url::<P, C>(parent) {
            Ok(u) => u,
            Err(e) => return Err(e),
        };
        Ok(
            HttpRequest {
                method: Method::Post,
                url,
                headers: self.headers(),
                body: Some(child.encode()),
            },
        )
    }

    /// Build the GET request that lists the children of type `C` under
    /// `parent`.
    pub fn fetch_children_request<'a, P: RestEntity<'a>, C: RestEntity<'a>>(&self, parent: &P) -> (r:
        Result<HttpRequest, Error>)
        ensures
            match r {
                Ok(req) => req.method == Method::Get && self.spec_children_url::<P, C>(*parent)
                    == Some(req.url@) && headers_match(req.headers, *self) && req.body is None,
                Err(e) => self.spec_children_url::<P, C>(*parent) is None
                    && e matches Error::MissingId,
            },
    {
        let url = match self.children_url::<P, C>(parent) {
            Ok(u) => u,
            Err(e) => return Err(e),
        };
        Ok(HttpRequest { method: Method::Get, url, headers: self.headers(), body: None })
    }

    /// Build the GET request of the bootstrap exchange: the root entity is
    /// fetched with whatever credential the session holds now, the password
    /// before the first bootstrap.
    pub fn connect_request<'a, R: RestRootEntity<'a>>(&self, root: &R) -> (r: Result<
        HttpRequest,
        Error,
    >)
        ensures
            match r {
                Ok(req) => req.method == Method::Get && self.spec_entity_url(*root) == Some(
                    req.url@,
                ) && headers_match(req.headers, *self) && req.body is None,
                Err(e) => self.spec_entity_url(*root) is None && e matches Error::MissingId,
            },
    {
        self.fetch_entity_request(root)
    }
}

/// How a single-entity operation fails on a given response, when the
/// contractual status is `expected`: a status outside the contract surfaces
/// verbatim, an undecodable body is a parse failure, and an empty decoded
/// list means the server acknowledged without a payload.
pub open spec fn single_failure<'a, E: RestEntity<'a>>(
    e: Error,
    response: HttpResponse,
    expected: u16,
) -> bool {
    match e {
        Error::RequestFailed { status, body } => response.status != expected && status
            == response.status && body@ == response.body@,
        Error::ParseFailure(_) => response.status == expected && E::decode_spec(
            response.body@,
        ) is None,
        Error::NoEntity => response.status == expected && (E::decode_spec(
            response.body@,
        ) matches Some(s) && s.len() == 0),
        _ => false,
    }
}

/// How a collection operation fails on a given response. An empty decoded
/// list is not a failure here: a parent may simply have no children.
pub open spec fn list_failure<'a, C: RestEntity<'a>>(e: Error, response: HttpResponse) -> bool {
    match e {
        Error::RequestFailed { status, body } => response.status != 200 && status
            == response.status && body@ == response.body@,
        Error::ParseFailure(_) => response.status == 200 && C::decode_spec(
            response.body@,
        ) is None,
        _ => false,
    }
}

/// Whether two entity values agree on everything the protocol reads apart
/// from the session binding: identifier, root-ness and wire form. Binding an
/// entity to a session must leave all of these untouched.
pub open spec fn same_payload<'a, E: RestEntity<'a>>(a: E, b: E) -> bool {
    a.spec_id() == b.spec_id() && a.spec_is_root() == b.spec_is_root() && a.encode_spec()
        == b.encode_spec()
}

/// A decoded list of children, each rebound to `session`.
pub open spec fn bound_all<'a, C: RestEntity<'a>>(s: Seq<C>, session: &'a Session) -> Seq<C> {
    s.map_values(|c: C| c.with_session(session))
}

/// How a successful bootstrap updates the session: the connection
/// configuration is untouched, and the API key is stored exactly once. A
/// session that is still unauthenticated takes the key carried by the
/// hydrated root; one that already holds a key keeps it, whatever the root
/// carries — the transition to API-key authentication is irreversible
/// within the session's lifetime.
pub open spec fn connect_updates<'a, R: RestRootEntity<'a>>(
    before: Session,
    after: Session,
    last: R,
) -> bool {
    after.url@ == before.url@ && after.username@ == before.username@ && after.password@
        == before.password@ && after.organization@ == before.organization@ && opt_key_view(
        after.api_key,
    ) == (if before.api_key is Some {
        opt_key_view(before.api_key)
    } else {
        last.spec_api_key()
    })
}

impl Session {
    /// Shared response handling of the single-entity operations: on the
    /// contractual status, decode the list-wrapped body, take its last
    /// element as the authoritative entity state, and bind it to this
    /// session. On any failure the entity is left untouched.
    fn hydrate_single<'a, E: RestEntity<'a>>(
        &'a self,
        entity: &mut E,
        response: &HttpResponse,
        expected: u16,
    ) -> (r: Result<(), Error>)
        ensures
            match r {
                Ok(_) => response.status == expected && (E::decode_spec(
                    response.body@,
                ) matches Some(s) && s.len() > 0 && *final(entity) == s.last().with_session(self)
                    && final(entity).spec_session() == Some(self) && same_payload(
                    *final(entity),
                    s.last(),
                )),
                Err(e) => *final(entity) == *old(entity) && single_failure::<E>(
                    e,
                    *response,
                    expected,
                ),
            },
    {
        if response.status != expected {
            return Err(
                Error::RequestFailed { status: response.status, body: response.body.clone() },
            );
        }
        let mut entities = match E::decode_list(response.body.as_str()) {
            Ok(v) => v,
            Err(e) => return Err(e),
        };
        match entities.pop() {
            Some(last) => {
                *entity = last;
                entity.set_session(self);
                Ok(())
            },
            None => Err(Error::NoEntity),
        }
    }

    /// Apply the response of a fetch: hydrate the entity from the last
    /// element of the decoded list and bind it to this session.
    pub fn fetch_entity<'a, E: RestEntity<'a>>(
        &'a self,
        entity: &mut E,
        response: &HttpResponse,
    ) -> (r: Result<(), Error>)
        ensures
            match r {
                Ok(_) => response.status == 200 && (E::decode_spec(
                    response.body@,
                ) matches Some(s) && s.len() > 0 && *final(entity) == s.last().with_session(self)
                    && final(entity).spec_session() == Some(self) && same_payload(
                    *final(entity),
                    s.last(),
                )),
                Err(e) => *final(entity) == *old(entity) && single_failure::<E>(e, *response, 200),
            },
    {
        self.hydrate_single(entity, response, expected_status(Method::Get))
    }

    /// Apply the response of a save: hydrate the entity from the server's
    /// canonical post-update state and bind it to this session.
    pub fn save<'a, E: RestEntity<'a>>(&'a self, entity: &mut E, response: &HttpResponse) -> (r:
        Result<(), Error>)
        ensures
            match r {
                Ok(_) => response.status == 200 && (E::decode_spec(
                    response.body@,
                ) matches Some(s) && s.len() > 0 && *final(entity) == s.last().with_session(self)
                    && final(entity).spec_session() == Some(self) && same_payload(
                    *final(entity),
                    s.last(),
                )),
                Err(e) => *final(entity) == *old(entity) && single_failure::<E>(e, *response, 200),
            },
    {
        self.hydrate_single(entity, response, expected_status(Method::Put))
    }

    /// Apply the response of a creation: hydrate the child with the
    /// server-assigned identifier and other server-computed fields, and bind
    /// it to this session.
    pub fn create_child<'a, C: RestEntity<'a>>(&'a self, child: &mut C, response: &HttpResponse) -> (r:
        Result<(), Error>)
        ensures
            match r {
                Ok(_) => response.status == 201 && (C::decode_spec(
                    response.body@,
                ) matches Some(s) && s.len() > 0 && *final(child) == s.last().with_session(self)
                    && final(child).spec_session() == Some(self) && same_payload(
                    *final(child),
                    s.last(),
                )),
                Err(e) => *final(child) == *old(child) && single_failure::<C>(e, *response, 201),
            },
    {
        self.hydrate_single(child, response, expected_status(Method::Post))
    }

    /// Apply the response of a deletion. The entity is consumed: after a
    /// deletion no further operation on it is valid, whatever the server
    /// answered. No body is expected.
    pub fn delete<'a, E: RestEntity<'a>>(&self, entity: E, response: &HttpResponse) -> (r: Result<
        (),
        Error,
    >)
        ensures
            match r {
                Ok(_) => response.status == 204,
                Err(e) => response.status != 204 && (e matches Error::RequestFailed {
                    status,
                    body,
                } && status == response.status && body@ == response.body@),
            },
    {
        let _ = entity;
        if response.status != expected_status(Method::Delete) {
            return Err(
                Error::RequestFailed { status: response.status, body: response.body.clone() },
            );
        }
        Ok(())
    }

    /// Apply the response of a children listing: decode the full list (every
    /// element is a distinct child here, unlike single-entity hydration),
    /// replace the prior contents of `children` with it, and bind every
    /// element to this session.
    pub fn fetch_children<'a, C: RestEntity<'a>>(
        &'a self,
        children: &mut Vec<C>,
        response: &HttpResponse,
    ) -> (r: Result<(), Error>)
        ensures
            match r {
                Ok(_) => response.status == 200 && (C::decode_spec(
                    response.body@,
                ) matches Some(s) && final(children)@ == bound_all(s, self) && (forall|i: int|
                    0 <= i < final(children)@.len()
                        ==> #[trigger] final(children)@[i].spec_session() == Some(self)
                            && same_payload(final(children)@[i], s[i]))),
                Err(e) => *final(children) == *old(children) && list_failure::<C>(e, *response),
            },
    {
        if response.status != 200 {
            return Err(
                Error::RequestFailed { status: response.status, body: response.body.clone() },
            );
        }
        let mut decoded = match C::decode_list(response.body.as_str()) {
            Ok(v) => v,
            Err(e) => return Err(e),
        };
        let ghost s = decoded@;
        let mut out: Vec<C> = Vec::new();
        proof {
            assert(out@ =~= bound_all(s.take(0), self));
        }
        while decoded.len() > 0
            invariant
                out@.len() + decoded@.len() == s.len(),
                decoded@ =~= s.skip(out@.len() as int),
                out@ =~= bound_all(s.take(out@.len() as int), self),
                forall|i: int|
                    0 <= i < out@.len() ==> #[trigger] out@[i].spec_session() == Some(self)
                        && same_payload(out@[i], s[i]),
            decreases decoded@.len(),
        {
            let ghost k = out@.len() as int;
            let mut child = decoded.remove(0);
            proof {
                assert(child == s[k]);
                assert(decoded@ =~= s.skip(k + 1));
            }
            child.set_session(self);
            out.push(child);
            proof {
                assert(out@ =~= bound_all(s.take(k + 1), self));
            }
        }
        proof {
            assert(s.take(s.len() as int) =~= s);
            assert(out@ =~= bound_all(s, self));
        }
        *children = out;
        Ok(())
    }

    /// Apply the response of the bootstrap exchange: hydrate the root from
    /// the last element of the decoded list, store the API key it carries if
    /// the session does not hold one yet — from here on every request
    /// authenticates with that key, and no later bootstrap replaces it — and
    /// bind the root to this session.
    pub fn connect<'a, R: RestRootEntity<'a>>(
        &'a mut self,
        root: &mut R,
        response: &HttpResponse,
    ) -> (r: Result<(), Error>)
        ensures
            match r {
                Ok(_) => response.status == 200 && (R::decode_spec(
                    response.body@,
                ) matches Some(s) && s.len() > 0 && connect_updates(
                    *old(self),
                    *final(self),
                    s.last(),
                ) && *final(root) == s.last().with_session(final(self))
                    && (final(root).spec_session() matches Some(bound)
                        && *bound == *final(self)) && same_payload(*final(root), s.last())),
                Err(e) => *final(self) == *old(self) && *final(root) == *old(root)
                    && single_failure::<R>(e, *response, 200),
            },
    {
        if response.status != 200 {
            return Err(
                Error::RequestFailed { status: response.status, body: response.body.clone() },
            );
        }
        let mut entities = match R::decode_list(response.body.as_str()) {
            Ok(v) => v,
            Err(e) => return Err(e),
        };
        match entities.pop() {
            Some(last) => {
                *root = last;
                if self.api_key.is_none() {
                    self.api_key = match root.get_api_key() {
                        Some(k) => Some(k.to_owned()),
                        None => None,
                    };
                }
                root.set_session(self);
                Ok(())
            },
            None => Err(Error::NoEntity),
        }
    }
}

/// A non-root entity without an identifier has no entity URL: the
/// identifier-scoped operations (fetching, saving, deleting) therefore fail
/// with `MissingId` before any request is built.
pub proof fn lemma_missing_identifier<'a, E: RestEntity<'a>>(session: Session, entity: E)
    requires
        !entity.spec_is_root(),
        entity.spec_id() is None,
    ensures
        session.spec_entity_url(entity) is None,
{
}

/// Once the bootstrap exchange has taken an unauthenticated session to a
/// root carrying API key `key` and updated the session accordingly, the
/// credential of every header set built afterwards is `key`, whatever the
/// configured password.
pub proof fn lemma_connect_switches_credential<'a, R: RestRootEntity<'a>>(
    before: Session,
    after: Session,
    last: R,
    key: Seq<char>,
)
    requires
        before.api_key is None,
        connect_updates(before, after, last),
        last.spec_api_key() == Some(key),
    ensures
        after.spec_secret() == key,
{
}

/// The transition to API-key authentication happens exactly once and is
/// irreversible: a session that already holds key `key` keeps it across any
/// further successful bootstrap, whatever the hydrated root carries, and
/// keeps authenticating with it.
pub proof fn lemma_connect_is_irreversible<'a, R: RestRootEntity<'a>>(
    before: Session,
    after: Session,
    last: R,
    key: Seq<char>,
)
    requires
        connect_updates(before, after, last),
        opt_key_view(before.api_key) == Some(key),
    ensures
        opt_key_view(after.api_key) == Some(key),
        after.spec_secret() == key,
{
}

} // verus!
