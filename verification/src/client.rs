use vstd::prelude::*;
use vstd::string::StringExecFns;

use crate::access_token::AccessToken;
use crate::batch::EventDataBatch;
use crate::errors::ErrorKind;
use crate::link_pool::LinkPool;
use crate::link_pool::SenderLinkHandles;
use crate::options::EventDataBatchOptions;
use crate::options::ProducerClientOptions;
use crate::outside::generated_client_id;
use crate::outside::parse_url_ok;
use crate::outside::url_ok;
use crate::token_cache::TokenCache;

verus! {

/// Format tag carried by every batch send, distinguishing batch-of-events
/// framing from single-event framing at the transport layer.
pub const BATCH_MESSAGE_FORMAT: u32 = 0x80013700;

/// The life of the one connection a client may ever hold.
#[derive(Clone, Copy, Debug, PartialEq, Eq, Structural)]
pub enum ConnectionState {
    /// Never opened (or the last open attempt failed and left the cell
    /// empty, so a later attempt may retry).
    NotOpened,
    /// The single connection is open, under this name.
    Opened { handle: u64 },
    /// The connection was closed. Closing is terminal: the client refuses
    /// every further operation.
    Closed,
}

/// The resource names behind the one management link: its hosting session
/// and the attached management endpoint.
#[derive(Clone, Copy, Debug, PartialEq, Eq, Structural)]
pub struct ManagementLinkHandles {
    pub session: u64,
    pub link: u64,
}

/// Everything the driver needs to open the connection: the endpoint, the
/// client identity, and the properties negotiated once at open time.
#[derive(Clone, Debug)]
pub struct OpenRequest {
    pub url: String,
    pub client_id: String,
    pub properties: Vec<(String, String)>,
}

/// What ensuring the connection requires: nothing (it is already open), or
/// one transport open.
#[derive(Clone, Debug)]
pub enum ConnectionPlan {
    AlreadyOpen { handle: u64 },
    Open(OpenRequest),
}

/// Everything the driver needs to authorize one path: the path the token
/// will be bound to, and the fixed resource scope requested from the
/// credential collaborator.
#[derive(Clone, Debug)]
pub struct AuthorizeRequest {
    pub path: String,
    pub scope: String,
}

/// What authorizing a path requires: nothing (a token is cached), or one
/// claims handshake on an ephemeral session.
#[derive(Clone, Debug)]
pub enum AuthorizePlan {
    Cached(AccessToken),
    Acquire(AuthorizeRequest),
}

/// Everything the driver needs to attach one sender link: destination,
/// link name, message-size bound and the session flow-control windows.
#[derive(Clone, Debug)]
pub struct AttachRequest {
    pub path: String,
    pub sender_name: String,
    pub max_message_size: u64,
    pub incoming_window: u32,
    pub outgoing_window: u32,
}

/// The next step towards a usable sender for a path. The driver repeats
/// `plan_sender` after completing each step until it holds an existing pair.
#[derive(Clone, Debug)]
pub enum SenderPlan {
    Existing(SenderLinkHandles),
    NeedConnection(OpenRequest),
    NeedAuthorization(AuthorizeRequest),
    Attach(AttachRequest),
}

/// One batch transmission: which sender carries it and the envelope format
/// tag it is framed with. The messages themselves stay with the batch.
#[derive(Clone, Copy, Debug, PartialEq, Eq, Structural)]
pub struct SendRequest {
    pub sender: u64,
    pub message_format: u32,
}

/// Everything the driver needs to attach the management link.
#[derive(Clone, Debug)]
pub struct ManagementAttachRequest {
    pub management_path: String,
    pub node_name: String,
}

/// The next step towards a usable management link.
#[derive(Clone, Debug)]
pub enum ManagementPlan {
    AlreadyAttached(ManagementLinkHandles),
    NeedAuthorization(AuthorizeRequest),
    Attach(ManagementAttachRequest),
}

/// One property query through the management link: for the whole entity
/// when `partition_id` is absent, for one partition when present.
#[derive(Clone, Debug)]
pub struct QueryRequest {
    pub link: u64,
    pub eventhub: String,
    pub partition_id: Option<String>,
}

/// The decision behind a connection plan, shorn of the request payload.
pub enum ConnectionStep {
    Reuse(u64),
    Open,
}

/// The decision behind an authorization plan.
pub enum AuthorizeStep {
    UseCached(AccessToken),
    AcquireToken,
}

/// The decision behind a sender plan.
pub enum SenderStep {
    Reuse(SenderLinkHandles),
    OpenFirst,
    AuthorizeFirst,
    AttachLink,
}

/// The decision behind a management plan.
pub enum ManagementStep {
    Reuse(ManagementLinkHandles),
    AuthorizeFirst,
    AttachLink,
}

/// Whether `id` is an identity this configuration allows: the configured
/// application id, or a generated unique id (36 characters) when none is
/// configured.
pub open spec fn client_id_matches(opts: ProducerClientOptions, id: Seq<char>) -> bool {
    match opts.application_id {
        Some(s) => id == s@,
        None => id.len() == 36,
    }
}

/// The four connection properties negotiated once at open time.
pub open spec fn properties_match(opts: ProducerClientOptions, props: Seq<(String, String)>) -> bool {
    &&& props.len() == 4
    &&& props[0].0@ == "user-agent"@
    &&& (match opts.application_id {
        Some(s) => props[0].1@ == s@,
        None => props[0].1@ == "eventhubs_producer"@,
    })
    &&& props[1].0@ == "version"@
    &&& props[1].1@ == "0.1.0"@
    &&& props[2].0@ == "platform"@
    &&& props[2].1@ == "rust"@
    &&& props[3].0@ == "product"@
    &&& props[3].1@ == "eventhubs_producer"@
}

/// What a well-formed open request holds for `url` under `opts`.
pub open spec fn open_request_matches(
    opts: ProducerClientOptions,
    url: Seq<char>,
    req: OpenRequest,
) -> bool {
    &&& req.url@ == url
    &&& client_id_matches(opts, req.client_id@)
    &&& properties_match(opts, req.properties@)
}

/// What a well-formed authorization request holds for `path`: the token is
/// requested for one fixed resource scope whatever the path, then bound to
/// the path by the claims handshake.
pub open spec fn authorize_request_matches(path: Seq<char>, req: AuthorizeRequest) -> bool {
    &&& req.path@ == path
    &&& req.scope@ == "https://eventhubs.azure.net/.default"@
}

/// What a well-formed sender attach request holds for `path` under `opts`:
/// the link is named from the application id (or a default), bounded by the
/// configured maximum message size (or unbounded), on a session with
/// maximal flow-control windows.
pub open spec fn attach_request_matches(
    opts: ProducerClientOptions,
    path: Seq<char>,
    req: AttachRequest,
) -> bool {
    &&& req.path@ == path
    &&& (match opts.application_id {
        Some(s) => req.sender_name@ == s@ + "-rust-sender"@,
        None => req.sender_name@ == "DefaultApplicationName"@ + "-rust-sender"@,
    })
    &&& req.max_message_size == (match opts.max_message_size {
        Some(m) => m,
        None => u64::MAX,
    })
    &&& req.incoming_window == u32::MAX
    &&& req.outgoing_window == u32::MAX
}

/// Builds an authorization request for `path`.
fn authorize_request(path: &str) -> (r: AuthorizeRequest)
    ensures
        authorize_request_matches(path@, r),
{
    AuthorizeRequest {
        path: path.to_owned(),
        scope: String::from_str("https://eventhubs.azure.net/.default"),
    }
}

/// The producer-side lifecycle coordinator. It owns the write-once
/// connection cell, the per-path token cache, the per-path sender pool and
/// the management-link cell, and decides every step of their creation
/// protocols. The unverified driver performs each planned network operation
/// and reports success back through the matching `complete_*` call; a step
/// whose outcome is never reported leaves no trace here, so a failed
/// creation leaves no partial cache entry behind.
#[derive(Debug)]
pub struct ProducerClient {
    /// The entity's base endpoint, `amqps://<namespace>/<eventhub>`.
    pub url: String,
    /// The entity name, used by property queries.
    pub eventhub: String,
    /// The configuration the client was created with.
    pub options: ProducerClientOptions,
    /// The write-once connection cell.
    pub connection: ConnectionState,
    /// One cached credential per authorized path.
    pub tokens: TokenCache,
    /// One cached (session, sender) pair per destination path.
    pub senders: LinkPool,
    /// The write-once management-link cell.
    pub management: Option<ManagementLinkHandles>,
    /// Source of fresh resource names; every name handed out so far is
    /// smaller.
    pub next_handle: u64,
}

impl ProducerClient {
    /// Every resource name stored is smaller than `next_handle`, so newly
    /// assigned names never collide with stored ones.
    pub open spec fn handles_bounded(&self) -> bool {
        &&& (self.connection matches ConnectionState::Opened { handle } ==> handle
            < self.next_handle)
        &&& (forall|k: Seq<char>| #[trigger]
            self.senders@.contains_key(k) ==> self.senders@[k].session < self.next_handle
                && self.senders@[k].sender < self.next_handle)
        &&& (self.management matches Some(m) ==> m.session < self.next_handle && m.link
            < self.next_handle)
    }

    /// Different paths hold different senders, so locking one path's sender
    /// never touches another path's.
    pub open spec fn sender_handles_distinct(&self) -> bool {
        forall|k1: Seq<char>, k2: Seq<char>|
            #![trigger self.senders@.contains_key(k1), self.senders@.contains_key(k2)]
            self.senders@.contains_key(k1) && self.senders@.contains_key(k2) && k1 != k2
                ==> self.senders@[k1].sender != self.senders@[k2].sender
    }

    /// The client invariant: well-formed caches; derived resources (sender
    /// links, the management link) exist only while the connection is open;
    /// resource names are fresh and senders pairwise distinct.
    pub open spec fn wf(&self) -> bool {
        &&& self.tokens.wf()
        &&& self.senders.wf()
        &&& (!(self.connection is Opened) ==> self.senders@ =~= Map::<
            Seq<char>,
            SenderLinkHandles,
        >::empty() && self.management is None)
        &&& self.handles_bounded()
        &&& self.sender_handles_distinct()
    }

    /// The management path: the entity path with `/$management` appended.
    pub open spec fn management_path_spec(&self) -> Seq<char> {
        self.url@ + "/$management"@
    }

    /// What ensuring the connection against `url` decides: reuse the open
    /// connection whatever the url asked for, refuse after close, refuse a
    /// malformed url, otherwise open.
    pub open spec fn connection_decision(&self, url: Seq<char>) -> Result<ConnectionStep, ErrorKind> {
        match self.connection {
            ConnectionState::Opened { handle } => Ok(ConnectionStep::Reuse(handle)),
            ConnectionState::Closed => Err(ErrorKind::MissingConnection),
            ConnectionState::NotOpened => if url_ok(url) {
                Ok(ConnectionStep::Open)
            } else {
                Err(ErrorKind::InvalidUrl)
            },
        }
    }

    /// What authorizing `path` decides: an open connection is required even
    /// for a cache hit; a cached token is returned as is; otherwise one
    /// token acquisition is needed.
    pub open spec fn authorize_decision(&self, path: Seq<char>) -> Result<AuthorizeStep, ErrorKind> {
        if !(self.connection is Opened) {
            Err(ErrorKind::MissingConnection)
        } else if self.tokens@.contains_key(path) {
            Ok(AuthorizeStep::UseCached(self.tokens@[path]))
        } else {
            Ok(AuthorizeStep::AcquireToken)
        }
    }

    /// What obtaining a sender for `path` decides: a cached pair is reused
    /// with no further work; otherwise the connection comes first (opened
    /// against `path` itself if none exists yet), then authorization of
    /// `path`, then one link attach.
    pub open spec fn sender_decision(&self, path: Seq<char>) -> Result<SenderStep, ErrorKind> {
        if self.senders@.contains_key(path) {
            Ok(SenderStep::Reuse(self.senders@[path]))
        } else {
            match self.connection {
                ConnectionState::Closed => Err(ErrorKind::MissingConnection),
                ConnectionState::NotOpened => if url_ok(path) {
                    Ok(SenderStep::OpenFirst)
                } else {
                    Err(ErrorKind::InvalidUrl)
                },
                ConnectionState::Opened { .. } => if !self.tokens@.contains_key(path) {
                    Ok(SenderStep::AuthorizeFirst)
                } else {
                    Ok(SenderStep::AttachLink)
                },
            }
        }
    }

    /// What submitting a batch for `path` decides: an open connection and an
    /// attached sender are required; the send then carries the fixed batch
    /// envelope format tag through that path's sender.
    pub open spec fn submit_decision(&self, path: Seq<char>) -> Result<SendRequest, ErrorKind> {
        if !(self.connection is Opened) {
            Err(ErrorKind::MissingConnection)
        } else if !self.senders@.contains_key(path) {
            Err(ErrorKind::MissingSenderLink)
        } else {
            Ok(
                SendRequest {
                    sender: self.senders@[path].sender,
                    message_format: BATCH_MESSAGE_FORMAT,
                },
            )
        }
    }

    /// What ensuring the management link decides: an existing link is
    /// reused; otherwise an open connection is required, then authorization
    /// of the management path, then one attach.
    pub open spec fn management_decision(&self) -> Result<ManagementStep, ErrorKind> {
        match self.management {
            Some(m) => Ok(ManagementStep::Reuse(m)),
            None => if !(self.connection is Opened) {
                Err(ErrorKind::MissingConnection)
            } else if !self.tokens@.contains_key(self.management_path_spec()) {
                Ok(ManagementStep::AuthorizeFirst)
            } else {
                Ok(ManagementStep::AttachLink)
            },
        }
    }

    /// What a property query decides: an open connection and an attached
    /// management link are required.
    pub open spec fn query_decision(&self) -> Result<u64, ErrorKind> {
        if !(self.connection is Opened) {
            Err(ErrorKind::MissingConnection)
        } else {
            match self.management {
                Some(m) => Ok(m.link),
                None => Err(ErrorKind::MissingManagementLink),
            }
        }
    }

    /// What closing decides: the open connection is closed; a client that
    /// never opened (or already closed) has no connection to close.
    pub open spec fn close_decision(&self) -> Result<u64, ErrorKind> {
        match self.connection {
            ConnectionState::Opened { handle } => Ok(handle),
            _ => Err(ErrorKind::MissingConnection),
        }
    }

    /// Creates a client for one entity: the base endpoint is
    /// `amqps://<namespace>/<eventhub>`, every cache starts empty, and no
    /// connection exists until the first open.
    pub fn new(
        fully_qualified_namespace: String,
        eventhub: String,
        options: Option<ProducerClientOptions>,
    ) -> (r: ProducerClient)
        ensures
            r.wf(),
            r.url@ == "amqps://"@ + fully_qualified_namespace@ + "/"@ + eventhub@,
            r.eventhub == eventhub,
            (match options {
                Some(o) => r.options == o,
                None => r.options.application_id is None && r.options.retry_options is None
                    && r.options.max_message_size is None,
            }),
            r.connection is NotOpened,
            r.tokens@ =~= Map::<Seq<char>, AccessToken>::empty(),
            r.senders@ =~= Map::<Seq<char>, SenderLinkHandles>::empty(),
            r.management is None,
            r.next_handle == 0,
    {
        let url = String::from_str("amqps://").concat(fully_qualified_namespace.as_str()).concat(
            "/",
        ).concat(eventhub.as_str());
        let options = match options {
            Some(o) => o,
            None => ProducerClientOptions::default(),
        };
        ProducerClient {
            url,
            eventhub,
            options,
            connection: ConnectionState::NotOpened,
            tokens: TokenCache::new(),
            senders: LinkPool::new(),
            management: None,
            next_handle: 0,
        }
    }

    /// The entity's base endpoint.
    pub fn base_url(&self) -> (r: String)
        ensures
            r@ == self.url@,
    {
        self.url.clone()
    }

    /// Creates an empty batch. Its destination is the entity's base
    /// endpoint, or one partition's sub-path when the options pin a
    /// partition; its size bound is the options' own, else the client's
    /// configured message-size bound, else unbounded. Link attachment is
    /// not the batch's concern: it happens on first submission to the
    /// batch's path.
    pub fn create_batch(&self, batch_options: Option<EventDataBatchOptions>) -> (r: EventDataBatch)
        ensures
            r.wf(),
            r.messages@.len() == 0,
            r.size_in_bytes == 0,
            r.path@ == (match batch_options {
                Some(o) => match o.partition_id {
                    Some(p) => self.url@ + "/Partitions/"@ + p@,
                    None => self.url@,
                },
                None => self.url@,
            }),
            r.max_size_in_bytes == (match batch_options {
                Some(o) => match o.max_size_in_bytes {
                    Some(m) => m,
                    None => (match self.options.max_message_size {
                        Some(m) => m,
                        None => u64::MAX,
                    }),
                },
                None => (match self.options.max_message_size {
                    Some(m) => m,
                    None => u64::MAX,
                }),
            }),
    {
        let opts = match batch_options {
            Some(o) => o,
            None => EventDataBatchOptions::default(),
        };
        let path = match opts.partition_id {
            Some(p) => self.url.clone().concat("/Partitions/").concat(p.as_str()),
            None => self.url.clone(),
        };
        let max_size = match opts.max_size_in_bytes {
            Some(m) => m,
            None => match self.options.max_message_size {
                Some(m) => m,
                None => u64::MAX,
            },
        };
        EventDataBatch::new(path, max_size)
    }

    /// The management path as a value: the endpoint with `/$management`
    /// appended.
    pub fn management_path(&self) -> (r: String)
        ensures
            r@ == self.management_path_spec(),
    {
        self.url.clone().concat("/$management")
    }

    /// The client identity used at open time: the configured application id,
    /// or a freshly generated unique id.
    fn client_id(&self) -> (r: String)
        ensures
            client_id_matches(self.options, r@),
    {
        match &self.options.application_id {
            Some(id) => id.clone(),
            None => generated_client_id(),
        }
    }

    /// The connection properties attached once at open time and never
    /// renegotiated.
    fn connection_properties(&self) -> (r: Vec<(String, String)>)
        ensures
            properties_match(self.options, r@),
    {
        let user_agent = match &self.options.application_id {
            Some(id) => id.clone(),
            None => String::from_str("eventhubs_producer"),
        };
        let mut v: Vec<(String, String)> = Vec::new();
        v.push((String::from_str("user-agent"), user_agent));
        v.push((String::from_str("version"), String::from_str("0.1.0")));
        v.push((String::from_str("platform"), String::from_str("rust")));
        v.push((String::from_str("product"), String::from_str("eventhubs_producer")));
        v
    }

    /// Builds the open request for `url`.
    fn open_request(&self, url: &str) -> (r: OpenRequest)
        ensures
            open_request_matches(self.options, url@, r),
    {
        OpenRequest {
            url: url.to_owned(),
            client_id: self.client_id(),
            properties: self.connection_properties(),
        }
    }

    /// The sender link name, derived from the application id or a default.
    fn sender_name(&self) -> (r: String)
        ensures
            (match self.options.application_id {
                Some(s) => r@ == s@ + "-rust-sender"@,
                None => r@ == "DefaultApplicationName"@ + "-rust-sender"@,
            }),
    {
        match &self.options.application_id {
            Some(id) => id.clone().concat("-rust-sender"),
            None => String::from_str("DefaultApplicationName").concat("-rust-sender"),
        }
    }

    /// Builds the sender attach request for `path`.
    fn attach_request(&self, path: &str) -> (r: AttachRequest)
        ensures
            attach_request_matches(self.options, path@, r),
    {
        AttachRequest {
            path: path.to_owned(),
            sender_name: self.sender_name(),
            max_message_size: match self.options.max_message_size {
                Some(m) => m,
                None => u64::MAX,
            },
            incoming_window: u32::MAX,
            outgoing_window: u32::MAX,
        }
    }

    /// Decides what ensuring the connection against `url` needs. An open
    /// connection is reused whatever `url` asks for; a closed client
    /// refuses; otherwise the driver is handed one open request, and
    /// reports a successful open through `complete_open`.
    pub fn plan_ensure_connection(&self, url: &str) -> (r: Result<ConnectionPlan, ErrorKind>)
        requires
            self.wf(),
        ensures
            match r {
                Ok(plan) => match plan {
                    ConnectionPlan::AlreadyOpen { handle } => self.connection_decision(url@)
                        == Ok::<ConnectionStep, ErrorKind>(ConnectionStep::Reuse(handle)),
                    ConnectionPlan::Open(req) => self.connection_decision(url@) == Ok::<ConnectionStep, ErrorKind>(ConnectionStep::Open) && open_request_matches(self.options, url@, req),
                },
                Err(e) => self.connection_decision(url@) == Err::<ConnectionStep, ErrorKind>(e),
            },
    {
        match self.connection {
            ConnectionState::Opened { handle } => Ok(ConnectionPlan::AlreadyOpen { handle }),
            ConnectionState::Closed => Err(ErrorKind::MissingConnection),
            ConnectionState::NotOpened => {
                if parse_url_ok(url) {
                    Ok(ConnectionPlan::Open(self.open_request(url)))
                } else {
                    Err(ErrorKind::InvalidUrl)
                }
            },
        }
    }

    /// Decides what opening the client needs: ensuring the connection
    /// against the entity's own base endpoint.
    pub fn plan_open(&self) -> (r: Result<ConnectionPlan, ErrorKind>)
        requires
            self.wf(),
        ensures
            match r {
                Ok(plan) => match plan {
                    ConnectionPlan::AlreadyOpen { handle } => self.connection_decision(self.url@)
                        == Ok::<ConnectionStep, ErrorKind>(ConnectionStep::Reuse(handle)),
                    ConnectionPlan::Open(req) => self.connection_decision(self.url@) == Ok::<ConnectionStep, ErrorKind>(ConnectionStep::Open) && open_request_matches(self.options, self.url@, req),
                },
                Err(e) => self.connection_decision(self.url@) == Err::<ConnectionStep, ErrorKind>(
                    e,
                ),
            },
    {
        self.plan_ensure_connection(self.url.as_str())
    }

    /// Records the one successful transport open. Exactly one open can ever
    /// be recorded: a second report, or one after close, is refused and
    /// changes nothing. A failed open is simply never reported, which
    /// leaves the cell empty for a retry.
    pub fn complete_open(&mut self) -> (r: Result<u64, ErrorKind>)
        requires
            old(self).wf(),
            old(self).next_handle < u64::MAX,
        ensures
            final(self).wf(),
            final(self).url == old(self).url,
            final(self).eventhub == old(self).eventhub,
            final(self).options == old(self).options,
            final(self).tokens@ == old(self).tokens@,
            final(self).senders@ == old(self).senders@,
            final(self).management == old(self).management,
            match r {
                Ok(handle) => old(self).connection is NotOpened && handle == old(self).next_handle
                    && final(self).connection == (ConnectionState::Opened { handle })
                    && final(self).next_handle == old(self).next_handle + 1,
                Err(e) => e == ErrorKind::MissingConnection && !(old(self).connection is NotOpened)
                    && *final(self) == *old(self),
            },
    {
        match self.connection {
            ConnectionState::NotOpened => {
                let handle = self.next_handle;
                self.next_handle = self.next_handle + 1;
                self.connection = ConnectionState::Opened { handle };
                Ok(handle)
            },
            _ => Err(ErrorKind::MissingConnection),
        }
    }

    /// Decides what authorizing `path` needs. A cached token is returned
    /// without re-running the claims handshake; otherwise the driver is
    /// handed one acquisition request (ephemeral session, claims attach,
    /// token fetch for the fixed scope, claim submission for `path`) and
    /// reports the resulting token through `complete_authorize`.
    pub fn plan_authorize(&self, path: &str) -> (r: Result<AuthorizePlan, ErrorKind>)
        requires
            self.wf(),
        ensures
            match r {
                Ok(plan) => match plan {
                    AuthorizePlan::Cached(t) => self.authorize_decision(path@) == Ok::<AuthorizeStep, ErrorKind>(AuthorizeStep::UseCached(t)),
                    AuthorizePlan::Acquire(req) => self.authorize_decision(path@) == Ok::<AuthorizeStep, ErrorKind>(AuthorizeStep::AcquireToken) && authorize_request_matches(path@, req),
                },
                Err(e) => self.authorize_decision(path@) == Err::<AuthorizeStep, ErrorKind>(e),
            },
    {
        match self.connection {
            ConnectionState::Opened { .. } => {
                match self.tokens.get(path) {
                    Some(t) => Ok(AuthorizePlan::Cached(t.duplicate())),
                    None => Ok(AuthorizePlan::Acquire(authorize_request(path))),
                }
            },
            _ => Err(ErrorKind::MissingConnection),
        }
    }

    /// Records one acquired token for `path`, first writer wins: if an
    /// entry raced in since the plan was made, the report is refused rather
    /// than overwriting, and the cache is unchanged.
    pub fn complete_authorize(&mut self, path: &str, token: AccessToken) -> (r: Result<
        AccessToken,
        ErrorKind,
    >)
        requires
            old(self).wf(),
        ensures
            final(self).wf(),
            final(self).url == old(self).url,
            final(self).eventhub == old(self).eventhub,
            final(self).options == old(self).options,
            final(self).connection == old(self).connection,
            final(self).senders@ == old(self).senders@,
            final(self).management == old(self).management,
            final(self).next_handle == old(self).next_handle,
            match r {
                Ok(t) => old(self).connection is Opened && !old(self).tokens@.contains_key(path@)
                    && t == token && final(self).tokens@ == old(self).tokens@.insert(path@, token),
                Err(e) => final(self).tokens@ == old(self).tokens@
                    && ((e == ErrorKind::MissingConnection && !(old(self).connection is Opened))
                        || (e == ErrorKind::AuthorizationFailed
                            && old(self).connection is Opened
                            && old(self).tokens@.contains_key(path@))),
            },
    {
        match self.connection {
            ConnectionState::Opened { .. } => {
                let result = token.duplicate();
                if self.tokens.try_insert(path, token) {
                    Ok(result)
                } else {
                    Err(ErrorKind::AuthorizationFailed)
                }
            },
            _ => Err(ErrorKind::MissingConnection),
        }
    }

    /// Decides the next step towards a usable sender for `path`: reuse the
    /// cached pair, or first open the connection (against `path` itself if
    /// none exists yet), or first authorize `path`, or attach one link and
    /// report it through `complete_sender`.
    pub fn plan_sender(&self, path: &str) -> (r: Result<SenderPlan, ErrorKind>)
        requires
            self.wf(),
        ensures
            match r {
                Ok(plan) => match plan {
                    SenderPlan::Existing(h) => self.sender_decision(path@) == Ok::<SenderStep, ErrorKind>(SenderStep::Reuse(h)),
                    SenderPlan::NeedConnection(req) => self.sender_decision(path@) == Ok::<SenderStep, ErrorKind>(SenderStep::OpenFirst) && open_request_matches(self.options, path@, req),
                    SenderPlan::NeedAuthorization(req) => self.sender_decision(path@) == Ok::<SenderStep, ErrorKind>(SenderStep::AuthorizeFirst) && authorize_request_matches(path@, req),
                    SenderPlan::Attach(req) => self.sender_decision(path@) == Ok::<SenderStep, ErrorKind>(SenderStep::AttachLink) && attach_request_matches(self.options, path@, req),
                },
                Err(e) => self.sender_decision(path@) == Err::<SenderStep, ErrorKind>(e),
            },
    {
        match self.senders.get(path) {
            Some(h) => Ok(SenderPlan::Existing(h)),
            None => match self.connection {
                ConnectionState::Closed => Err(ErrorKind::MissingConnection),
                ConnectionState::NotOpened => {
                    if parse_url_ok(path) {
                        Ok(SenderPlan::NeedConnection(self.open_request(path)))
                    } else {
                        Err(ErrorKind::InvalidUrl)
                    }
                },
                ConnectionState::Opened { .. } => {
                    if !self.tokens.contains(path) {
                        Ok(SenderPlan::NeedAuthorization(authorize_request(path)))
                    } else {
                        Ok(SenderPlan::Attach(self.attach_request(path)))
                    }
                },
            },
        }
    }

    /// Records one attached sender for `path` and hands out its fresh
    /// resource pair. The connection must be open and `path` authorized:
    /// attachment strictly follows authorization. If a pair for `path`
    /// raced in since the plan was made, the single stored pair is returned
    /// and the pool is unchanged, so no two callers ever observe two
    /// different senders for one path.
    pub fn complete_sender(&mut self, path: &str) -> (r: Result<SenderLinkHandles, ErrorKind>)
        requires
            old(self).wf(),
            old(self).next_handle < u64::MAX - 1,
        ensures
            final(self).wf(),
            final(self).url == old(self).url,
            final(self).eventhub == old(self).eventhub,
            final(self).options == old(self).options,
            final(self).connection == old(self).connection,
            final(self).tokens@ == old(self).tokens@,
            final(self).management == old(self).management,
            match r {
                Ok(h) => old(self).connection is Opened
                    && (if old(self).senders@.contains_key(path@) {
                        h == old(self).senders@[path@] && *final(self) == *old(self)
                    } else {
                        old(self).tokens@.contains_key(path@)
                            && h == (SenderLinkHandles {
                                session: old(self).next_handle,
                                sender: (old(self).next_handle + 1) as u64,
                            })
                            && final(self).senders@ == old(self).senders@.insert(path@, h)
                            && final(self).next_handle == old(self).next_handle + 2
                    }),
                Err(e) => *final(self) == *old(self)
                    && ((e == ErrorKind::MissingConnection && !(old(self).connection is Opened))
                        || (e == ErrorKind::AuthorizationFailed
                            && old(self).connection is Opened
                            && !old(self).senders@.contains_key(path@)
                            && !old(self).tokens@.contains_key(path@))),
            },
    {
        match self.connection {
            ConnectionState::Opened { .. } => {
                match self.senders.get(path) {
                    Some(h) => Ok(h),
                    None => {
                        if self.tokens.contains(path) {
                            let h = SenderLinkHandles {
                                session: self.next_handle,
                                sender: self.next_handle + 1,
                            };
                            self.next_handle = self.next_handle + 2;
                            let inserted = self.senders.try_insert(path, h);
                            proof {
                                assert(inserted);
                                self.lemma_sender_insert_wf(*old(self), path@, h);
                            }
                            Ok(h)
                        } else {
                            Err(ErrorKind::AuthorizationFailed)
                        }
                    },
                }
            },
            _ => Err(ErrorKind::MissingConnection),
        }
    }

    /// After inserting a fresh pair for an absent path and advancing the
    /// name source past it, the client invariant still holds.
    proof fn lemma_sender_insert_wf(&self, prev: ProducerClient, path: Seq<char>, h: SenderLinkHandles)
        requires
            prev.wf(),
            prev.connection is Opened,
            !prev.senders@.contains_key(path),
            h.session == prev.next_handle,
            h.sender == prev.next_handle + 1,
            prev.next_handle < u64::MAX - 1,
            self.senders@ == prev.senders@.insert(path, h),
            self.senders.wf(),
            self.next_handle == prev.next_handle + 2,
            self.connection == prev.connection,
            self.tokens == prev.tokens,
            self.management == prev.management,
        ensures
            self.wf(),
    {
        assert forall|k: Seq<char>| #[trigger]
            self.senders@.contains_key(k) implies self.senders@[k].session < self.next_handle
            && self.senders@[k].sender < self.next_handle by {
            if k != path {
                assert(prev.senders@.contains_key(k));
            }
        }
        assert forall|k1: Seq<char>, k2: Seq<char>|
            self.senders@.contains_key(k1) && self.senders@.contains_key(k2) && k1
                != k2 implies self.senders@[k1].sender != self.senders@[k2].sender by {
            if k1 == path {
                assert(prev.senders@.contains_key(k2));
            } else if k2 == path {
                assert(prev.senders@.contains_key(k1));
            } else {
                assert(prev.senders@.contains_key(k1));
                assert(prev.senders@.contains_key(k2));
            }
        }
    }

    /// Decides what submitting `batch` needs: an open connection and an
    /// attached sender for the batch's destination; the send then frames
    /// the batch's messages with the fixed batch envelope format tag. No
    /// network work is planned for a client with no open connection.
    pub fn plan_submit(&self, batch: &EventDataBatch) -> (r: Result<SendRequest, ErrorKind>)
        requires
            self.wf(),
        ensures
            r == self.submit_decision(batch.path@),
    {
        match self.connection {
            ConnectionState::Opened { .. } => {
                match self.senders.get(batch.get_batch_path()) {
                    Some(h) => Ok(
                        SendRequest { sender: h.sender, message_format: BATCH_MESSAGE_FORMAT },
                    ),
                    None => Err(ErrorKind::MissingSenderLink),
                }
            },
            _ => Err(ErrorKind::MissingConnection),
        }
    }

    /// Decides the next step towards a usable management link: reuse the
    /// attached one, or first authorize the management path, or attach the
    /// management endpoint and report it through `complete_management`.
    pub fn plan_management(&self) -> (r: Result<ManagementPlan, ErrorKind>)
        requires
            self.wf(),
        ensures
            match r {
                Ok(plan) => match plan {
                    ManagementPlan::AlreadyAttached(m) => self.management_decision() == Ok::<ManagementStep, ErrorKind>(ManagementStep::Reuse(m)),
                    ManagementPlan::NeedAuthorization(req) => self.management_decision() == Ok::<ManagementStep, ErrorKind>(ManagementStep::AuthorizeFirst) && authorize_request_matches(self.management_path_spec(), req),
                    ManagementPlan::Attach(req) => self.management_decision() == Ok::<ManagementStep, ErrorKind>(ManagementStep::AttachLink) && req.management_path@ == self.management_path_spec() && req.node_name@
                        == "eventhubs_management"@,
                },
                Err(e) => self.management_decision() == Err::<ManagementStep, ErrorKind>(e),
            },
    {
        match self.management {
            Some(m) => Ok(ManagementPlan::AlreadyAttached(m)),
            None => match self.connection {
                ConnectionState::Opened { .. } => {
                    let mpath = self.management_path();
                    if !self.tokens.contains(mpath.as_str()) {
                        Ok(ManagementPlan::NeedAuthorization(authorize_request(mpath.as_str())))
                    } else {
                        Ok(
                            ManagementPlan::Attach(
                                ManagementAttachRequest {
                                    management_path: mpath,
                                    node_name: String::from_str("eventhubs_management"),
                                },
                            ),
                        )
                    }
                },
                _ => Err(ErrorKind::MissingConnection),
            },
        }
    }

    /// Records the one attached management link. The connection must be
    /// open and the management path authorized. An already attached link is
    /// returned as is, so the cell is write-once.
    pub fn complete_management(&mut self) -> (r: Result<ManagementLinkHandles, ErrorKind>)
        requires
            old(self).wf(),
            old(self).next_handle < u64::MAX - 1,
        ensures
            final(self).wf(),
            final(self).url == old(self).url,
            final(self).eventhub == old(self).eventhub,
            final(self).options == old(self).options,
            final(self).connection == old(self).connection,
            final(self).tokens@ == old(self).tokens@,
            final(self).senders@ == old(self).senders@,
            match r {
                Ok(m) => (match old(self).management {
                    Some(existing) => m == existing && *final(self) == *old(self),
                    None => old(self).connection is Opened && old(self).tokens@.contains_key(
                        old(self).management_path_spec(),
                    ) && m == (ManagementLinkHandles {
                        session: old(self).next_handle,
                        link: (old(self).next_handle + 1) as u64,
                    })
                        && final(self).management == Some(m)
                        && final(self).next_handle == old(self).next_handle + 2,
                }),
                Err(e) => *final(self) == *old(self)
                    && old(self).management is None
                    && ((e == ErrorKind::MissingConnection && !(old(self).connection is Opened))
                        || (e == ErrorKind::AuthorizationFailed
                            && old(self).connection is Opened
                            && !old(self).tokens@.contains_key(old(self).management_path_spec()))),
            },
    {
        match self.management {
            Some(m) => Ok(m),
            None => match self.connection {
                ConnectionState::Opened { .. } => {
                    let mpath = self.management_path();
                    if self.tokens.contains(mpath.as_str()) {
                        let m = ManagementLinkHandles {
                            session: self.next_handle,
                            link: self.next_handle + 1,
                        };
                        self.next_handle = self.next_handle + 2;
                        self.management = Some(m);
                        Ok(m)
                    } else {
                        Err(ErrorKind::AuthorizationFailed)
                    }
                },
                _ => Err(ErrorKind::MissingConnection),
            },
        }
    }

    /// Decides what querying the entity's properties needs: the query runs
    /// through the attached management link for the entity by name.
    pub fn plan_get_eventhub_properties(&self) -> (r: Result<QueryRequest, ErrorKind>)
        requires
            self.wf(),
        ensures
            match r {
                Ok(q) => self.query_decision() == Ok::<u64, ErrorKind>(q.link) && q.eventhub@
                    == self.eventhub@ && q.partition_id is None,
                Err(e) => self.query_decision() == Err::<u64, ErrorKind>(e),
            },
    {
        match self.connection {
            ConnectionState::Opened { .. } => match self.management {
                Some(m) => Ok(
                    QueryRequest {
                        link: m.link,
                        eventhub: self.eventhub.clone(),
                        partition_id: None,
                    },
                ),
                None => Err(ErrorKind::MissingManagementLink),
            },
            _ => Err(ErrorKind::MissingConnection),
        }
    }

    /// Decides what querying one partition's properties needs.
    pub fn plan_get_partition_properties(&self, partition_id: &str) -> (r: Result<
        QueryRequest,
        ErrorKind,
    >)
        requires
            self.wf(),
        ensures
            match r {
                Ok(q) => self.query_decision() == Ok::<u64, ErrorKind>(q.link) && q.eventhub@
                    == self.eventhub@ && (q.partition_id matches Some(p) && p@ == partition_id@),
                Err(e) => self.query_decision() == Err::<u64, ErrorKind>(e),
            },
    {
        match self.connection {
            ConnectionState::Opened { .. } => match self.management {
                Some(m) => Ok(
                    QueryRequest {
                        link: m.link,
                        eventhub: self.eventhub.clone(),
                        partition_id: Some(partition_id.to_owned()),
                    },
                ),
                None => Err(ErrorKind::MissingManagementLink),
            },
            _ => Err(ErrorKind::MissingConnection),
        }
    }

    /// Decides what closing needs: the one open connection is closed, which
    /// tears down every derived session and link.
    pub fn plan_close(&self) -> (r: Result<u64, ErrorKind>)
        requires
            self.wf(),
        ensures
            r == self.close_decision(),
    {
        match self.connection {
            ConnectionState::Opened { handle } => Ok(handle),
            _ => Err(ErrorKind::MissingConnection),
        }
    }

    /// Records the close. Closing is terminal: the connection cell moves to
    /// its closed state, the sender pool and management link (whose
    /// lifetimes are tied to the connection) are dropped, and every later
    /// operation is refused for want of a connection.
    pub fn complete_close(&mut self) -> (r: Result<(), ErrorKind>)
        requires
            old(self).wf(),
        ensures
            final(self).wf(),
            final(self).url == old(self).url,
            final(self).eventhub == old(self).eventhub,
            final(self).options == old(self).options,
            final(self).tokens@ == old(self).tokens@,
            final(self).next_handle == old(self).next_handle,
            match r {
                Ok(_) => old(self).connection is Opened && final(self).connection is Closed
                    && final(self).senders@ =~= Map::<Seq<char>, SenderLinkHandles>::empty()
                    && final(self).management is None,
                Err(e) => e == ErrorKind::MissingConnection && !(old(self).connection is Opened)
                    && *final(self) == *old(self),
            },
    {
        match self.connection {
            ConnectionState::Opened { .. } => {
                self.connection = ConnectionState::Closed;
                self.senders.clear();
                self.management = None;
                Ok(())
            },
            _ => Err(ErrorKind::MissingConnection),
        }
    }
}

} // verus!
