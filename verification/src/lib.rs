//! Producer-side lifecycle core for a partitioned event-stream client.
//!
//! The client owns one transport connection, a per-path token cache, a
//! per-path sender-link pool and a single management link. Every decision —
//! when a connection must be opened, when a path must be authorized, when a
//! link must be attached, what a send carries — is made here over plain
//! values and is verified. The network work itself (AMQP opens, attaches,
//! token exchanges, sends) is performed by an unverified driver that asks
//! this core what to do next and reports each outcome back.

mod access_token;
mod batch;
mod client;
mod errors;
mod laws;
mod link_pool;
mod options;
mod outside;
mod token_cache;

pub use access_token::AccessToken;
pub use batch::total_size;
pub use batch::EventDataBatch;
pub use client::attach_request_matches;
pub use client::authorize_request_matches;
pub use client::client_id_matches;
pub use client::open_request_matches;
pub use client::properties_match;
pub use client::AttachRequest;
pub use client::AuthorizePlan;
pub use client::AuthorizeRequest;
pub use client::AuthorizeStep;
pub use client::ConnectionPlan;
pub use client::ConnectionState;
pub use client::ConnectionStep;
pub use client::ManagementAttachRequest;
pub use client::ManagementLinkHandles;
pub use client::ManagementPlan;
pub use client::ManagementStep;
pub use client::OpenRequest;
pub use client::ProducerClient;
pub use client::QueryRequest;
pub use client::SendRequest;
pub use client::SenderPlan;
pub use client::SenderStep;
pub use client::BATCH_MESSAGE_FORMAT;
pub use errors::ErrorKind;
pub use laws::lemma_attach_follows_authorize;
pub use laws::lemma_authorize_idempotent;
pub use laws::lemma_closed_client_refuses;
pub use laws::lemma_connection_opens_once;
pub use laws::lemma_distinct_paths_distinct_senders;
pub use laws::lemma_send_follows_attach;
pub use laws::lemma_sender_idempotent;
pub use laws::lemma_sender_isolation;
pub use laws::lemma_token_per_path_unique;
pub use laws::lemma_unopened_client_refuses;
pub use link_pool::LinkPool;
pub use link_pool::SenderEntry;
pub use link_pool::SenderLinkHandles;
pub use options::EventDataBatchOptions;
pub use options::ProducerClientOptions;
pub use options::RetryOptions;
pub use outside::url_ok;
pub use token_cache::TokenCache;
pub use token_cache::TokenEntry;
