use vstd::prelude::*;

use crate::client::AuthorizeStep;
use crate::client::ConnectionState;
use crate::client::ConnectionStep;
use crate::client::ManagementStep;
use crate::client::ProducerClient;
use crate::client::SendRequest;
use crate::client::SenderStep;
use crate::client::BATCH_MESSAGE_FORMAT;
use crate::errors::ErrorKind;
use crate::link_pool::SenderLinkHandles;
use crate::token_cache::TokenCache;

verus! {

/// One connection per client, observed by everyone: once the connection is
/// open under `handle`, ensuring it again plans no second open — whatever
/// endpoint the call asks for — and every caller observes that same handle.
pub proof fn lemma_connection_opens_once(
    c: ProducerClient,
    url1: Seq<char>,
    url2: Seq<char>,
    handle: u64,
)
    requires
        c.connection == (ConnectionState::Opened { handle }),
    ensures
        c.connection_decision(url1) == Ok::<ConnectionStep, ErrorKind>(
            ConnectionStep::Reuse(handle),
        ),
        c.connection_decision(url1) == c.connection_decision(url2),
{
}

/// A successful authorization is idempotent: while a token for `path` is
/// cached, authorizing `path` again decides to hand back exactly that
/// cached token and never to re-run the claims handshake.
pub proof fn lemma_authorize_idempotent(c: ProducerClient, path: Seq<char>)
    requires
        c.wf(),
        c.connection is Opened,
        c.tokens@.contains_key(path),
    ensures
        c.authorize_decision(path) == Ok::<AuthorizeStep, ErrorKind>(
            AuthorizeStep::UseCached(c.tokens@[path]),
        ),
{
}

/// At most one credential per path, down at the representation: a
/// well-formed cache never holds two entries for one path.
pub proof fn lemma_token_per_path_unique(cache: TokenCache, i: int, j: int)
    requires
        cache.wf(),
        0 <= i < j < cache.entries@.len(),
    ensures
        cache.entries@[i].path@ != cache.entries@[j].path@,
{
}

/// A sender created once is reused: while a pair for `path` is cached, the
/// sender decision is to reuse it — no further open, authorization or
/// attach — and a submit to `path` goes through exactly that pair's sender
/// with the fixed batch envelope tag.
pub proof fn lemma_sender_idempotent(c: ProducerClient, path: Seq<char>)
    requires
        c.wf(),
        c.senders@.contains_key(path),
    ensures
        c.sender_decision(path) == Ok::<SenderStep, ErrorKind>(
            SenderStep::Reuse(c.senders@[path]),
        ),
        c.submit_decision(path) == Ok::<SendRequest, ErrorKind>(
            SendRequest { sender: c.senders@[path].sender, message_format: BATCH_MESSAGE_FORMAT },
        ),
{
    if !(c.connection is Opened) {
        assert(!c.senders@.contains_key(path));
    }
}

/// Paths are independent: recording a sender for one path leaves every
/// other path's cached entry, and every other path's submit decision,
/// exactly as they were.
pub proof fn lemma_sender_isolation(
    c1: ProducerClient,
    c2: ProducerClient,
    p: Seq<char>,
    q: Seq<char>,
    h: SenderLinkHandles,
)
    requires
        p != q,
        c2.senders@ == c1.senders@.insert(p, h),
        c2.connection == c1.connection,
    ensures
        c2.senders@.contains_key(q) == c1.senders@.contains_key(q),
        c1.senders@.contains_key(q) ==> c2.senders@[q] == c1.senders@[q],
        c2.submit_decision(q) == c1.submit_decision(q),
{
}

/// Sends on different paths go through different senders, so locking one
/// path's sender for a transmission never blocks another path's.
pub proof fn lemma_distinct_paths_distinct_senders(c: ProducerClient, p: Seq<char>, q: Seq<char>)
    requires
        c.wf(),
        p != q,
        c.senders@.contains_key(p),
        c.senders@.contains_key(q),
    ensures
        c.senders@[p].sender != c.senders@[q].sender,
{
}

/// A client that was never opened refuses its stateful operations for want
/// of a connection, before any network operation is decided.
pub proof fn lemma_unopened_client_refuses(c: ProducerClient, path: Seq<char>)
    requires
        c.connection is NotOpened,
    ensures
        c.submit_decision(path) == Err::<SendRequest, ErrorKind>(ErrorKind::MissingConnection),
        c.authorize_decision(path) == Err::<AuthorizeStep, ErrorKind>(
            ErrorKind::MissingConnection,
        ),
        c.query_decision() == Err::<u64, ErrorKind>(ErrorKind::MissingConnection),
        c.close_decision() == Err::<u64, ErrorKind>(ErrorKind::MissingConnection),
{
}

/// Closing is terminal: after the connection closes, every operation —
/// ensuring the connection, authorizing, obtaining a sender, submitting,
/// the management flows, closing again — is refused for want of a
/// connection.
pub proof fn lemma_closed_client_refuses(c: ProducerClient, url: Seq<char>, path: Seq<char>)
    requires
        c.wf(),
        c.connection is Closed,
    ensures
        c.connection_decision(url) == Err::<ConnectionStep, ErrorKind>(
            ErrorKind::MissingConnection,
        ),
        c.authorize_decision(path) == Err::<AuthorizeStep, ErrorKind>(
            ErrorKind::MissingConnection,
        ),
        c.sender_decision(path) == Err::<SenderStep, ErrorKind>(ErrorKind::MissingConnection),
        c.submit_decision(path) == Err::<SendRequest, ErrorKind>(ErrorKind::MissingConnection),
        c.management_decision() == Err::<ManagementStep, ErrorKind>(ErrorKind::MissingConnection),
        c.query_decision() == Err::<u64, ErrorKind>(ErrorKind::MissingConnection),
        c.close_decision() == Err::<u64, ErrorKind>(ErrorKind::MissingConnection),
{
    assert(!c.senders@.contains_key(path));
}

/// For one path, authorization strictly precedes link attach: an attach is
/// only ever decided once the connection is open and a token for that path
/// is cached.
pub proof fn lemma_attach_follows_authorize(c: ProducerClient, path: Seq<char>)
    requires
        c.sender_decision(path) == Ok::<SenderStep, ErrorKind>(SenderStep::AttachLink),
    ensures
        c.connection is Opened,
        c.tokens@.contains_key(path),
{
}

/// ... and any send strictly follows the recorded attach: a submit is only
/// ever decided through the cached sender of an open connection, framed
/// with the fixed batch envelope tag.
pub proof fn lemma_send_follows_attach(c: ProducerClient, path: Seq<char>, req: SendRequest)
    requires
        c.submit_decision(path) == Ok::<SendRequest, ErrorKind>(req),
    ensures
        c.connection is Opened,
        c.senders@.contains_key(path),
        req.sender == c.senders@[path].sender,
        req.message_format == BATCH_MESSAGE_FORMAT,
{
}

} // verus!
