use vstd::prelude::*;

verus! {

/// Retry configuration carried for the layer above. The lifecycle core
/// performs no retries of its own: these values are passed through to
/// whatever policy the caller layers on top, and are never interpreted here.
#[derive(Clone, Copy, Debug, Default, PartialEq, Eq, Structural)]
pub struct RetryOptions {
    /// How many times the layer above may re-issue a failed operation.
    pub max_retries: u32,
    /// Base delay between such attempts, in milliseconds.
    pub initial_delay_ms: u64,
}

/// Options used when creating a producer client.
#[derive(Clone, Debug)]
pub struct ProducerClientOptions {
    /// The application id that will be used to identify the client.
    /// When absent, a freshly generated unique id is used instead.
    pub application_id: Option<String>,
    /// The options used to configure retry operations (passed through).
    pub retry_options: Option<RetryOptions>,
    /// The maximum size of a message that can be sent, in bytes.
    /// When absent, the sender link is attached with no bound.
    pub max_message_size: Option<u64>,
}

impl Default for ProducerClientOptions {
    /// No application id, no retry configuration, no message-size bound.
    fn default() -> (r: Self)
        ensures
            r.application_id is None,
            r.retry_options is None,
            r.max_message_size is None,
    {
        ProducerClientOptions { application_id: None, retry_options: None, max_message_size: None }
    }
}

/// Options used when creating a batch of events.
#[derive(Clone, Debug)]
pub struct EventDataBatchOptions {
    /// The maximum total size of the batch, in bytes. When absent, the
    /// client's own message-size bound applies.
    pub max_size_in_bytes: Option<u64>,
    /// When present, the batch is addressed to this single partition
    /// instead of letting the service pick one.
    pub partition_id: Option<String>,
}

impl Default for EventDataBatchOptions {
    /// No size bound of its own and no partition pinning.
    fn default() -> (r: Self)
        ensures
            r.max_size_in_bytes is None,
            r.partition_id is None,
    {
        EventDataBatchOptions { max_size_in_bytes: None, partition_id: None }
    }
}

} // verus!
