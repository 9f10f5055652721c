use vstd::prelude::*;

verus! {

/// The total size, in bytes, of an ordered collection of encoded messages.
pub open spec fn total_size(msgs: Seq<Vec<u8>>) -> int
    decreases msgs.len(),
{
    if msgs.len() == 0 {
        0
    } else {
        total_size(msgs.drop_last()) + msgs.last()@.len()
    }
}

/// An ordered, size-bounded collection of pre-encoded messages destined for
/// one path. The batch is built by the caller and read-only to the lifecycle
/// core: message encoding and size accounting beyond the simple byte bound
/// here belong to the batch collaborator, not to this crate.
#[derive(Clone, Debug)]
pub struct EventDataBatch {
    /// The destination path the batch will be sent to.
    pub path: String,
    /// The bound on the total byte size of the batch.
    pub max_size_in_bytes: u64,
    /// The encoded messages added so far, in insertion order.
    pub messages: Vec<Vec<u8>>,
    /// The total byte size of `messages`.
    pub size_in_bytes: u64,
}

impl EventDataBatch {
    /// The byte count recorded matches the messages held, and stays within
    /// the bound the batch was created with.
    pub open spec fn wf(&self) -> bool {
        &&& self.size_in_bytes as int == total_size(self.messages@)
        &&& self.size_in_bytes <= self.max_size_in_bytes
    }

    /// An empty batch for `path`, bounded by `max_size_in_bytes`.
    pub fn new(path: String, max_size_in_bytes: u64) -> (r: EventDataBatch)
        ensures
            r.wf(),
            r.path == path,
            r.max_size_in_bytes == max_size_in_bytes,
            r.messages@ =~= Seq::<Vec<u8>>::empty(),
            r.size_in_bytes == 0,
    {
        EventDataBatch { path, max_size_in_bytes, messages: Vec::new(), size_in_bytes: 0 }
    }

    /// Adds one pre-encoded message if it fits within the batch's size
    /// bound; reports whether it was added. A message that does not fit
    /// leaves the batch unchanged.
    pub fn try_add_event_data(&mut self, encoded: Vec<u8>) -> (r: bool)
        requires
            old(self).wf(),
        ensures
            final(self).wf(),
            r == (total_size(old(self).messages@) + encoded@.len()
                <= old(self).max_size_in_bytes),
            r ==> final(self).messages@ =~= old(self).messages@.push(encoded)
                && final(self).size_in_bytes == old(self).size_in_bytes + encoded@.len(),
            !r ==> *final(self) == *old(self),
            final(self).path == old(self).path,
            final(self).max_size_in_bytes == old(self).max_size_in_bytes,
    {
        let room = self.max_size_in_bytes - self.size_in_bytes;
        if encoded.len() as u64 <= room {
            let added = encoded.len() as u64;
            proof {
                assert(self.messages@.push(encoded).drop_last() =~= self.messages@);
            }
            self.size_in_bytes = self.size_in_bytes + added;
            self.messages.push(encoded);
            true
        } else {
            false
        }
    }

    /// The destination path the batch resolves to at submission time.
    pub fn get_batch_path(&self) -> (r: &str)
        ensures
            r@ == self.path@,
    {
        self.path.as_str()
    }

    /// The encoded messages, in the order they were added.
    pub fn get_messages(&self) -> (r: &Vec<Vec<u8>>)
        ensures
            r == &self.messages,
    {
        &self.messages
    }

    /// How many messages the batch holds.
    pub fn len(&self) -> (r: usize)
        ensures
            r == self.messages@.len(),
    {
        self.messages.len()
    }

    /// The total byte size of the messages held.
    pub fn size_in_bytes(&self) -> (r: u64)
        ensures
            r == self.size_in_bytes,
    {
        self.size_in_bytes
    }
}

} // verus!
