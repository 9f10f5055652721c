use vstd::prelude::*;

verus! {

/// The pair of resource names behind one cached sender: the session that
/// hosts the link and the attached sender itself. The unverified driver
/// keeps the live transport objects under these names; sends on one path
/// lock only that path's sender.
#[derive(Clone, Copy, Debug, PartialEq, Eq, Structural)]
pub struct SenderLinkHandles {
    pub session: u64,
    pub sender: u64,
}

/// One cached sender link, keyed by its destination path.
#[derive(Clone, Debug)]
pub struct SenderEntry {
    pub path: String,
    pub handles: SenderLinkHandles,
}

/// The mapping from destination path to sender pair that a sequence of pool
/// entries denotes.
pub open spec fn sender_entries_map(s: Seq<SenderEntry>) -> Map<Seq<char>, SenderLinkHandles>
    decreases s.len(),
{
    if s.len() == 0 {
        Map::empty()
    } else {
        sender_entries_map(s.drop_last()).insert(s.last().path@, s.last().handles)
    }
}

/// No two entries share a path.
pub open spec fn unique_sender_paths(s: Seq<SenderEntry>) -> bool {
    forall|i: int, j: int| 0 <= i < j < s.len() ==> s[i].path@ != s[j].path@
}

proof fn lemma_sender_map_domain(s: Seq<SenderEntry>, k: Seq<char>)
    ensures
        sender_entries_map(s).contains_key(k) <==> (exists|i: int|
            0 <= i < s.len() && s[i].path@ == k),
    decreases s.len(),
{
    if s.len() > 0 {
        let prefix = s.drop_last();
        lemma_sender_map_domain(prefix, k);
        if s.last().path@ == k {
            assert(s[s.len() - 1].path@ == k);
        } else {
            if sender_entries_map(prefix).contains_key(k) {
                let i = choose|i: int| 0 <= i < prefix.len() && prefix[i].path@ == k;
                assert(s[i].path@ == k);
            }
            if exists|i: int| 0 <= i < s.len() && s[i].path@ == k {
                let i = choose|i: int| 0 <= i < s.len() && s[i].path@ == k;
                assert(prefix[i].path@ == k);
            }
        }
    }
}

proof fn lemma_sender_map_value(s: Seq<SenderEntry>, i: int)
    requires
        unique_sender_paths(s),
        0 <= i < s.len(),
    ensures
        sender_entries_map(s).contains_key(s[i].path@),
        sender_entries_map(s)[s[i].path@] == s[i].handles,
    decreases s.len(),
{
    if i < s.len() - 1 {
        let prefix = s.drop_last();
        assert(prefix[i] == s[i]);
        lemma_sender_map_value(prefix, i);
    }
}

/// The sender pool: at most one sender link per destination path, created on
/// first send to that path and kept until the client closes.
#[derive(Clone, Debug)]
pub struct LinkPool {
    pub entries: Vec<SenderEntry>,
}

impl View for LinkPool {
    type V = Map<Seq<char>, SenderLinkHandles>;

    open spec fn view(&self) -> Map<Seq<char>, SenderLinkHandles> {
        sender_entries_map(self.entries@)
    }
}

impl LinkPool {
    /// Paths are pairwise distinct, so each path denotes one sender pair.
    pub open spec fn wf(&self) -> bool {
        unique_sender_paths(self.entries@)
    }

    pub fn new() -> (r: LinkPool)
        ensures
            r.wf(),
            r@ =~= Map::<Seq<char>, SenderLinkHandles>::empty(),
    {
        LinkPool { entries: Vec::new() }
    }

    /// Whether a sender is cached for `path`.
    pub fn contains(&self, path: &str) -> (r: bool)
        requires
            self.wf(),
        ensures
            r == self@.contains_key(path@),
    {
        let key: String = path.to_owned();
        let n = self.entries.len();
        let mut i: usize = 0;
        while i < n
            invariant
                n == self.entries@.len(),
                key@ == path@,
                forall|j: int| 0 <= j < i ==> self.entries@[j].path@ != path@,
            decreases n - i,
        {
            if self.entries[i].path == key {
                proof {
                    lemma_sender_map_domain(self.entries@, path@);
                }
                return true;
            }
            i += 1;
        }
        proof {
            lemma_sender_map_domain(self.entries@, path@);
        }
        false
    }

    /// The cached sender pair for `path`, if any.
    pub fn get(&self, path: &str) -> (r: Option<SenderLinkHandles>)
        requires
            self.wf(),
        ensures
            match r {
                Some(h) => self@.contains_key(path@) && h == self@[path@],
                None => !self@.contains_key(path@),
            },
    {
        let key: String = path.to_owned();
        let n = self.entries.len();
        let mut i: usize = 0;
        while i < n
            invariant
                n == self.entries@.len(),
                key@ == path@,
                self.wf(),
                forall|j: int| 0 <= j < i ==> self.entries@[j].path@ != path@,
            decreases n - i,
        {
            if self.entries[i].path == key {
                proof {
                    lemma_sender_map_value(self.entries@, i as int);
                }
                return Some(self.entries[i].handles);
            }
            i += 1;
        }
        proof {
            lemma_sender_map_domain(self.entries@, path@);
        }
        None
    }

    /// First writer wins: inserts the pair only when `path` has no entry
    /// yet, and reports whether it did. A duplicate insertion leaves the
    /// pool exactly as it was.
    pub fn try_insert(&mut self, path: &str, handles: SenderLinkHandles) -> (r: bool)
        requires
            old(self).wf(),
        ensures
            final(self).wf(),
            r == !old(self)@.contains_key(path@),
            r ==> final(self)@ == old(self)@.insert(path@, handles),
            !r ==> *final(self) == *old(self),
    {
        if self.contains(path) {
            false
        } else {
            proof {
                lemma_sender_map_domain(self.entries@, path@);
            }
            let ghost before = self.entries@;
            self.entries.push(SenderEntry { path: path.to_owned(), handles });
            proof {
                assert(self.entries@.drop_last() =~= before);
            }
            true
        }
    }

    /// Drops every entry: used when the connection closes, which tears down
    /// all derived sessions and links.
    pub fn clear(&mut self)
        ensures
            final(self).wf(),
            final(self)@ =~= Map::<Seq<char>, SenderLinkHandles>::empty(),
    {
        self.entries.clear();
    }
}

} // verus!
