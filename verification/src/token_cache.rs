use vstd::prelude::*;

use crate::access_token::AccessToken;

verus! {

/// One cached credential, keyed by the destination path it was bound to.
#[derive(Clone, Debug)]
pub struct TokenEntry {
    pub path: String,
    pub token: AccessToken,
}

/// The mapping from authorization path to credential that a sequence of
/// cache entries denotes; a later entry for the same path would shadow an
/// earlier one, which well-formed caches never hold.
pub open spec fn token_entries_map(s: Seq<TokenEntry>) -> Map<Seq<char>, AccessToken>
    decreases s.len(),
{
    if s.len() == 0 {
        Map::empty()
    } else {
        token_entries_map(s.drop_last()).insert(s.last().path@, s.last().token)
    }
}

/// No two entries share a path.
pub open spec fn unique_token_paths(s: Seq<TokenEntry>) -> bool {
    forall|i: int, j: int| 0 <= i < j < s.len() ==> s[i].path@ != s[j].path@
}

proof fn lemma_token_map_domain(s: Seq<TokenEntry>, k: Seq<char>)
    ensures
        token_entries_map(s).contains_key(k) <==> (exists|i: int|
            0 <= i < s.len() && s[i].path@ == k),
    decreases s.len(),
{
    if s.len() > 0 {
        let prefix = s.drop_last();
        lemma_token_map_domain(prefix, k);
        if s.last().path@ == k {
            assert(s[s.len() - 1].path@ == k);
        } else {
            if token_entries_map(prefix).contains_key(k) {
                let i = choose|i: int| 0 <= i < prefix.len() && prefix[i].path@ == k;
                assert(s[i].path@ == k);
            }
            if exists|i: int| 0 <= i < s.len() && s[i].path@ == k {
                let i = choose|i: int| 0 <= i < s.len() && s[i].path@ == k;
                assert(prefix[i].path@ == k);
            }
        }
    }
}

proof fn lemma_token_map_value(s: Seq<TokenEntry>, i: int)
    requires
        unique_token_paths(s),
        0 <= i < s.len(),
    ensures
        token_entries_map(s).contains_key(s[i].path@),
        token_entries_map(s)[s[i].path@] == s[i].token,
    decreases s.len(),
{
    if i < s.len() - 1 {
        let prefix = s.drop_last();
        assert(prefix[i] == s[i]);
        lemma_token_map_value(prefix, i);
    }
}

/// The per-path credential cache: at most one token per authorization path,
/// inserted on first successful authorization and never overwritten.
#[derive(Clone, Debug)]
pub struct TokenCache {
    pub entries: Vec<TokenEntry>,
}

impl View for TokenCache {
    type V = Map<Seq<char>, AccessToken>;

    open spec fn view(&self) -> Map<Seq<char>, AccessToken> {
        token_entries_map(self.entries@)
    }
}

impl TokenCache {
    /// Paths are pairwise distinct, so each path denotes one credential.
    pub open spec fn wf(&self) -> bool {
        unique_token_paths(self.entries@)
    }

    pub fn new() -> (r: TokenCache)
        ensures
            r.wf(),
            r@ =~= Map::<Seq<char>, AccessToken>::empty(),
    {
        TokenCache { entries: Vec::new() }
    }

    /// Whether a credential is cached for `path`.
    pub fn contains(&self, path: &str) -> (r: bool)
        requires
            self.wf(),
        ensures
            r == self@.contains_key(path@),
    {
        let key: String = path.to_owned();
        let n = self.entries.len();
        let mut i: usize = 0;
        while i < n
            invariant
                n == self.entries@.len(),
                key@ == path@,
                forall|j: int| 0 <= j < i ==> self.entries@[j].path@ != path@,
            decreases n - i,
        {
            if self.entries[i].path == key {
                proof {
                    lemma_token_map_domain(self.entries@, path@);
                }
                return true;
            }
            i += 1;
        }
        proof {
            lemma_token_map_domain(self.entries@, path@);
        }
        false
    }

    /// The cached credential for `path`, if any.
    pub fn get(&self, path: &str) -> (r: Option<&AccessToken>)
        requires
            self.wf(),
        ensures
            match r {
                Some(t) => self@.contains_key(path@) && *t == self@[path@],
                None => !self@.contains_key(path@),
            },
    {
        let key: String = path.to_owned();
        let n = self.entries.len();
        let mut i: usize = 0;
        while i < n
            invariant
                n == self.entries@.len(),
                key@ == path@,
                self.wf(),
                forall|j: int| 0 <= j < i ==> self.entries@[j].path@ != path@,
            decreases n - i,
        {
            if self.entries[i].path == key {
                proof {
                    lemma_token_map_value(self.entries@, i as int);
                }
                return Some(&self.entries[i].token);
            }
            i += 1;
        }
        proof {
            lemma_token_map_domain(self.entries@, path@);
        }
        None
    }

    /// First writer wins: inserts the credential only when `path` has no
    /// entry yet, and reports whether it did. A duplicate insertion leaves
    /// the cache exactly as it was.
    pub fn try_insert(&mut self, path: &str, token: AccessToken) -> (r: bool)
        requires
            old(self).wf(),
        ensures
            final(self).wf(),
            r == !old(self)@.contains_key(path@),
            r ==> final(self)@ == old(self)@.insert(path@, token),
            !r ==> *final(self) == *old(self),
    {
        if self.contains(path) {
            false
        } else {
            proof {
                lemma_token_map_domain(self.entries@, path@);
            }
            let ghost before = self.entries@;
            self.entries.push(TokenEntry { path: path.to_owned(), token });
            proof {
                assert(self.entries@.drop_last() =~= before);
            }
            true
        }
    }
}

} // verus!
