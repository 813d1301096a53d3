//! An in-memory, read-only document source.
//!
//! Resolution never touches the filesystem directly: the caller collects the
//! text of every descriptor file into a `DocStore` and the resolvers read
//! from it. A path that is absent from the store stands for a file that
//! could not be read.
//!
//! Paths are opaque keys here: a plugin path from a root descriptor is
//! looked up exactly as written. A caller that fills the store from a
//! filesystem therefore fixes the path-resolution rule itself, by storing
//! each document under the path the root descriptor uses for it.

use vstd::prelude::*;

verus! {

struct Doc {
    path: String,
    text: String,
}

/// A snapshot of documents, keyed by path. Inserting a path again replaces
/// what an earlier insertion put there.
pub struct DocStore {
    docs: Vec<Doc>,
}

spec fn lookup(docs: Seq<Doc>, path: Seq<char>) -> Option<Seq<char>>
    decreases docs.len(),
{
    if docs.len() == 0 {
        None
    } else if docs[0].path@ == path {
        Some(docs[0].text@)
    } else {
        lookup(docs.drop_first(), path)
    }
}

impl DocStore {
    /// The document stored under `path`, if any.
    pub closed spec fn spec_read(&self, path: Seq<char>) -> Option<Seq<char>> {
        lookup(self.docs@, path)
    }

    /// An empty store: every read misses.
    pub fn new() -> (s: DocStore)
        ensures
            forall|q: Seq<char>| s.spec_read(q) is None,
    {
        DocStore { docs: Vec::new() }
    }

    /// Stores `text` under `path`, replacing any earlier document there.
    pub fn insert(&mut self, path: String, text: String)
        ensures
            forall|q: Seq<char>|
                final(self).spec_read(q) == (if q == path@ {
                    Some(text@)
                } else {
                    old(self).spec_read(q)
                }),
    {
        let ghost prior = self.docs@;
        self.docs.insert(0, Doc { path, text });
        proof {
            assert(self.docs@.drop_first() =~= prior);
        }
    }

    /// Reads the document stored under `path`.
    pub fn read(&self, path: &str) -> (r: Option<&String>)
        ensures
            match r {
                Some(t) => self.spec_read(path@) == Some(t@),
                None => self.spec_read(path@) is None,
            },
    {
        let key: String = path.to_owned();
        let n = self.docs.len();
        let mut i: usize = 0;
        proof {
            assert(self.docs@.skip(0) =~= self.docs@);
        }
        while i < n
            invariant
                i <= n,
                n == self.docs.len(),
                key@ == path@,
                lookup(self.docs@, path@) == lookup(self.docs@.skip(i as int), path@),
            decreases n - i,
        {
            if self.docs[i].path == key {
                proof {
                    assert(self.docs@.skip(i as int)[0] == self.docs@[i as int]);
                }
                return Some(&self.docs[i].text);
            }
            proof {
                assert(self.docs@.skip(i as int).drop_first() =~= self.docs@.skip(
                    i as int + 1,
                ));
            }
            i = i + 1;
        }
        proof {
            assert(self.docs@.skip(n as int).len() == 0);
        }
        None
    }
}

} // verus!
