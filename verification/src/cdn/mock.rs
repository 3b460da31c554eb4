//! An object store held in memory.

use crate::cdn::get_public_url;
use crate::cdn::public_url;
use crate::cdn::CdnService;
use crate::error::Error;
use crate::error::ErrorModel;
use crate::models::clone_bytes;
use crate::text::concat;
use crate::text::str_eq;
use crate::text::string_from_utf8;
use vstd::prelude::*;
use vstd::slice::slice_to_vec;
use vstd::string::StringExecFns;
use vstd::utf8::decode_utf8;
use vstd::utf8::valid_utf8;

verus! {

/// What is stored under `key` after the uploads in `log`, the last upload
/// of a key being the one that counts.
pub open spec fn stored(log: Seq<(Seq<char>, Seq<u8>)>, key: Seq<char>) -> Option<Seq<u8>>
    decreases log.len(),
{
    if log.len() == 0 {
        None
    } else if log.last().0 == key {
        Some(log.last().1)
    } else {
        stored(log.drop_last(), key)
    }
}

/// The files that a log of uploads leaves in the store.
pub open spec fn files_of(log: Seq<(Seq<char>, Seq<u8>)>) -> Map<Seq<char>, Seq<u8>> {
    Map::new(|key: Seq<char>| stored(log, key) is Some, |key: Seq<char>| stored(log, key).unwrap())
}

/// Some entry of the list carries the key.
pub open spec fn lists(entries: Seq<(String, Vec<u8>)>, key: Seq<char>) -> bool {
    exists|i: int| 0 <= i < entries.len() && (#[trigger] entries[i]).0@ == key
}

/// An upload adds its file to the store, or replaces the file of its key.
pub proof fn lemma_upload_inserts(log: Seq<(Seq<char>, Seq<u8>)>, key: Seq<char>, data: Seq<u8>)
    ensures
        files_of(log.push((key, data))) == files_of(log).insert(key, data),
{
    let after = log.push((key, data));
    assert(after.drop_last() =~= log);
    assert(files_of(after) =~= files_of(log).insert(key, data));
}

/// A store held in memory. It keeps what is uploaded, serves it back, and
/// counts uploads and reads.
#[derive(Debug)]
pub struct MockCdnClient {
    files: Vec<(String, Vec<u8>)>,
    base_url: String,
    upload_count: usize,
    read_count: usize,
}

impl MockCdnClient {
    /// Every upload so far, in order.
    pub closed spec fn log(&self) -> Seq<(Seq<char>, Seq<u8>)> {
        Seq::new(self.files@.len(), |i: int| (self.files@[i].0@, self.files@[i].1@))
    }

    /// The files in the store, by key.
    pub open spec fn files(&self) -> Map<Seq<char>, Seq<u8>> {
        files_of(self.log())
    }

    /// The base of the public URLs.
    pub closed spec fn base_url(&self) -> Seq<char> {
        self.base_url@
    }

    /// Uploads served so far.
    pub closed spec fn upload_count(&self) -> usize {
        self.upload_count
    }

    /// Reads served so far.
    pub closed spec fn read_count(&self) -> usize {
        self.read_count
    }

    /// An empty store that serves under `https://mock-cdn.example.com`.
    pub fn new() -> (r: Self)
        ensures
            r.files() == Map::<Seq<char>, Seq<u8>>::empty(),
            r.base_url() == "https://mock-cdn.example.com"@,
            r.upload_count() == 0,
            r.read_count() == 0,
    {
        let r = Self {
            files: Vec::new(),
            base_url: String::from_str("https://mock-cdn.example.com"),
            upload_count: 0,
            read_count: 0,
        };
        assert(r.files() =~= Map::<Seq<char>, Seq<u8>>::empty());
        r
    }

    /// The same store, serving under another base URL.
    pub fn with_base_url(self, base_url: String) -> (r: Self)
        ensures
            r.files() == self.files(),
            r.base_url() == base_url@,
            r.upload_count() == self.upload_count(),
            r.read_count() == self.read_count(),
    {
        let mut r = self;
        r.base_url = base_url;
        assert(r.log() =~= self.log());
        r
    }

    /// The same store with one more file; no upload is counted for it.
    pub fn with_file(self, key: String, content: Vec<u8>) -> (r: Self)
        ensures
            r.files() == self.files().insert(key@, content@),
            r.base_url() == self.base_url(),
            r.upload_count() == self.upload_count(),
            r.read_count() == self.read_count(),
    {
        let mut r = self;
        r.files.push((key, content));
        proof {
            assert(r.log() =~= self.log().push((key@, content@)));
            lemma_upload_inserts(self.log(), key@, content@);
        }
        r
    }

    /// Uploads served so far.
    pub fn get_upload_count(&self) -> (r: usize)
        ensures
            r == self.upload_count(),
    {
        self.upload_count
    }

    /// Reads served so far.
    pub fn get_read_count(&self) -> (r: usize)
        ensures
            r == self.read_count(),
    {
        self.read_count
    }

    /// The files in the store, each key once, with its current content.
    pub fn get_files(&self) -> (r: Vec<(String, Vec<u8>)>)
        ensures
            forall|i: int|
                0 <= i < r@.len() ==> self.files().contains_key((#[trigger] r@[i]).0@)
                    && self.files()[r@[i].0@] == r@[i].1@,
            forall|key: Seq<char>| self.files().contains_key(key) ==> lists(r@, key),
            forall|i: int, j: int|
                0 <= i < j < r@.len() ==> (#[trigger] r@[i]).0@ != (#[trigger] r@[j]).0@,
    {
        let mut out: Vec<(String, Vec<u8>)> = Vec::new();
        let mut i: usize = self.files.len();
        let ghost log = self.log();
        while i > 0
            invariant
                i <= self.files.len(),
                log == self.log(),
                forall|k: int|
                    0 <= k < out@.len() ==> stored(log, (#[trigger] out@[k]).0@) == Some(out@[k].1@),
                forall|m: int| i <= m < log.len() ==> lists(out@, (#[trigger] log[m]).0),
                forall|a: int, b: int|
                    0 <= a < b < out@.len() ==> (#[trigger] out@[a]).0@ != (#[trigger] out@[b]).0@,
            decreases i,
        {
            i -= 1;
            let key = &self.files[i].0;
            let mut seen = false;
            let mut k: usize = 0;
            while k < out.len()
                invariant
                    k <= out@.len(),
                    seen == lists(out@.subrange(0, k as int), key@),
                decreases out.len() - k,
            {
                let ghost front = out@.subrange(0, k as int);
                let ghost wider = out@.subrange(0, k + 1);
                let hit = str_eq(out[k].0.as_str(), key.as_str());
                proof {
                    if lists(front, key@) {
                        let j = choose|j: int| 0 <= j < front.len() && (#[trigger] front[j]).0@ == key@;
                        assert(wider[j] == front[j]);
                    }
                    if hit {
                        assert(wider[k as int].0@ == key@);
                    }
                    if lists(wider, key@) && !hit {
                        let j = choose|j: int| 0 <= j < wider.len() && (#[trigger] wider[j]).0@ == key@;
                        assert(front[j] == wider[j]);
                    }
                }
                if hit {
                    seen = true;
                }
                k += 1;
            }
            assert(out@.subrange(0, out@.len() as int) =~= out@);
            assert(log[i as int] == (self.files@[i as int].0@, self.files@[i as int].1@));
            if !seen {
                proof {
                    assert forall|m: int| i < m < log.len() implies (#[trigger] log[m]).0
                        != key@ by {
                        assert(lists(out@, log[m].0));
                    }
                    lemma_stored_is_latest(log, i as int);
                }
                let ghost before = out@;
                out.push((key.clone(), clone_bytes(&self.files[i].1)));
                proof {
                    assert forall|m: int| i <= m < log.len() implies lists(
                        out@,
                        (#[trigger] log[m]).0,
                    ) by {
                        if m == i {
                            assert(out@[before.len() as int].0@ == log[m].0);
                        } else {
                            assert(lists(before, log[m].0));
                            let kk = choose|kk: int|
                                0 <= kk < before.len() && (#[trigger] before[kk]).0@ == log[m].0;
                            assert(out@[kk] == before[kk]);
                        }
                    }
                    assert forall|kk: int| 0 <= kk < out@.len() implies stored(
                        log,
                        (#[trigger] out@[kk]).0@,
                    ) == Some(out@[kk].1@) by {
                        if kk < before.len() {
                            assert(out@[kk] == before[kk]);
                        }
                    }
                    assert forall|a: int, b: int| 0 <= a < b < out@.len() implies (#[trigger] out@[a]).0@
                        != (#[trigger] out@[b]).0@ by {
                        assert(out@[a] == before[a]);
                        if b < before.len() {
                            assert(out@[b] == before[b]);
                        }
                    }
                }
            }
        }
        proof {
            assert forall|key: Seq<char>| self.files().contains_key(key) implies lists(
                out@,
                key,
            ) by {
                lemma_stored_has_upload(log, key);
                let m = choose|m: int| 0 <= m < log.len() && (#[trigger] log[m]).0 == key;
                assert(lists(out@, log[m].0));
            }
        }
        out
    }

    fn find(&self, key: &str) -> (r: Option<usize>)
        ensures
            match r {
                Some(i) => i < self.files@.len() && stored(self.log(), key@) == Some(
                    self.files@[i as int].1@,
                ),
                None => stored(self.log(), key@) is None,
            },
    {
        let mut i: usize = self.files.len();
        let ghost log = self.log();
        assert(log.subrange(0, log.len() as int) =~= log);
        while i > 0
            invariant
                i <= self.files.len(),
                log == self.log(),
                stored(log, key@) == stored(log.subrange(0, i as int), key@),
            decreases i,
        {
            i -= 1;
            proof {
                assert(log.subrange(0, i + 1).drop_last() =~= log.subrange(0, i as int));
                assert(log.subrange(0, i + 1).last() == log[i as int]);
            }
            if str_eq(self.files[i].0.as_str(), key) {
                return Some(i);
            }
        }
        None
    }
}

/// The upload at position `i` is what is stored under its key when no
/// later upload has the same key.
proof fn lemma_stored_is_latest(log: Seq<(Seq<char>, Seq<u8>)>, i: int)
    requires
        0 <= i < log.len(),
        forall|m: int| i < m < log.len() ==> (#[trigger] log[m]).0 != log[i].0,
    ensures
        stored(log, log[i].0) == Some(log[i].1),
    decreases log.len(),
{
    if i < log.len() - 1 {
        let front = log.drop_last();
        assert(log.last() == log[log.len() - 1]);
        assert(front[i] == log[i]);
        assert forall|m: int| i < m < front.len() implies (#[trigger] front[m]).0 != front[i].0 by {
            assert(front[m] == log[m]);
        }
        lemma_stored_is_latest(front, i);
    }
}

/// Whatever is stored under a key was uploaded under it.
proof fn lemma_stored_has_upload(log: Seq<(Seq<char>, Seq<u8>)>, key: Seq<char>)
    requires
        stored(log, key) is Some,
    ensures
        exists|m: int| 0 <= m < log.len() && (#[trigger] log[m]).0 == key,
    decreases log.len(),
{
    if log.last().0 == key {
        assert(log[log.len() - 1].0 == key);
    } else {
        let front = log.drop_last();
        lemma_stored_has_upload(front, key);
        let m = choose|m: int| 0 <= m < front.len() && (#[trigger] front[m]).0 == key;
        assert(log[m] == front[m]);
    }
}

impl Default for MockCdnClient {
    fn default() -> (r: Self)
        ensures
            r.files() == Map::<Seq<char>, Seq<u8>>::empty(),
            r.upload_count() == 0,
            r.read_count() == 0,
    {
        Self::new()
    }
}

impl CdnService for MockCdnClient {
    /// Keeps the bytes under the key and answers with the public URL of
    /// the key.
    fn upload_file(&mut self, key: &str, data: &[u8], content_type: &str) -> (r: Result<
        String,
        Error,
    >)
        ensures
            final(self).files() == old(self).files().insert(key@, data@),
            final(self).base_url() == old(self).base_url(),
            final(self).upload_count() == crate::ai::mock::counted(old(self).upload_count()),
            final(self).read_count() == old(self).read_count(),
            r matches Ok(url) && url@ == public_url(old(self).base_url(), key@),
    {
        let ghost before = self.log();
        self.upload_count = if self.upload_count < usize::MAX {
            self.upload_count + 1
        } else {
            self.upload_count
        };
        self.files.push((String::from_str(key), slice_to_vec(data)));
        proof {
            assert(self.log() =~= before.push((key@, data@)));
            lemma_upload_inserts(before, key@, data@);
        }
        Ok(get_public_url(self.base_url.as_str(), key))
    }

    /// The text stored under the key. Fails with `NotFound` when nothing
    /// is stored there, and with a storage error when what is stored is no
    /// UTF-8 text.
    fn read_json(&mut self, key: &str) -> (r: Result<String, Error>)
        ensures
            final(self).files() == old(self).files(),
            final(self).base_url() == old(self).base_url(),
            final(self).upload_count() == old(self).upload_count(),
            final(self).read_count() == crate::ai::mock::counted(old(self).read_count()),
            match r {
                Ok(text) => old(self).files().contains_key(key@) && valid_utf8(
                    old(self).files()[key@],
                ) && text@ == decode_utf8(old(self).files()[key@]),
                Err(e) => if old(self).files().contains_key(key@) {
                    !valid_utf8(old(self).files()[key@]) && e@ is S3
                } else {
                    e@ == ErrorModel::NotFound(key@)
                },
            },
    {
        self.read_count = if self.read_count < usize::MAX {
            self.read_count + 1
        } else {
            self.read_count
        };
        match self.find(key) {
            Some(i) => match string_from_utf8(clone_bytes(&self.files[i].1)) {
                Ok(text) => Ok(text),
                Err(reason) => Err(Error::S3(concat("Invalid UTF-8: ", reason.as_str()))),
            },
            None => Err(Error::NotFound(String::from_str(key))),
        }
    }

    /// Whether something is stored under the key.
    fn file_exists(&mut self, key: &str) -> (r: Result<bool, Error>)
        ensures
            final(self).files() == old(self).files(),
            final(self).base_url() == old(self).base_url(),
            final(self).upload_count() == old(self).upload_count(),
            final(self).read_count() == old(self).read_count(),
            r == Ok::<bool, Error>(old(self).files().contains_key(key@)),
    {
        Ok(self.find(key).is_some())
    }
}

} // verus!
