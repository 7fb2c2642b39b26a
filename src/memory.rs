use vstd::prelude::*;
use vstd::slice::slice_to_vec;

use crate::digest::{digest_of, Digest, DigestKey};
use crate::error::{ContentStoreError, ErrorKind};
use crate::package::PackageId;
use crate::store::{after_store, check_upload, fetched, records_verified, ContentStore, Records};

verus! {

/// One committed blob.
struct Entry {
    digest: Digest,
    content: Vec<u8>,
}

/// A content store that keeps committed blobs in memory, each digest once.
pub struct MemoryContentStore {
    entries: Vec<Entry>,
    committed: Ghost<Records>,
}

impl MemoryContentStore {
    /// The committed records.
    pub closed spec fn model(&self) -> Records {
        self.committed@
    }

    /// Each entry is committed under its digest, and each committed digest
    /// has an entry; committed blobs hash to their digests.
    pub closed spec fn wf(&self) -> bool {
        &&& records_verified(self.committed@)
        &&& forall|i: int|
            0 <= i < self.entries@.len() ==> {
                let e = #[trigger] self.entries@[i];
                &&& e.digest.wf()
                &&& self.committed@.contains_key(e.digest@)
                &&& self.committed@[e.digest@] == e.content@
            }
        &&& forall|k: DigestKey| #[trigger]
            self.committed@.contains_key(k) ==> exists|i: int|
                0 <= i < self.entries@.len() && (#[trigger] self.entries@[i]).digest@ == k
    }

    /// An empty store.
    pub fn new() -> (r: MemoryContentStore)
        ensures
            r.wf(),
            r.model() == Map::<DigestKey, Seq<u8>>::empty(),
    {
        MemoryContentStore { entries: Vec::new(), committed: Ghost(Map::empty()) }
    }

    /// Index of the entry filed under `digest`, if there is one.
    fn find(&self, digest: &Digest) -> (r: Option<usize>)
        requires
            self.wf(),
        ensures
            r matches Some(i) ==> i < self.entries@.len() && self.entries@[i as int].digest@ == digest@,
            r is None ==> !self.model().contains_key(digest@),
    {
        let mut i: usize = 0;
        while i < self.entries.len()
            invariant
                self.wf(),
                i <= self.entries@.len(),
                forall|j: int| 0 <= j < i ==> (#[trigger] self.entries@[j]).digest@ != digest@,
            decreases self.entries@.len() - i,
        {
            if self.entries[i].digest.same_as(digest) {
                return Some(i);
            }
            i = i + 1;
        }
        None
    }

    /// Whether content is committed under `digest`.
    pub fn contains(&self, digest: &Digest) -> (r: bool)
        requires
            self.wf(),
        ensures
            r == self.model().contains_key(digest@),
    {
        match self.find(digest) {
            Some(i) => {
                assert(self.entries@[i as int].digest@ == digest@);
                true
            },
            None => false,
        }
    }

    /// The bytes committed under `digest`; a digest never stored is not found.
    pub fn get(&self, digest: &Digest) -> (r: Result<Vec<u8>, ContentStoreError>)
        requires
            self.wf(),
        ensures
            match fetched(self.model(), digest@) {
                Some(b) => r matches Ok(v) && v@ == b,
                None => r matches Err(ContentStoreError::ContentNotFound(d)) && d@ == digest@,
            },
    {
        match self.find(digest) {
            Some(i) => Ok(slice_to_vec(self.entries[i].content.as_slice())),
            None => Err(ContentStoreError::ContentNotFound(digest.copied())),
        }
    }

    /// Commits `content` under `digest` once its bytes are checked against
    /// it. A digest already present keeps its bytes, and the call succeeds.
    pub fn put(&mut self, digest: &Digest, content: &[u8]) -> (r: Result<(), ContentStoreError>)
        requires
            old(self).wf(),
            digest.wf(),
        ensures
            final(self).wf(),
            r is Ok <==> digest_of(digest@.0, content@) == digest@.1,
            r is Ok ==> final(self).model() == after_store(old(self).model(), digest@, content@),
            r matches Err(e) ==> e.has_kind(ErrorKind::IntegrityMismatch) && final(self).model() == old(
                self,
            ).model(),
    {
        match check_upload(digest, content) {
            Err(e) => Err(e),
            Ok(()) => {
                match self.find(digest) {
                    Some(i) => {
                        assert(self.entries@[i as int].digest@ == digest@);
                        Ok(())
                    },
                    None => {
                        let ghost before = self.committed@;
                        let ghost old_entries = self.entries@;
                        let entry = Entry { digest: digest.copied(), content: slice_to_vec(content) };
                        self.entries.push(entry);
                        self.committed = Ghost(before.insert(digest@, content@));
                        assert forall|k: DigestKey| #[trigger]
                            self.committed@.contains_key(k) implies exists|i: int|
                                0 <= i < self.entries@.len() && (#[trigger] self.entries@[i]).digest@ == k by {
                            if k == digest@ {
                                assert(self.entries@[old_entries.len() as int].digest@ == k);
                            } else {
                                assert(before.contains_key(k));
                                let j = choose|j: int| 0 <= j < old_entries.len() && (#[trigger] old_entries[j]).digest@ == k;
                                assert(self.entries@[j] == old_entries[j]);
                            }
                        }
                        assert forall|i: int| 0 <= i < self.entries@.len() implies {
                            let e = #[trigger] self.entries@[i];
                            &&& e.digest.wf()
                            &&& self.committed@.contains_key(e.digest@)
                            &&& self.committed@[e.digest@] == e.content@
                        } by {
                            if i < old_entries.len() {
                                assert(self.entries@[i] == old_entries[i]);
                                assert(before.contains_key(old_entries[i].digest@));
                            }
                        }
                        Ok(())
                    },
                }
            },
        }
    }
}

impl ContentStore for MemoryContentStore {
    closed spec fn records(&self) -> Records {
        self.model()
    }

    closed spec fn inv(&self) -> bool {
        self.wf()
    }

    fn fetch_content(&self, package_id: &PackageId, digest: &Digest) -> (r: Result<Vec<u8>, ContentStoreError>)
        ensures
            self.records().contains_key(digest@) ==> (r matches Ok(b) && b@ == self.records()[digest@]),
            !self.records().contains_key(digest@) ==> (r matches Err(ContentStoreError::ContentNotFound(d))
                && d@ == digest@),
    {
        self.get(digest)
    }

    fn store_content(&mut self, package_id: &PackageId, digest: &Digest, content: &[u8]) -> (r: Result<(), ContentStoreError>)
        ensures
            r is Ok <==> digest_of(digest@.0, content@) == digest@.1,
    {
        self.put(digest, content)
    }

    fn content_present(&self, package_id: &PackageId, digest: &Digest) -> (r: Result<bool, ContentStoreError>)
        ensures
            r matches Ok(b) && b == self.records().contains_key(digest@),
    {
        Ok(self.contains(digest))
    }
}

} // verus!
