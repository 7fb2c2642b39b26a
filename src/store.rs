use vstd::prelude::*;


use crate::digest::{digest_of, Digest, DigestKey};
use crate::error::{ContentStoreError, ErrorKind};
use crate::package::PackageId;

verus! {

/// Committed content: for each digest, the bytes filed under it.
pub type Records = Map<DigestKey, Seq<u8>>;

/// Every committed blob hashes to the digest it is filed under.
pub open spec fn records_verified(m: Records) -> bool {
    forall|k: DigestKey| #[trigger] m.contains_key(k) ==> digest_of(k.0, m[k]) == k.1
}

/// Committed content after a successful store of `content` under `key`: a
/// digest already present keeps its bytes; otherwise the blob is added.
pub open spec fn after_store(m: Records, key: DigestKey, content: Seq<u8>) -> Records {
    if m.contains_key(key) {
        m
    } else {
        m.insert(key, content)
    }
}

/// What a fetch of `key` observes: the committed bytes, or nothing.
pub open spec fn fetched(m: Records, key: DigestKey) -> Option<Seq<u8>> {
    if m.contains_key(key) {
        Some(m[key])
    } else {
        None
    }
}

/// Implemented by content stores.
///
/// A store's state is its committed records. Each operation either moves
/// it from one verified state to another in a single step, or leaves it as it
/// was: no caller ever sees a blob that is partly written or that does not
/// hash to its digest. The package identifier is for callers' accounting
/// only; it never decides whether content exists. Besides a missing digest
/// and bytes that do not match their digest, a backend fails only on its own
/// storage, with an error of kind `Io`.
pub trait ContentStore {
    /// The committed records.
    spec fn records(&self) -> Records;

    /// The store's own invariant, kept by every operation.
    spec fn inv(&self) -> bool;

    /// Fetch content for a given package.
    fn fetch_content(&self, package_id: &PackageId, digest: &Digest) -> (r: Result<Vec<u8>, ContentStoreError>)
        requires
            self.inv(),
            package_id.wf(),
            digest.wf(),
        ensures
            r matches Ok(b) ==> fetched(self.records(), digest@) == Some(b@),
            r matches Err(ContentStoreError::ContentNotFound(d)) ==> d@ == digest@ && !self.records().contains_key(digest@),
            !self.records().contains_key(digest@) ==> r is Err,
            r matches Err(e) ==> (e is ContentNotFound || e.has_kind(ErrorKind::Io)),
    ;

    /// Store content for a given package.
    fn store_content(&mut self, package_id: &PackageId, digest: &Digest, content: &[u8]) -> (r: Result<(), ContentStoreError>)
        requires
            old(self).inv(),
            package_id.wf(),
            digest.wf(),
        ensures
            final(self).inv(),
            records_verified(final(self).records()),
            r is Ok ==> digest_of(digest@.0, content@) == digest@.1 && final(self).records() == after_store(
                old(self).records(),
                digest@,
                content@,
            ),
            r is Err ==> final(self).records() == old(self).records(),
            digest_of(digest@.0, content@) != digest@.1 ==> (r matches Err(e) && e.has_kind(
                ErrorKind::IntegrityMismatch,
            )),
            digest_of(digest@.0, content@) == digest@.1 ==> (r matches Err(e) ==> e.has_kind(ErrorKind::Io)),
    ;

    /// Whether content is committed under a digest.
    fn content_present(&self, package_id: &PackageId, digest: &Digest) -> (r: Result<bool, ContentStoreError>)
        requires
            self.inv(),
            package_id.wf(),
            digest.wf(),
        ensures
            r matches Ok(b) ==> b == self.records().contains_key(digest@),
            r matches Err(e) ==> e.has_kind(ErrorKind::Io),
    ;
}

/// Checks the bytes received for a digest before anything is committed: a
/// mismatch is an integrity error.
pub fn check_upload(digest: &Digest, content: &[u8]) -> (r: Result<(), ContentStoreError>)
    ensures
        r is Ok <==> digest_of(digest@.0, content@) == digest@.1,
        r matches Err(e) ==> e.has_kind(ErrorKind::IntegrityMismatch),
{
    if digest.matches_content(content) {
        Ok(())
    } else {
        Err(ContentStoreError::internal(ErrorKind::IntegrityMismatch, "content does not match its digest"))
    }
}

} // verus!
