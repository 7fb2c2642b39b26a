//! The local filesystem store's layout and the decisions of its write
//! protocol. The caller does the file I/O: it writes an upload to a temporary
//! file under the root, asks `check_upload` whether the bytes match, and only
//! then renames the file to its content path, in one step.
use vstd::prelude::*;
use vstd::string::{StrSliceExecFns, StringExecFns};

use crate::digest::{
    algorithm_tag, byte_text, canonical_text, hex_text, lemma_hex_text_len, output_len, Digest,
    DigestKey,
};
use crate::error::{ContentStoreError, ErrorKind};

verus! {

/// Where the blob of `key` lives under `root`: two shard directories named by
/// the first two bytes of the hash in hex, then the canonical digest text.
pub open spec fn content_path_text(root: Seq<char>, key: DigestKey) -> Seq<char> {
    root + seq!['/'] + byte_text(key.1[0]) + seq!['/'] + byte_text(key.1[1]) + seq!['/'] + canonical_text(
        key.0,
        key.1,
    )
}

/// The name prefix that marks a temporary upload file.
pub open spec fn temp_prefix() -> Seq<char> {
    seq!['.', 'u', 'p', 'l', 'o', 'a', 'd', '-']
}

/// Where the upload with the unique `token` is written before it is checked.
pub open spec fn temp_path_text(root: Seq<char>, token: Seq<char>) -> Seq<char> {
    root + seq!['/'] + temp_prefix() + token
}

proof fn lemma_shard_text(key: DigestKey)
    requires
        key.1.len() == output_len(key.0),
    ensures
        canonical_text(key.0, key.1).len() == 7 + 2 * key.1.len(),
        canonical_text(key.0, key.1).subrange(7, 9) == byte_text(key.1[0]),
        canonical_text(key.0, key.1).subrange(9, 11) == byte_text(key.1[1]),
{
    let b = key.1;
    let b1 = b.drop_first();
    lemma_hex_text_len(b);
    lemma_hex_text_len(b1.drop_first());
    assert(hex_text(b) == byte_text(b[0]) + hex_text(b1));
    assert(hex_text(b1) == byte_text(b1[0]) + hex_text(b1.drop_first()));
    let t = canonical_text(key.0, key.1);
    assert(t == algorithm_tag(key.0) + seq![':'] + (byte_text(b[0]) + (byte_text(b[1]) + hex_text(
        b1.drop_first(),
    ))));
    assert(t.subrange(7, 9) =~= byte_text(b[0]));
    assert(t.subrange(9, 11) =~= byte_text(b[1]));
}

/// The path of the blob of `digest` under `root`.
pub fn content_path(root: &str, digest: &Digest) -> (r: String)
    requires
        digest.wf(),
    ensures
        r@ == content_path_text(root@, digest@),
{
    let text = digest.to_canonical_string();
    proof {
        lemma_shard_text(digest@);
        reveal_strlit("/");
    }
    let first = text.as_str().substring_char(7, 9);
    let second = text.as_str().substring_char(9, 11);
    let mut path = String::from_str(root);
    path.append("/");
    path.append(first);
    path.append("/");
    path.append(second);
    path.append("/");
    path.append(text.as_str());
    path
}

/// The path of the temporary file for the upload with the unique `token`.
pub fn temp_path(root: &str, token: &str) -> (r: String)
    ensures
        r@ == temp_path_text(root@, token@),
{
    proof {
        reveal_strlit("/.upload-");
    }
    let mut path = String::from_str(root);
    path.append("/.upload-");
    path.append(token);
    assert(path@ =~= temp_path_text(root@, token@));
    path
}

/// How the final rename of a checked upload went.
pub enum RenameOutcome {
    /// The temporary file now stands at the content path.
    Renamed,
    /// Content was already committed at the content path; the temporary file
    /// is discarded.
    AlreadyCommitted,
    /// The filesystem failed, with its message.
    Failed(String),
}

/// The result of a store once its rename was attempted. Content already
/// committed under the digest is the same content, so that is success too.
pub fn commit_result(outcome: RenameOutcome) -> (r: Result<(), ContentStoreError>)
    ensures
        r is Ok <==> !(outcome is Failed),
        outcome matches RenameOutcome::Failed(m) ==> (r matches Err(
            ContentStoreError::ContentStoreInternalError(k, text),
        ) && k == ErrorKind::Io && text@ == m@),
{
    match outcome {
        RenameOutcome::Renamed => Ok(()),
        RenameOutcome::AlreadyCommitted => Ok(()),
        RenameOutcome::Failed(m) => Err(ContentStoreError::ContentStoreInternalError(ErrorKind::Io, m)),
    }
}

/// How opening a content path went.
pub enum OpenOutcome {
    Opened,
    Missing,
    Failed(String),
}

/// The result of a fetch once its content path was opened: a missing file
/// is content not found, never an empty success.
pub fn open_result(digest: &Digest, outcome: OpenOutcome) -> (r: Result<(), ContentStoreError>)
    ensures
        r is Ok <==> outcome is Opened,
        outcome is Missing ==> (r matches Err(ContentStoreError::ContentNotFound(d)) && d@ == digest@),
        outcome matches OpenOutcome::Failed(m) ==> (r matches Err(
            ContentStoreError::ContentStoreInternalError(k, text),
        ) && k == ErrorKind::Io && text@ == m@),
{
    match outcome {
        OpenOutcome::Opened => Ok(()),
        OpenOutcome::Missing => Err(ContentStoreError::ContentNotFound(digest.copied())),
        OpenOutcome::Failed(m) => Err(ContentStoreError::ContentStoreInternalError(ErrorKind::Io, m)),
    }
}

} // verus!
