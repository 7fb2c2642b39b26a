//! Properties of content stores, stated over the records that the
//! `ContentStore` contract speaks of.
use vstd::prelude::*;

use crate::digest::{
    canonical_text, digest_from_text, digest_of, hex_digit, hex_text, is_canonical_digest_text, is_digest_text,
    lemma_hex_round_trip, lemma_hex_text_len, output_len, DigestKey,
};
use crate::local::{content_path_text, temp_path_text};
use crate::package::{is_kebab_label, is_package_name};
use crate::store::{after_store, fetched, records_verified, Records};

verus! {

/// Storing bytes that hash to their digest and then fetching that digest
/// gives back those bytes, provided no other bytes were committed under the
/// same digest before.
pub proof fn lemma_store_then_fetch(m: Records, key: DigestKey, content: Seq<u8>)
    requires
        digest_of(key.0, content) == key.1,
        m.contains_key(key) ==> m[key] == content,
    ensures
        fetched(after_store(m, key, content), key) == Some(content),
{
}

/// A digest is absent until a store of it succeeds and present right after;
/// a store of another digest does not change whether it is present.
pub proof fn lemma_presence_after_store(m: Records, key: DigestKey, stored: DigestKey, content: Seq<u8>)
    ensures
        after_store(m, stored, content).contains_key(stored),
        after_store(m, stored, content).contains_key(key) <==> (m.contains_key(key) || key == stored),
{
}

/// In verified records, no digest ever holds bytes that do not hash to it:
/// content that fails its integrity check is never committed or fetched.
pub proof fn lemma_mismatch_never_committed(m: Records, key: DigestKey, content: Seq<u8>)
    requires
        records_verified(m),
        digest_of(key.0, content) != key.1,
    ensures
        fetched(m, key) != Some(content),
{
}

/// Storing the same bytes under the same digest twice leaves the records as
/// one store does, and a fetch still gives the bytes first committed.
pub proof fn lemma_store_idempotent(m: Records, key: DigestKey, content: Seq<u8>)
    ensures
        after_store(after_store(m, key, content), key, content) == after_store(m, key, content),
        m.contains_key(key) ==> fetched(after_store(m, key, content), key) == fetched(m, key),
{
}

/// A successful store keeps every committed blob hashing to its digest.
pub proof fn lemma_store_keeps_records_verified(m: Records, key: DigestKey, content: Seq<u8>)
    requires
        records_verified(m),
        digest_of(key.0, content) == key.1,
    ensures
        records_verified(after_store(m, key, content)),
{
}

/// Two stores end in the same records in either order, unless they put
/// different bytes under one digest: concurrent stores of one blob agree
/// whichever commits first.
pub proof fn lemma_stores_commute(m: Records, k1: DigestKey, c1: Seq<u8>, k2: DigestKey, c2: Seq<u8>)
    requires
        k1 == k2 ==> c1 == c2,
    ensures
        after_store(after_store(m, k1, c1), k2, c2) == after_store(after_store(m, k2, c2), k1, c1),
{
    assert(after_store(after_store(m, k1, c1), k2, c2) =~= after_store(after_store(m, k2, c2), k1, c1));
}

/// A digest that was never stored is fetched as nothing, not as empty bytes.
pub proof fn lemma_unknown_digest_not_found(m: Records, key: DigestKey)
    requires
        !m.contains_key(key),
    ensures
        fetched(m, key) is None,
{
}

/// Text holding a path separator or a dot is neither a digest nor a package
/// identifier, so it is refused before any path is built from it.
pub proof fn lemma_traversal_text_rejected(s: Seq<char>, i: int)
    requires
        0 <= i < s.len(),
        s[i] == '/' || s[i] == '.' || s[i] == '\\',
    ensures
        !is_digest_text(s),
        !is_package_name(s),
{
    if is_digest_text(s) {
        if i < 6 {
            assert(s.subrange(0, 6)[i] == s[i]);
        }
    }
    if is_package_name(s) {
        let c = choose|c: int|
            0 <= c < s.len() && #[trigger] s[c] == ':' && is_kebab_label(s.subrange(0, c))
                && is_kebab_label(s.subrange(c + 1, s.len() as int));
        if i < c {
            assert(s.subrange(0, c)[i] == s[i]);
        } else if i > c {
            assert(s.subrange(c + 1, s.len() as int)[i - c - 1] == s[i]);
        }
    }
}

/// A temporary upload file never stands at a content path, so no reader of
/// a content path can see an upload that is still being written or checked.
pub proof fn lemma_temp_path_is_not_content_path(root: Seq<char>, token: Seq<char>, key: DigestKey)
    requires
        key.1.len() == output_len(key.0),
    ensures
        temp_path_text(root, token) != content_path_text(root, key),
{
    let at = root.len() as int + 1;
    assert(temp_path_text(root, token)[at] == '.');
    let v = key.1[0] as int / 16;
    assert(content_path_text(root, key)[at] == hex_digit(v));
    assert(hex_digit(v) != '.');
}

/// The canonical text of a digest parses back to that digest.
pub proof fn lemma_canonical_text_parses_back(key: DigestKey)
    requires
        key.1.len() == output_len(key.0),
    ensures
        is_canonical_digest_text(canonical_text(key.0, key.1)),
        digest_from_text(canonical_text(key.0, key.1)) == key,
{
    let t = canonical_text(key.0, key.1);
    lemma_hex_round_trip(key.1);
    lemma_hex_text_len(key.1);
    assert(t.subrange(7, t.len() as int) =~= hex_text(key.1));
    assert(t.subrange(0, 6) =~= seq!['s', 'h', 'a', '2', '5', '6']);
    assert forall|i: int| 7 <= i < t.len() implies crate::digest::is_lower_hex(#[trigger] t[i]) by {
        assert(t[i] == hex_text(key.1)[i - 7]);
    }
}

} // verus!
