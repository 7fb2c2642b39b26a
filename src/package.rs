use vstd::prelude::*;
use warg_protocol::registry::PackageName;

use crate::error::{ContentStoreError, ErrorKind};

verus! {

pub open spec fn is_lower_letter(c: char) -> bool {
    'a' <= c && c <= 'z'
}

pub open spec fn is_label_char(c: char) -> bool {
    is_lower_letter(c) || ('0' <= c && c <= '9') || c == '-'
}

/// Lowercase kebab case: words of lowercase letters and digits, each starting
/// with a letter, joined by single dashes.
pub open spec fn is_kebab_label(s: Seq<char>) -> bool {
    &&& s.len() > 0
    &&& is_lower_letter(s[0])
    &&& forall|i: int| 0 <= i < s.len() ==> is_label_char(#[trigger] s[i])
    &&& forall|i: int|
        0 <= i < s.len() && #[trigger] s[i] == '-' ==> i + 1 < s.len() && is_lower_letter(s[i + 1])
}

/// `<namespace>:<name>`, both parts lowercase kebab case.
pub open spec fn is_package_name(s: Seq<char>) -> bool {
    exists|c: int|
        0 <= c < s.len() && #[trigger] s[c] == ':' && is_kebab_label(s.subrange(0, c))
            && is_kebab_label(s.subrange(c + 1, s.len() as int))
}

/// Relies on `PackageName::new` of warg-protocol: it splits at the last `:`,
/// asks both parts to be kebab case without uppercase letters, and keeps the
/// text it was given.
#[verifier::external_body]
fn checked_package_name(s: &str) -> (r: Option<String>)
    ensures
        r is Some <==> is_package_name(s@),
        r matches Some(t) ==> t@ == s@,
{
    match PackageName::new(s) {
        Ok(p) => Some(p.to_string()),
        Err(_) => None,
    }
}

/// A validated package identifier, `<namespace>:<name>`.
///
/// It names the package a blob belongs to, for callers' accounting; it never
/// takes part in where content is stored.
#[derive(Clone, Debug)]
pub struct PackageId {
    name: String,
}

impl View for PackageId {
    type V = Seq<char>;

    closed spec fn view(&self) -> Seq<char> {
        self.name@
    }
}

impl PackageId {
    pub open spec fn wf(&self) -> bool {
        is_package_name(self@)
    }

    /// Parses a package identifier; malformed text is an invalid identifier.
    pub fn parse(s: &str) -> (r: Result<PackageId, ContentStoreError>)
        ensures
            r is Ok <==> is_package_name(s@),
            r matches Ok(p) ==> p.wf() && p@ == s@,
            r matches Err(e) ==> e.has_kind(ErrorKind::InvalidIdentifier),
    {
        match checked_package_name(s) {
            Some(name) => Ok(PackageId { name }),
            None => Err(ContentStoreError::internal(ErrorKind::InvalidIdentifier, "malformed package id")),
        }
    }

    pub fn as_str(&self) -> (r: &str)
        ensures
            r@ == self@,
    {
        self.name.as_str()
    }
}

} // verus!
