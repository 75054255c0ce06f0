//! Document path parsing and construction: a wire path has the shape
//! `.../documents<parent>/<collection>/<doc-id>`, and parsing splits it at
//! the marker segment and the last two slashes.

use vstd::prelude::*;
use crate::error::{FirestoreError, ValidationError};
use crate::strutil::{matches_at, match_at, last_char_at_or_after, last_char_in_range,
    substring_owned};

verus! {

/// The marker `"/documents"` occurs at position `q`, with at least one more
/// slash somewhere before it.
pub open spec fn doc_marker_at(s: Seq<char>, q: int) -> bool {
    matches_at(s, "/documents"@, q) && exists|j: int| 0 <= j < q && s[j] == '/'
}

/// `q` is the first position where the marker occurs.
pub open spec fn leftmost_doc_marker(s: Seq<char>, q: int) -> bool {
    doc_marker_at(s, q) && forall|p: int| 0 <= p < q ==> !doc_marker_at(s, p)
}

/// The path splits after the leftmost marker at its last two slashes `m` and
/// `l`, leaving a non-empty collection id and a non-empty document id.
pub open spec fn path_split_at(s: Seq<char>, q: int, m: int, l: int) -> bool {
    &&& leftmost_doc_marker(s, q)
    &&& q + "/documents"@.len() <= m
    &&& m < l < s.len()
    &&& s[m] == '/'
    &&& s[l] == '/'
    &&& (forall|j: int| m < j < l ==> s[j] != '/')
    &&& (forall|j: int| l < j < s.len() ==> s[j] != '/')
    &&& l - m > 1
    &&& s.len() - l > 1
}

/// A path parses at all exactly when some such split exists.
pub open spec fn path_parses(s: Seq<char>) -> bool {
    exists|q: int, m: int, l: int| path_split_at(s, q, m, l)
}

/// The parsed components of a split: optional parent path, collection id,
/// document id.
pub open spec fn split_components(
    s: Seq<char>,
    q: int,
    m: int,
    l: int,
    t: (Option<Seq<char>>, Seq<char>, Seq<char>),
) -> bool {
    &&& (match t.0 {
        Some(par) => m > q + "/documents"@.len() && par == s.subrange(
            q + "/documents"@.len(),
            m,
        ),
        None => m == q + "/documents"@.len(),
    })
    &&& t.1 == s.subrange(m + 1, l)
    &&& t.2 == s.subrange(l + 1, s.len() as int)
}

/// View of an optional string.
pub open spec fn opt_string_view(o: Option<String>) -> Option<Seq<char>> {
    match o {
        Some(s) => Some(s@),
        None => None,
    }
}

/// Splits a wire document path into (optional parent path, collection id,
/// document id). Fails exactly when the path does not have the required
/// shape.
pub fn parse_document_path(path: &str) -> (r: Result<
    (Option<String>, String, String),
    FirestoreError,
>)
    ensures
        r matches Ok(t) ==> exists|q: int, m: int, l: int|
            path_split_at(path@, q, m, l) && split_components(
                path@,
                q,
                m,
                l,
                (opt_string_view(t.0), t.1@, t.2@),
            ),
        r is Err <==> !path_parses(path@),
        r matches Err(e) ==> e matches FirestoreError::Validation(
            ValidationError::MalformedDocumentPath(p),
        ) && p@ == path@,
{
    let marker = "/documents";
    proof {
        reveal_strlit("/documents");
    }
    let n = path.unicode_len();
    let mlen = marker.unicode_len();
    let err = || -> (e: FirestoreError)
        ensures
            e matches FirestoreError::Validation(ValidationError::MalformedDocumentPath(p))
                && p@ == path@,
        {
            FirestoreError::Validation(
                ValidationError::MalformedDocumentPath(String::from_str(path)),
            )
        };
    if n < mlen {
        proof {
            assert forall|q: int, m: int, l: int| !path_split_at(path@, q, m, l) by {
                if path_split_at(path@, q, m, l) {
                    assert(doc_marker_at(path@, q));
                }
            }
        }
        return Err(err());
    }
    let qlimit = n - mlen;
    let mut q: usize = 0;
    let mut seen_slash = false;
    let mut found_q: Option<usize> = None;
    while q <= qlimit && found_q.is_none()
        invariant
            q <= qlimit + 1,
            qlimit == n - mlen,
            mlen == "/documents"@.len(),
            marker@ == "/documents"@,
            mlen >= 1,
            n == path@.len(),
            seen_slash == exists|j: int| 0 <= j < q && path@[j] == '/',
            forall|p: int| 0 <= p < q ==> !doc_marker_at(path@, p),
            found_q matches Some(x) ==> leftmost_doc_marker(path@, x as int) && x <= qlimit,
        decreases qlimit + 1 - q + (if found_q is None { 1int } else { 0int }),
    {
        if seen_slash && match_at(path, marker, q) {
            found_q = Some(q);
        } else {
            proof {
                assert(!doc_marker_at(path@, q as int));
            }
            if path.get_char(q) == '/' {
                seen_slash = true;
            }
            q = q + 1;
        }
    }
    match found_q {
        None => {
            proof {
                assert forall|qq: int, m: int, l: int| !path_split_at(path@, qq, m, l) by {
                    if path_split_at(path@, qq, m, l) {
                        assert(doc_marker_at(path@, qq));
                        if qq > qlimit {
                            assert(!matches_at(path@, "/documents"@, qq));
                        }
                    }
                }
            }
            Err(err())
        },
        Some(q0) => {
            let base = q0 + mlen;
            let last = last_char_at_or_after(path, '/', base);
            proof {
                assert forall|qq: int|
                    leftmost_doc_marker(path@, qq) implies qq == q0 as int by {
                    if qq < q0 as int {
                        assert(!doc_marker_at(path@, qq));
                    } else if qq > q0 as int {
                        assert(!doc_marker_at(path@, q0 as int));
                    }
                }
            }
            match last {
                None => {
                    proof {
                        assert forall|qq: int, m: int, l: int|
                            !path_split_at(path@, qq, m, l) by {
                            if path_split_at(path@, qq, m, l) {
                                assert(qq == q0 as int);
                                assert(path@[l] == '/' && base <= l < n);
                            }
                        }
                    }
                    Err(err())
                },
                Some(l0) => {
                    let before = last_char_in_range(path, '/', base, l0);
                    match before {
                        None => {
                            proof {
                                assert forall|qq: int, m: int, l: int|
                                    !path_split_at(path@, qq, m, l) by {
                                    if path_split_at(path@, qq, m, l) {
                                        assert(qq == q0 as int);
                                        if l < l0 as int {
                                            assert(path@[l0 as int] != '/');
                                        } else if l > l0 as int {
                                            assert(path@[l] != '/');
                                        }
                                        assert(l == l0 as int);
                                        assert(path@[m] == '/' && base <= m < l0);
                                    }
                                }
                            }
                            Err(err())
                        },
                        Some(m0) => {
                            if l0 - m0 <= 1 || n - l0 <= 1 {
                                proof {
                                    assert forall|qq: int, m: int, l: int|
                                        !path_split_at(path@, qq, m, l) by {
                                        if path_split_at(path@, qq, m, l) {
                                            assert(qq == q0 as int);
                                            if l < l0 as int {
                                                assert(path@[l0 as int] != '/');
                                            } else if l > l0 as int {
                                                assert(path@[l] != '/');
                                            }
                                            assert(l == l0 as int);
                                            if m < m0 as int {
                                                assert(path@[m0 as int] != '/');
                                            } else if m > m0 as int {
                                                assert(path@[m] != '/');
                                            }
                                            assert(m == m0 as int);
                                        }
                                    }
                                }
                                Err(err())
                            } else {
                                let parent: Option<String> = if m0 > base {
                                    Some(substring_owned(path, base, m0))
                                } else {
                                    None
                                };
                                let collection = substring_owned(path, m0 + 1, l0);
                                let doc = substring_owned(path, l0 + 1, n);
                                proof {
                                    assert(path_split_at(path@, q0 as int, m0 as int, l0 as int));
                                    assert(split_components(
                                        path@,
                                        q0 as int,
                                        m0 as int,
                                        l0 as int,
                                        (opt_string_view(parent), collection@, doc@),
                                    ));
                                }
                                Ok((parent, collection, doc))
                            }
                        },
                    }
                },
            }
        },
    }
}


/// The relative path string `<parent>/<collection>/<doc-id>`, with an empty
/// parent part when there is none.
pub open spec fn rel_path_view(
    parent: Option<Seq<char>>,
    collection: Seq<char>,
    doc: Seq<char>,
) -> Seq<char> {
    (match parent {
        Some(p) => p,
        None => Seq::empty(),
    }) + "/"@ + collection + "/"@ + doc
}

/// Builds the relative path string `<parent>/<collection>/<doc-id>`.
pub fn doc_path(parent: Option<String>, collection_id: String, doc_id: String) -> (r: String)
    ensures
        r@ == rel_path_view(opt_string_view(parent), collection_id@, doc_id@),
{
    let mut s = match parent {
        Some(p) => p,
        None => String::new(),
    };
    s.append("/");
    s.append(collection_id.as_str());
    s.append("/");
    s.append(doc_id.as_str());
    s
}

/// A parsed document path: optional parent path, collection id, document id.
#[derive(PartialEq, Debug)]
pub struct FDocumentPath {
    pub parent_path: Option<String>,
    pub collection_id: String,
    pub document_id: String,
}

impl FDocumentPath {
    /// A path from its three components.
    pub fn new(parent_path: Option<String>, collection_id: String, document_id: String) -> (r:
        Self)
        ensures
            opt_string_view(r.parent_path) == opt_string_view(parent_path),
            r.collection_id@ == collection_id@,
            r.document_id@ == document_id@,
    {
        Self { parent_path, collection_id, document_id }
    }

    /// The relative path string `<parent>/<collection>/<doc-id>`.
    pub fn into_string(self) -> (r: String)
        ensures
            r@ == rel_path_view(
                opt_string_view(self.parent_path),
                self.collection_id@,
                self.document_id@,
            ),
    {
        doc_path(self.parent_path, self.collection_id, self.document_id)
    }

    /// Parses a wire document path. Fails exactly when the path does not have
    /// the required shape.
    pub fn parse(path: &str) -> (r: Result<Self, FirestoreError>)
        ensures
            r matches Ok(t) ==> exists|q: int, m: int, l: int|
                path_split_at(path@, q, m, l) && split_components(
                    path@,
                    q,
                    m,
                    l,
                    (opt_string_view(t.parent_path), t.collection_id@, t.document_id@),
                ),
            r is Err <==> !path_parses(path@),
            r matches Err(e) ==> e matches FirestoreError::Validation(
                ValidationError::MalformedDocumentPath(p),
            ) && p@ == path@,
    {
        match parse_document_path(path) {
            Ok((parent_path, collection_id, document_id)) => Ok(
                FDocumentPath { parent_path, collection_id, document_id },
            ),
            Err(e) => Err(e),
        }
    }
}

} // verus!
