//! Documents: a parsed document path paired with a field set, built from a
//! wire response.

use vstd::prelude::*;
use crate::error::{FirestoreError, SerdeError, ValidationError};
use crate::fields::{FFields, fields_of_wire};
use crate::path::{FDocumentPath, path_parses, path_split_at, split_components, opt_string_view};
use crate::request::Document;
use crate::value::{FValue, Val};
use crate::wire::wire_entry_seq_view;

verus! {

/// A document the client works with: its parsed path and its field set.
pub struct FDocument {
    pub doc_path: FDocumentPath,
    pub fields: FFields,
}

impl FDocument {
    /// Builds a document from a wire response: the resource name must parse
    /// as a document path, and every field value must be of a supported wire
    /// kind.
    pub fn from_document(document: Document) -> (r: Result<FDocument, FirestoreError>)
        ensures
            r matches Ok(d) ==> (exists|q: int, m: int, l: int|
                path_split_at(document.name@, q, m, l) && split_components(
                    document.name@,
                    q,
                    m,
                    l,
                    (
                        opt_string_view(d.doc_path.parent_path),
                        d.doc_path.collection_id@,
                        d.doc_path.document_id@,
                    ),
                )) && Some(d.fields@) == fields_of_wire(wire_entry_seq_view(document.fields@)),
            r is Err <==> !path_parses(document.name@) || fields_of_wire(
                wire_entry_seq_view(document.fields@),
            ) is None,
            r matches Err(e) ==> match e {
                FirestoreError::Validation(ValidationError::MalformedDocumentPath(_)) =>
                    !path_parses(document.name@),
                FirestoreError::Serialization(se) => se is InvalidFValueVariable,
                _ => false,
            },
    {
        let doc_path = match FDocumentPath::parse(document.name.as_str()) {
            Ok(p) => p,
            Err(e) => {
                return Err(e);
            },
        };
        match FFields::from_grpc_fields(document.fields) {
            Ok(fields) => Ok(FDocument { doc_path, fields }),
            Err(se) => Err(FirestoreError::Serialization(se)),
        }
    }

    /// Splits the document into its path and its fields as one map-shaped
    /// value.
    pub fn to_path_and_fvalue(self) -> (r: (FDocumentPath, FValue))
        ensures
            r.0 == self.doc_path,
            r.1@ == Val::MapVal(self.fields.pairs()),
    {
        let fvalue = self.fields.as_fvalue();
        (self.doc_path, fvalue)
    }
}

} // verus!
