//! Convenience constructors for write operations addressed by
//! (parent, collection, document id) parts.

use vstd::prelude::*;
use crate::fields::FFields;
use crate::path::{doc_path, opt_string_view, rel_path_view};
use crate::request::{DocumentWriteOperation, create_rel_path, partial_path_ok};
use crate::wire::{wire_entry_seq_view, wire_of_val};

verus! {

/// A create of a new document under `(parent, collection, doc id)`.
pub fn new_write_ope_create(
    parent: Option<String>,
    collection_id: String,
    doc_id: String,
    doc: FFields,
) -> (r: DocumentWriteOperation)
    requires
        doc.depth_ok(),
    ensures
        r.document_path@ == create_rel_path(opt_string_view(parent), collection_id@, doc_id@),
        r.operation matches crate::request::WriteOperation::Create(f) && wire_entry_seq_view(
            f@,
        ).len() == doc.pairs().len() && forall|i: int|
            0 <= i < doc.pairs().len() ==> wire_entry_seq_view(f@)[i] == (
                doc.pairs()[i].0,
                wire_of_val(doc.pairs()[i].1),
            ),
        r.update_field_mask is None,
{
    DocumentWriteOperation::new_create(parent, collection_id, doc_id, doc)
}

/// An update of the document at `(parent, collection, doc id)`, limited to
/// the given field mask; without a mask it replaces the whole field set.
pub fn new_write_ope_update(
    parent: Option<String>,
    collection_id: String,
    doc_id: String,
    update_field_mask: Option<Vec<String>>,
    doc: FFields,
) -> (r: DocumentWriteOperation)
    requires
        doc.depth_ok(),
        partial_path_ok(rel_path_view(opt_string_view(parent), collection_id@, doc_id@)),
    ensures
        r.document_path@ == rel_path_view(opt_string_view(parent), collection_id@, doc_id@),
        r.operation matches crate::request::WriteOperation::Update(f) && wire_entry_seq_view(
            f@,
        ).len() == doc.pairs().len() && forall|i: int|
            0 <= i < doc.pairs().len() ==> wire_entry_seq_view(f@)[i] == (
                doc.pairs()[i].0,
                wire_of_val(doc.pairs()[i].1),
            ),
        r.update_field_mask == update_field_mask,
{
    DocumentWriteOperation::new_update(
        doc_path(parent, collection_id, doc_id),
        doc,
        update_field_mask,
    )
}

/// An upsert of the whole document at `(parent, collection, doc id)`.
pub fn new_write_ope_upsert(
    parent: Option<String>,
    collection_id: String,
    doc_id: String,
    doc: FFields,
) -> (r: DocumentWriteOperation)
    requires
        doc.depth_ok(),
        partial_path_ok(rel_path_view(opt_string_view(parent), collection_id@, doc_id@)),
    ensures
        r.document_path@ == rel_path_view(opt_string_view(parent), collection_id@, doc_id@),
        r.operation matches crate::request::WriteOperation::Update(f) && wire_entry_seq_view(
            f@,
        ).len() == doc.pairs().len() && forall|i: int|
            0 <= i < doc.pairs().len() ==> wire_entry_seq_view(f@)[i] == (
                doc.pairs()[i].0,
                wire_of_val(doc.pairs()[i].1),
            ),
        r.update_field_mask is None,
{
    DocumentWriteOperation::new_upsert(doc_path(parent, collection_id, doc_id), doc)
}

/// A delete of the document at `(parent, collection, doc id)`.
pub fn new_write_ope_delete(
    parent: Option<String>,
    collection_id: String,
    doc_id: String,
) -> (r: DocumentWriteOperation)
    requires
        partial_path_ok(rel_path_view(opt_string_view(parent), collection_id@, doc_id@)),
    ensures
        r.document_path@ == rel_path_view(opt_string_view(parent), collection_id@, doc_id@),
        r.operation is Delete,
        r.update_field_mask is None,
{
    DocumentWriteOperation::new_delete(doc_path(parent, collection_id, doc_id))
}

} // verus!
