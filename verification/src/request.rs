//! Construction of the request payloads the RPC collaborator accepts: fully
//! qualified resource paths, document masks, documents and write operations.

use vstd::prelude::*;
use crate::fields::FFields;
use crate::strutil::{contains_seq, str_contains};
use crate::value::FTimestamp;
use crate::wire::{WireEntry, wire_entry_seq_view, wire_of_val};

verus! {

/// The view of a vector of strings: the sequence of their character
/// sequences.
pub open spec fn strings_view(s: Seq<String>) -> Seq<Seq<char>> {
    s.map_values(|x: String| x@)
}

/// A relative document path is non-empty, starts with a slash and does not
/// itself contain the `"/documents"` marker segment.
pub open spec fn partial_path_ok(s: Seq<char>) -> bool {
    &&& s.len() > 0
    &&& s[0] == '/'
    &&& !contains_seq(s, "/documents"@)
}

/// Checks one relative document path against the path grammar.
pub fn validate_partial_document_path(document_path: &str) -> (r: bool)
    ensures
        r == partial_path_ok(document_path@),
{
    let n = document_path.unicode_len();
    if n == 0 {
        return false;
    }
    if document_path.get_char(0) != '/' {
        return false;
    }
    !str_contains(document_path, "/documents")
}

/// Checks every path of a list against the path grammar.
pub fn validate_partial_document_paths(document_paths: &Vec<String>) -> (r: bool)
    ensures
        r == forall|i: int|
            0 <= i < document_paths@.len() ==> partial_path_ok(document_paths@[i]@),
{
    let n = document_paths.len();
    let mut i: usize = 0;
    while i < n
        invariant
            i <= n,
            n == document_paths@.len(),
            forall|j: int| 0 <= j < i ==> partial_path_ok(document_paths@[j]@),
        decreases n - i,
    {
        if !validate_partial_document_path(document_paths[i].as_str()) {
            return false;
        }
        i = i + 1;
    }
    true
}

/// The resource name of a project's default database.
pub open spec fn database_path(project: Seq<char>) -> Seq<char> {
    "projects/"@ + project + "/databases/"@ + "(default)"@
}

/// The fully qualified path of a document: the database's documents root
/// followed by the relative path.
pub open spec fn full_doc_path(project: Seq<char>, path: Seq<char>) -> Seq<char> {
    "projects/"@ + project + "/databases/(default)/documents"@ + path
}

/// The default database id.
pub fn default_database() -> (r: String)
    ensures
        r@ == "(default)"@,
{
    String::from_str("(default)")
}

/// Builds the resource name of a project's default database.
pub fn project_and_default_database(project_id: String) -> (r: String)
    ensures
        r@ == database_path(project_id@),
{
    let mut s = String::from_str("projects/");
    s.append(project_id.as_str());
    s.append("/databases/");
    s.append("(default)");
    s
}

/// Builds the fully qualified path of a document.
pub fn fmt_document_path(project_id: &str, document_path: &str) -> (r: String)
    ensures
        r@ == full_doc_path(project_id@, document_path@),
{
    let mut s = String::from_str("projects/");
    s.append(project_id);
    s.append("/databases/(default)/documents");
    s.append(document_path);
    s
}

/// A field mask: the list of field paths a read or update is limited to.
#[derive(PartialEq, Debug)]
pub struct DocumentMask {
    pub field_paths: Vec<String>,
}

/// Wraps an optional field path list as an optional mask.
pub fn to_document_mask(mask: Option<Vec<String>>) -> (r: Option<DocumentMask>)
    ensures
        match (r, mask) {
            (Some(m), Some(v)) => m.field_paths == v,
            (None, None) => true,
            _ => false,
        },
{
    match mask {
        Some(ms) => Some(DocumentMask { field_paths: ms }),
        None => None,
    }
}

/// A document as the wire format carries it: resource name, wire fields and
/// server-set times.
#[derive(PartialEq, Debug)]
pub struct Document {
    pub name: String,
    pub fields: Vec<WireEntry>,
    pub create_time: Option<FTimestamp>,
    pub update_time: Option<FTimestamp>,
}

/// Builds a wire document from a resource name and a field set; the values
/// must nest within the depth limit.
pub fn new_document(name: String, fields: FFields) -> (r: Document)
    requires
        fields.depth_ok(),
    ensures
        r.name == name,
        wire_entry_seq_view(r.fields@).len() == fields.pairs().len(),
        forall|i: int|
            0 <= i < fields.pairs().len() ==> wire_entry_seq_view(r.fields@)[i] == (
                fields.pairs()[i].0,
                wire_of_val(fields.pairs()[i].1),
            ),
        r.create_time is None,
        r.update_time is None,
{
    Document { name, fields: fields.to_grpc_fields(), create_time: None, update_time: None }
}


/// The relative path a create operation targets, assembled from its parts.
pub open spec fn create_rel_path(
    parent: Option<Seq<char>>,
    collection: Seq<char>,
    doc: Seq<char>,
) -> Seq<char> {
    (match parent {
        Some(p) => "/"@ + p,
        None => Seq::empty(),
    }) + "/"@ + collection + "/"@ + doc
}

/// What one pending write does to its target document.
#[derive(PartialEq, Debug)]
pub enum WriteOperation {
    Create(Vec<WireEntry>),
    Update(Vec<WireEntry>),
    Delete,
}

/// One pending write: a target path, what to do there, and an optional
/// update mask.
#[derive(PartialEq, Debug)]
pub struct DocumentWriteOperation {
    pub document_path: String,
    pub operation: WriteOperation,
    pub update_field_mask: Option<Vec<String>>,
}

/// The wire form of one write: either a full document to set or a path to
/// delete.
#[derive(PartialEq, Debug)]
pub enum Operation {
    Update(Document),
    Delete(String),
}

/// One write as the wire format carries it.
#[derive(PartialEq, Debug)]
pub struct Write {
    pub operation: Option<Operation>,
    pub update_mask: Option<DocumentMask>,
}

/// The server's result for one write.
#[derive(PartialEq, Debug)]
pub struct WriteResult {
    pub transform_results: Vec<crate::wire::WireValue>,
    pub update_time: Option<FTimestamp>,
}

/// The wire write `w` carries exactly the pending write `o`, addressed under
/// the given project.
pub open spec fn write_describes(
    project: Seq<char>,
    o: DocumentWriteOperation,
    w: Write,
) -> bool {
    let full = full_doc_path(project, o.document_path@);
    &&& (match (o.operation, w.operation) {
        (WriteOperation::Create(f), Some(Operation::Update(d))) => d.name@ == full && d.fields
            == f && d.create_time is None && d.update_time is None,
        (WriteOperation::Update(f), Some(Operation::Update(d))) => d.name@ == full && d.fields
            == f && d.create_time is None && d.update_time is None,
        (WriteOperation::Delete, Some(Operation::Delete(p))) => p@ == full,
        _ => false,
    })
    &&& (match (o.update_field_mask, w.update_mask) {
        (Some(v), Some(m)) => m.field_paths == v,
        (None, None) => true,
        _ => false,
    })
}

impl DocumentWriteOperation {
    /// A create of a new document under `(parent, collection, doc id)`; the
    /// field values must nest within the depth limit.
    pub fn new_create(
        parent_path: Option<String>,
        collection_id: String,
        doc_id: String,
        fields: FFields,
    ) -> (r: Self)
        requires
            fields.depth_ok(),
        ensures
            r.document_path@ == create_rel_path(
                match parent_path {
                    Some(p) => Some(p@),
                    None => None,
                },
                collection_id@,
                doc_id@,
            ),
            r.operation matches WriteOperation::Create(f) && wire_entry_seq_view(f@).len()
                == fields.pairs().len() && forall|i: int|
                0 <= i < fields.pairs().len() ==> wire_entry_seq_view(f@)[i] == (
                    fields.pairs()[i].0,
                    wire_of_val(fields.pairs()[i].1),
                ),
            r.update_field_mask is None,
    {
        let mut path = match parent_path {
            Some(p) => {
                let mut s = String::from_str("/");
                s.append(p.as_str());
                s
            },
            None => String::new(),
        };
        path.append("/");
        path.append(collection_id.as_str());
        path.append("/");
        path.append(doc_id.as_str());
        DocumentWriteOperation {
            document_path: path,
            operation: WriteOperation::Create(fields.to_grpc_fields()),
            update_field_mask: None,
        }
    }

    /// An upsert: sets the whole document at the target path.
    pub fn new_upsert(document_path: String, fields: FFields) -> (r: Self)
        requires
            partial_path_ok(document_path@),
            fields.depth_ok(),
        ensures
            r.document_path == document_path,
            r.operation matches WriteOperation::Update(f) && wire_entry_seq_view(f@).len()
                == fields.pairs().len() && forall|i: int|
                0 <= i < fields.pairs().len() ==> wire_entry_seq_view(f@)[i] == (
                    fields.pairs()[i].0,
                    wire_of_val(fields.pairs()[i].1),
                ),
            r.update_field_mask is None,
    {
        DocumentWriteOperation {
            document_path,
            operation: WriteOperation::Update(fields.to_grpc_fields()),
            update_field_mask: None,
        }
    }

    /// An update limited to the given field mask; without a mask it replaces
    /// the whole field set.
    pub fn new_update(
        document_path: String,
        fields: FFields,
        update_field_mask: Option<Vec<String>>,
    ) -> (r: Self)
        requires
            partial_path_ok(document_path@),
            fields.depth_ok(),
        ensures
            r.document_path == document_path,
            r.operation matches WriteOperation::Update(f) && wire_entry_seq_view(f@).len()
                == fields.pairs().len() && forall|i: int|
                0 <= i < fields.pairs().len() ==> wire_entry_seq_view(f@)[i] == (
                    fields.pairs()[i].0,
                    wire_of_val(fields.pairs()[i].1),
                ),
            r.update_field_mask == update_field_mask,
    {
        DocumentWriteOperation {
            document_path,
            operation: WriteOperation::Update(fields.to_grpc_fields()),
            update_field_mask,
        }
    }

    /// A delete of the document at the target path.
    pub fn new_delete(document_path: String) -> (r: Self)
        requires
            partial_path_ok(document_path@),
        ensures
            r.document_path == document_path,
            r.operation is Delete,
            r.update_field_mask is None,
    {
        DocumentWriteOperation {
            document_path,
            operation: WriteOperation::Delete,
            update_field_mask: None,
        }
    }

    /// The wire operation and mask of this pending write, addressed under the
    /// given project.
    pub fn into_operation_and_mask(self, project_id: String) -> (r: (
        Operation,
        Option<DocumentMask>,
    ))
        ensures
            write_describes(
                project_id@,
                self,
                Write { operation: Some(r.0), update_mask: r.1 },
            ),
    {
        let full_document_path = fmt_document_path(project_id.as_str(), self.document_path.as_str());
        let operation = match self.operation {
            WriteOperation::Create(values) => Operation::Update(
                Document {
                    name: full_document_path,
                    fields: values,
                    create_time: None,
                    update_time: None,
                },
            ),
            WriteOperation::Update(values) => Operation::Update(
                Document {
                    name: full_document_path,
                    fields: values,
                    create_time: None,
                    update_time: None,
                },
            ),
            WriteOperation::Delete => Operation::Delete(full_document_path),
        };
        (operation, to_document_mask(self.update_field_mask))
    }

    /// This pending write as the wire format carries it.
    pub fn into_write(self, project_id: String) -> (r: Write)
        ensures
            write_describes(project_id@, self, r),
    {
        let (operation, mask) = self.into_operation_and_mask(project_id);
        Write { operation: Some(operation), update_mask: mask }
    }

    /// All pending writes as the wire format carries them, in order.
    pub fn into_writes(project_id: String, operations: Vec<DocumentWriteOperation>) -> (r: Vec<
        Write,
    >)
        ensures
            r@.len() == operations@.len(),
            forall|i: int|
                0 <= i < operations@.len() ==> write_describes(
                    project_id@,
                    operations@[i],
                    r@[i],
                ),
    {
        let ghost orig: Seq<DocumentWriteOperation> = operations@;
        let mut rest = operations;
        let mut out: Vec<Write> = Vec::new();
        let n = rest.len();
        let mut i: usize = 0;
        while rest.len() > 0
            invariant
                i + rest@.len() == n,
                n == orig.len(),
                forall|j: int| 0 <= j < rest@.len() ==> rest@[j] == orig[i + j],
                out@.len() == i,
                forall|j: int| 0 <= j < i ==> write_describes(project_id@, orig[j], out@[j]),
            decreases rest.len(),
        {
            let o = rest.remove(0);
            out.push(o.into_write(project_id.clone()));
            i = i + 1;
        }
        out
    }
}


/// A request to list the collection ids under a document path.
#[derive(PartialEq, Debug)]
pub struct ListCollectionIdsRequest {
    pub parent: String,
    pub page_size: i32,
    pub page_token: String,
}

/// Builds a collection-ids listing request; the chunk size falls back to 100.
pub fn new_collection_ids_request(
    project_id: String,
    document_path: String,
    chunk_size: Option<i32>,
    page_token: String,
) -> (r: ListCollectionIdsRequest)
    ensures
        r.parent@ == full_doc_path(project_id@, document_path@),
        r.page_size == (match chunk_size {
            Some(c) => c,
            None => 100,
        }),
        r.page_token == page_token,
{
    ListCollectionIdsRequest {
        parent: fmt_document_path(project_id.as_str(), document_path.as_str()),
        page_size: match chunk_size {
            Some(c) => c,
            None => 100,
        },
        page_token,
    }
}

/// A request to read one document.
#[derive(PartialEq, Debug)]
pub struct GetDocumentRequest {
    pub name: String,
    pub mask: Option<DocumentMask>,
    pub transaction: Option<Vec<u8>>,
}

/// Builds a single-document read request.
pub fn new_get_document_request(
    project_id: String,
    document_path: String,
    field_mask: Option<Vec<String>>,
    transaction: Option<Vec<u8>>,
) -> (r: GetDocumentRequest)
    requires
        partial_path_ok(document_path@),
    ensures
        r.name@ == full_doc_path(project_id@, document_path@),
        match (r.mask, field_mask) {
            (Some(m), Some(v)) => m.field_paths == v,
            (None, None) => true,
            _ => false,
        },
        r.transaction == transaction,
{
    GetDocumentRequest {
        name: fmt_document_path(project_id.as_str(), document_path.as_str()),
        mask: to_document_mask(field_mask),
        transaction,
    }
}

/// A request to delete one document.
#[derive(PartialEq, Debug)]
pub struct DeleteDocumentRequest {
    pub name: String,
}

/// Builds a single-document delete request.
pub fn new_delete_document_request(project_id: String, document_path: String) -> (r:
    DeleteDocumentRequest)
    requires
        partial_path_ok(document_path@),
    ensures
        r.name@ == full_doc_path(project_id@, document_path@),
{
    DeleteDocumentRequest {
        name: fmt_document_path(project_id.as_str(), document_path.as_str()),
    }
}

/// A request for one chunk of a document listing.
#[derive(PartialEq, Debug)]
pub struct ListDocumentsRequest {
    pub parent: String,
    pub collection_id: String,
    pub page_size: i32,
    pub page_token: String,
    pub order_by: String,
    pub mask: Option<DocumentMask>,
    pub show_missing: bool,
    pub transaction: Option<Vec<u8>>,
}

/// Builds a document listing request; the chunk size falls back to 100 and
/// the ordering to none.
pub fn new_list_document_request(
    project_id: String,
    document_path: String,
    collection_id: String,
    page_token: String,
    order_by: Option<String>,
    chunk_size: Option<i32>,
    field_mask: Option<Vec<String>>,
    transaction: Option<Vec<u8>>,
) -> (r: ListDocumentsRequest)
    ensures
        r.parent@ == full_doc_path(project_id@, document_path@),
        r.collection_id == collection_id,
        r.page_size == (match chunk_size {
            Some(c) => c,
            None => 100,
        }),
        r.page_token == page_token,
        r.order_by@ == (match order_by {
            Some(o) => o@,
            None => Seq::<char>::empty(),
        }),
        match (r.mask, field_mask) {
            (Some(m), Some(v)) => m.field_paths == v,
            (None, None) => true,
            _ => false,
        },
        r.show_missing == false,
        r.transaction == transaction,
{
    ListDocumentsRequest {
        parent: fmt_document_path(project_id.as_str(), document_path.as_str()),
        collection_id,
        page_size: match chunk_size {
            Some(c) => c,
            None => 100,
        },
        page_token,
        order_by: match order_by {
            Some(o) => o,
            None => String::new(),
        },
        mask: to_document_mask(field_mask),
        show_missing: false,
        transaction,
    }
}

/// A request to read a batch of documents.
#[derive(PartialEq, Debug)]
pub struct BatchGetDocumentsRequest {
    pub database: String,
    pub documents: Vec<String>,
    pub mask: Option<DocumentMask>,
    pub transaction: Option<Vec<u8>>,
}

/// Builds a batched read request, fully qualifying every requested path.
pub fn new_batch_get_documents_request(
    project_id: String,
    document_paths: Vec<String>,
    field_mask: Option<Vec<String>>,
    transaction: Option<Vec<u8>>,
) -> (r: BatchGetDocumentsRequest)
    requires
        forall|i: int| 0 <= i < document_paths@.len() ==> partial_path_ok(document_paths@[i]@),
    ensures
        r.database@ == database_path(project_id@),
        r.documents@.len() == document_paths@.len(),
        forall|i: int|
            0 <= i < document_paths@.len() ==> r.documents@[i]@ == full_doc_path(
                project_id@,
                document_paths@[i]@,
            ),
        match (r.mask, field_mask) {
            (Some(m), Some(v)) => m.field_paths == v,
            (None, None) => true,
            _ => false,
        },
        r.transaction == transaction,
{
    let database = project_and_default_database(project_id.clone());
    let mut documents: Vec<String> = Vec::new();
    let n = document_paths.len();
    let mut i: usize = 0;
    while i < n
        invariant
            i <= n,
            n == document_paths@.len(),
            documents@.len() == i,
            forall|j: int|
                0 <= j < i ==> documents@[j]@ == full_doc_path(
                    project_id@,
                    document_paths@[j]@,
                ),
        decreases n - i,
    {
        documents.push(
            fmt_document_path(project_id.as_str(), document_paths[i].as_str()),
        );
        i = i + 1;
    }
    BatchGetDocumentsRequest {
        database,
        documents,
        mask: to_document_mask(field_mask),
        transaction,
    }
}

/// A request to update one document.
#[derive(PartialEq, Debug)]
pub struct UpdateDocumentRequest {
    pub document: Option<Document>,
    pub update_mask: Option<DocumentMask>,
    pub mask: Option<DocumentMask>,
}

/// Builds an update request. Without an update mask the server replaces the
/// whole field set of the target: fields absent from the payload are removed.
pub fn new_update_document_request(
    project_id: String,
    document_path: String,
    values: FFields,
    update_field_mask: Option<Vec<String>>,
    response_field_mask: Option<Vec<String>>,
) -> (r: UpdateDocumentRequest)
    requires
        values.depth_ok(),
    ensures
        r.document matches Some(d) && d.name@ == full_doc_path(project_id@, document_path@)
            && wire_entry_seq_view(d.fields@).len() == values.pairs().len() && forall|i: int|
            0 <= i < values.pairs().len() ==> wire_entry_seq_view(d.fields@)[i] == (
                values.pairs()[i].0,
                wire_of_val(values.pairs()[i].1),
            ),
        match (r.update_mask, update_field_mask) {
            (Some(m), Some(v)) => m.field_paths == v,
            (None, None) => true,
            _ => false,
        },
        match (r.mask, response_field_mask) {
            (Some(m), Some(v)) => m.field_paths == v,
            (None, None) => true,
            _ => false,
        },
{
    let name = fmt_document_path(project_id.as_str(), document_path.as_str());
    UpdateDocumentRequest {
        document: Some(new_document(name, values)),
        update_mask: to_document_mask(update_field_mask),
        mask: to_document_mask(response_field_mask),
    }
}

/// A request to create one document.
#[derive(PartialEq, Debug)]
pub struct CreateDocumentRequest {
    pub parent: String,
    pub collection_id: String,
    pub document_id: String,
    pub document: Option<Document>,
    pub mask: Option<DocumentMask>,
}

/// Builds a create request; the new document is sent without a resource
/// name, which the server assigns.
pub fn new_create_document_request(
    project_id: String,
    parent_path: String,
    collection_id: String,
    document_id: String,
    values: FFields,
    response_field_mask: Option<Vec<String>>,
) -> (r: CreateDocumentRequest)
    requires
        values.depth_ok(),
    ensures
        r.parent@ == full_doc_path(project_id@, parent_path@),
        r.collection_id == collection_id,
        r.document_id == document_id,
        r.document matches Some(d) && d.name@ == Seq::<char>::empty()
            && wire_entry_seq_view(d.fields@).len() == values.pairs().len() && forall|i: int|
            0 <= i < values.pairs().len() ==> wire_entry_seq_view(d.fields@)[i] == (
                values.pairs()[i].0,
                wire_of_val(values.pairs()[i].1),
            ),
        match (r.mask, response_field_mask) {
            (Some(m), Some(v)) => m.field_paths == v,
            (None, None) => true,
            _ => false,
        },
{
    let parent = fmt_document_path(project_id.as_str(), parent_path.as_str());
    CreateDocumentRequest {
        parent,
        collection_id,
        document_id,
        document: Some(new_document(String::new(), values)),
        mask: to_document_mask(response_field_mask),
    }
}

/// A request to apply a batch of writes outside a transaction.
#[derive(PartialEq, Debug)]
pub struct BatchWriteRequest {
    pub database: String,
    pub writes: Vec<Write>,
}

/// Builds a batch-write request carrying every pending write, in order.
pub fn new_batch_write_request(
    project_id: String,
    operations: Vec<DocumentWriteOperation>,
) -> (r: BatchWriteRequest)
    ensures
        r.database@ == database_path(project_id@),
        r.writes@.len() == operations@.len(),
        forall|i: int|
            0 <= i < operations@.len() ==> write_describes(
                project_id@,
                operations@[i],
                r.writes@[i],
            ),
{
    let database = project_and_default_database(project_id.clone());
    BatchWriteRequest {
        database,
        writes: DocumentWriteOperation::into_writes(project_id, operations),
    }
}

/// How a transaction reads: read-write, or read-only as of an optional past
/// time.
#[derive(PartialEq, Debug)]
pub enum TransactionMode {
    ReadWrite,
    ReadOnlyAt(FTimestamp),
}

/// A request to begin a transaction.
#[derive(PartialEq, Debug)]
pub struct BeginTransactionRequest {
    pub database: String,
    pub mode: TransactionMode,
}

/// Builds a begin-transaction request: read-only as of the given time when
/// one is passed, read-write otherwise.
pub fn new_begin_transaction_request(
    project_id: String,
    read_only_time: Option<FTimestamp>,
) -> (r: BeginTransactionRequest)
    ensures
        r.database@ == database_path(project_id@),
        r.mode == (match read_only_time {
            Some(t) => TransactionMode::ReadOnlyAt(t),
            None => TransactionMode::ReadWrite,
        }),
{
    BeginTransactionRequest {
        database: project_and_default_database(project_id),
        mode: match read_only_time {
            Some(t) => TransactionMode::ReadOnlyAt(t),
            None => TransactionMode::ReadWrite,
        },
    }
}

/// A request to commit accumulated writes under a transaction token.
#[derive(PartialEq, Debug)]
pub struct CommitRequest {
    pub database: String,
    pub writes: Vec<Write>,
    pub transaction: Vec<u8>,
}

/// Builds a commit request carrying every accumulated write, in order, and
/// the transaction token; without a token the writes commit atomically on
/// their own.
pub fn new_commit_request(
    project_id: String,
    operations: Vec<DocumentWriteOperation>,
    transaction: Option<Vec<u8>>,
) -> (r: CommitRequest)
    ensures
        r.database@ == database_path(project_id@),
        r.writes@.len() == operations@.len(),
        forall|i: int|
            0 <= i < operations@.len() ==> write_describes(
                project_id@,
                operations@[i],
                r.writes@[i],
            ),
        r.transaction@ == (match transaction {
            Some(t) => t@,
            None => Seq::<u8>::empty(),
        }),
{
    CommitRequest {
        database: project_and_default_database(project_id.clone()),
        writes: DocumentWriteOperation::into_writes(project_id, operations),
        transaction: match transaction {
            Some(t) => t,
            None => Vec::new(),
        },
    }
}

/// A request to roll a transaction back.
#[derive(PartialEq, Debug)]
pub struct RollbackRequest {
    pub database: String,
    pub transaction: Vec<u8>,
}

/// Builds a rollback request for the given transaction token.
pub fn new_rollback_request(project_id: String, transaction: Vec<u8>) -> (r: RollbackRequest)
    ensures
        r.database@ == database_path(project_id@),
        r.transaction == transaction,
{
    RollbackRequest { database: project_and_default_database(project_id), transaction }
}


/// A request to run a structured query under a parent path.
#[derive(PartialEq, Debug)]
pub struct RunQueryRequest {
    pub parent: String,
    pub query: crate::query::StructuredQuery,
    pub transaction: Option<Vec<u8>>,
}

/// Builds a run-query request.
pub fn new_query_request(
    project_id: String,
    parent_path: String,
    query: crate::query::StructuredQuery,
    transaction: Option<Vec<u8>>,
) -> (r: RunQueryRequest)
    ensures
        r.parent@ == full_doc_path(project_id@, parent_path@),
        r.query == query,
        r.transaction == transaction,
{
    RunQueryRequest {
        parent: fmt_document_path(project_id.as_str(), parent_path.as_str()),
        query,
        transaction,
    }
}

/// A request for one chunk of a query's partition cursors.
#[derive(PartialEq, Debug)]
pub struct PartitionQueryRequest {
    pub parent: String,
    pub query: crate::query::StructuredQuery,
    pub partition_count: i64,
    pub page_size: i32,
    pub page_token: String,
}

/// Builds a partition-query request.
pub fn new_partition_query_request(
    project_id: String,
    document_path: String,
    query: crate::query::StructuredQuery,
    max_partition_count: i64,
    chunk_size: i32,
    token: String,
) -> (r: PartitionQueryRequest)
    ensures
        r.parent@ == full_doc_path(project_id@, document_path@),
        r.query == query,
        r.partition_count == max_partition_count,
        r.page_size == chunk_size,
        r.page_token == token,
{
    PartitionQueryRequest {
        parent: fmt_document_path(project_id.as_str(), document_path.as_str()),
        query,
        partition_count: max_partition_count,
        page_size: chunk_size,
        page_token: token,
    }
}

} // verus!
