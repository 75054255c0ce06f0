//! The compute halves of the client's calls: batch-size enforcement and
//! chunking, batched-read response splitting, status mapping, query stream
//! collection and the prefix-scan decision. The network halves live outside
//! the library and hand plain values in and out.

use vstd::prelude::*;
use crate::error::{FirestoreError, GrpcErrorStatus, SerdeError, ValidationError, GRPC_NOT_FOUND};
use crate::fields::FFields;
use crate::request::{BatchWriteRequest, Document, DocumentWriteOperation, WriteResult,
    new_batch_write_request, write_describes};
use crate::strutil::{str_eq, str_starts_with};
use crate::txn::MAX_BATCH_WRTIE_SIZE;
use crate::value::{FValue, Val};
use crate::wire::val_of_wire;

verus! {

/// The paths of a batched read that named no existing document.
pub type MissingDocPaths = Vec<String>;

/// A filter that keeps every item.
pub fn id_filter<T>(_item: &T) -> (r: bool)
    ensures
        r,
{
    true
}

/// All the chunks' items, in chunk order.
pub open spec fn flatten_chunks<T>(s: Seq<Vec<T>>) -> Seq<T>
    decreases s,
{
    if s.len() == 0 {
        Seq::empty()
    } else {
        flatten_chunks(s.drop_last()) + s.last()@
    }
}

/// Splits items into successive chunks of at most `size` each, in order:
/// every chunk but the last is exactly `size`, none is empty, and their
/// concatenation is the input.
pub fn chunk_vec<T>(v: Vec<T>, size: usize) -> (r: Vec<Vec<T>>)
    requires
        size >= 1,
    ensures
        flatten_chunks(r@) == v@,
        forall|i: int| 0 <= i < r@.len() ==> 1 <= #[trigger] r@[i]@.len() <= size,
        forall|i: int| 0 <= i < r@.len() - 1 ==> #[trigger] r@[i]@.len() == size,
        v@.len() == 0 ==> r@.len() == 0,
        v@.len() > 0 ==> r@.len() >= 1 && (r@.len() - 1) * size < v@.len() <= r@.len() * size,
{
    let ghost orig: Seq<T> = v@;
    let mut rest = v;
    let mut chunks: Vec<Vec<T>> = Vec::new();
    while rest.len() > size
        invariant
            size >= 1,
            flatten_chunks(chunks@) + rest@ =~= orig,
            forall|i: int| 0 <= i < chunks@.len() ==> #[trigger] chunks@[i]@.len() == size,
            orig.len() == chunks@.len() * size + rest@.len(),
        decreases rest.len(),
    {
        let ghost k: int = chunks@.len() as int;
        let ghost prev_chunks: Seq<Vec<T>> = chunks@;
        let ghost prev_rest: Seq<T> = rest@;
        let mut chunk = rest;
        rest = chunk.split_off(size);
        chunks.push(chunk);
        proof {
            assert(chunk@ + rest@ =~= prev_rest);
            assert(chunks@.drop_last() =~= prev_chunks);
            assert(flatten_chunks(chunks@) == flatten_chunks(prev_chunks) + chunk@);
            assert(flatten_chunks(chunks@) + rest@ =~= flatten_chunks(prev_chunks) + (chunk@
                + rest@));
            assert(flatten_chunks(chunks@) + rest@ =~= orig);
            assert((k + 1) * size == k * size + size) by (nonlinear_arith);
        }
    }
    let ghost k: int = chunks@.len() as int;
    if rest.len() > 0 {
        let ghost prev_chunks: Seq<Vec<T>> = chunks@;
        let ghost tailv: Seq<T> = rest@;
        chunks.push(rest);
        proof {
            assert(chunks@.drop_last() =~= prev_chunks);
            assert(flatten_chunks(chunks@) == flatten_chunks(prev_chunks) + tailv);
            assert(flatten_chunks(chunks@) =~= orig);
            assert((k + 1) * size == k * size + size) by (nonlinear_arith);
            assert(k * size == (k + 1 - 1) * size);
        }
    } else {
        proof {
            assert(flatten_chunks(chunks@) =~= orig);
            if orig.len() > 0 {
                assert(k >= 1);
                assert((k - 1) * size == k * size - size) by (nonlinear_arith);
            }
        }
    }
    chunks
}

/// Validates a direct batch write against the batch limit and, when it is
/// within it, builds the one request to issue: rejected batches cause no
/// network call.
pub fn prepare_batch_write(
    project_id: String,
    operations: Vec<DocumentWriteOperation>,
) -> (r: Result<BatchWriteRequest, FirestoreError>)
    ensures
        r is Ok <==> operations@.len() <= MAX_BATCH_WRTIE_SIZE,
        r matches Ok(req) ==> req.database@ == crate::request::database_path(project_id@)
            && req.writes@.len() == operations@.len() && forall|i: int|
            0 <= i < operations@.len() ==> write_describes(
                project_id@,
                operations@[i],
                req.writes@[i],
            ),
        r matches Err(e) ==> e == FirestoreError::Validation(
            ValidationError::BatchTooLarge {
                limit: MAX_BATCH_WRTIE_SIZE,
                actual: operations@.len() as usize,
            },
        ),
{
    if operations.len() > MAX_BATCH_WRTIE_SIZE {
        Err(
            FirestoreError::Validation(
                ValidationError::BatchTooLarge {
                    limit: MAX_BATCH_WRTIE_SIZE,
                    actual: operations.len(),
                },
            ),
        )
    } else {
        Ok(new_batch_write_request(project_id, operations))
    }
}

/// Splits an oversized batch into successive direct batch writes of at most
/// the batch limit each, in input order.
pub fn chunk_batch_write_operations(operations: Vec<DocumentWriteOperation>) -> (r: Vec<
    Vec<DocumentWriteOperation>,
>)
    ensures
        flatten_chunks(r@) == operations@,
        forall|i: int| 0 <= i < r@.len() ==> 1 <= #[trigger] r@[i]@.len() <= MAX_BATCH_WRTIE_SIZE,
        forall|i: int|
            0 <= i < r@.len() - 1 ==> #[trigger] r@[i]@.len() == MAX_BATCH_WRTIE_SIZE,
        operations@.len() == 0 ==> r@.len() == 0,
        operations@.len() > 0 ==> r@.len() >= 1 && (r@.len() - 1) * MAX_BATCH_WRTIE_SIZE
            < operations@.len() <= r@.len() * MAX_BATCH_WRTIE_SIZE,
{
    chunk_vec(operations, MAX_BATCH_WRTIE_SIZE)
}

/// Splits a batched read's paths into successive chunks of at most the
/// per-chunk document limit, in input order.
pub fn chunk_document_paths(document_paths: Vec<String>) -> (r: Vec<Vec<String>>)
    ensures
        flatten_chunks(r@) == document_paths@,
        forall|i: int|
            0 <= i < r@.len() ==> 1 <= #[trigger] r@[i]@.len()
                <= crate::txn::MAX_BATCH_GET_DOC_NUM,
        forall|i: int|
            0 <= i < r@.len() - 1 ==> #[trigger] r@[i]@.len()
                == crate::txn::MAX_BATCH_GET_DOC_NUM,
        document_paths@.len() == 0 ==> r@.len() == 0,
{
    chunk_vec(document_paths, crate::txn::MAX_BATCH_GET_DOC_NUM)
}

/// Appends one chunk's write results to those collected so far, in call
/// order.
pub fn append_write_results(results: &mut Vec<WriteResult>, mut each_result: Vec<WriteResult>)
    ensures
        final(results)@ == old(results)@ + each_result@,
{
    results.append(&mut each_result);
}

/// One item of a batched read's response stream: a found document or the
/// path of a missing one.
#[derive(PartialEq, Debug)]
pub enum DocResult {
    Found(Document),
    Missing(String),
}

/// The found documents of a response sequence, in order.
pub open spec fn found_docs(s: Seq<DocResult>) -> Seq<Document>
    decreases s,
{
    if s.len() == 0 {
        Seq::empty()
    } else {
        let pre = found_docs(s.drop_last());
        match s.last() {
            DocResult::Found(d) => pre.push(d),
            DocResult::Missing(_) => pre,
        }
    }
}

/// The missing paths of a response sequence, in order.
pub open spec fn missing_paths(s: Seq<DocResult>) -> Seq<String>
    decreases s,
{
    if s.len() == 0 {
        Seq::empty()
    } else {
        let pre = missing_paths(s.drop_last());
        match s.last() {
            DocResult::Found(_) => pre,
            DocResult::Missing(p) => pre.push(p),
        }
    }
}

/// Splits one chunk's response items into the documents to hand to the
/// per-document callback, in order, and the missing paths, in order.
pub fn split_batch_get_results(items: Vec<DocResult>) -> (r: (Vec<Document>, Vec<String>))
    ensures
        r.0@ == found_docs(items@),
        r.1@ == missing_paths(items@),
{
    let ghost itemsv: Seq<DocResult> = items@;
    let mut rest = items;
    let mut docs: Vec<Document> = Vec::new();
    let mut missing: Vec<String> = Vec::new();
    let n = rest.len();
    let mut i: usize = 0;
    while rest.len() > 0
        invariant
            i + rest@.len() == n,
            n == itemsv.len(),
            forall|j: int| 0 <= j < rest@.len() ==> rest@[j] == itemsv[i + j],
            docs@ == found_docs(itemsv.take(i as int)),
            missing@ == missing_paths(itemsv.take(i as int)),
        decreases rest.len(),
    {
        let item = rest.remove(0);
        proof {
            assert(item == itemsv[i as int]);
            assert(itemsv.take(i + 1).drop_last() =~= itemsv.take(i as int));
            assert(itemsv.take(i + 1).last() == itemsv[i as int]);
        }
        match item {
            DocResult::Found(d) => {
                docs.push(d);
            },
            DocResult::Missing(p) => {
                missing.push(p);
            },
        }
        i = i + 1;
        proof {
            assert(docs@ =~= found_docs(itemsv.take(i as int)));
            assert(missing@ =~= missing_paths(itemsv.take(i as int)));
        }
    }
    proof {
        assert(itemsv.take(n as int) =~= itemsv);
    }
    (docs, missing)
}

/// Maps a single-document read's outcome: a "not found" status becomes an
/// absent result, any other non-OK status is surfaced as a transport error.
pub fn map_get_document_status(result: Result<Document, GrpcErrorStatus>) -> (r: Result<
    Option<Document>,
    FirestoreError,
>)
    ensures
        match result {
            Ok(d) => r matches Ok(Some(dd)) && dd == d,
            Err(st) => {
                if st.code == GRPC_NOT_FOUND {
                    r matches Ok(o) && o is None
                } else {
                    r matches Err(e) && e == FirestoreError::Transport(st)
                }
            },
        },
{
    match result {
        Ok(found) => Ok(Some(found)),
        Err(status) => {
            if status.is_not_found() {
                Ok(None)
            } else {
                Err(FirestoreError::Transport(status))
            }
        },
    }
}

/// The documents of a query's response stream, in order: items without a
/// document are passed over.
pub open spec fn some_docs(s: Seq<Option<Document>>) -> Seq<Document>
    decreases s,
{
    if s.len() == 0 {
        Seq::empty()
    } else {
        let pre = some_docs(s.drop_last());
        match s.last() {
            Some(d) => pre.push(d),
            None => pre,
        }
    }
}

/// Collects the documents of a query's response stream, in order; the count
/// the caller reports is the length of the result.
pub fn collect_query_documents(responses: Vec<Option<Document>>) -> (r: Vec<Document>)
    ensures
        r@ == some_docs(responses@),
{
    let ghost rv: Seq<Option<Document>> = responses@;
    let mut rest = responses;
    let mut docs: Vec<Document> = Vec::new();
    let n = rest.len();
    let mut i: usize = 0;
    while rest.len() > 0
        invariant
            i + rest@.len() == n,
            n == rv.len(),
            forall|j: int| 0 <= j < rest@.len() ==> rest@[j] == rv[i + j],
            docs@ == some_docs(rv.take(i as int)),
        decreases rest.len(),
    {
        let item = rest.remove(0);
        proof {
            assert(item == rv[i as int]);
            assert(rv.take(i + 1).drop_last() =~= rv.take(i as int));
            assert(rv.take(i + 1).last() == rv[i as int]);
        }
        match item {
            Some(d) => {
                docs.push(d);
            },
            None => {},
        }
        i = i + 1;
        proof {
            assert(docs@ =~= some_docs(rv.take(i as int)));
        }
    }
    proof {
        assert(rv.take(n as int) =~= rv);
    }
    docs
}

/// What a prefix scan does with one streamed document.
#[derive(Clone, Copy, PartialEq, Eq, Structural, Debug)]
pub enum ScanStep {
    /// Count the document and hand it to the caller's callback.
    Take,
    /// Pass the document over and keep scanning.
    Skip,
    /// End the scan.
    Stop,
}

/// The prefix scan's decision for one document: stop at the first document
/// whose scanned field is absent, not a string, or no longer extends the
/// prefix; skip an exact match unless exact matches are wanted; take the
/// rest.
pub open spec fn scan_decision(
    fields: Map<Seq<char>, Val>,
    field: Seq<char>,
    prefix: Seq<char>,
    contain_exact_match: bool,
) -> ScanStep {
    if !fields.contains_key(field) {
        ScanStep::Stop
    } else {
        match fields[field] {
            Val::Str(s) => if !prefix.is_prefix_of(s) {
                ScanStep::Stop
            } else if !contain_exact_match && s == prefix {
                ScanStep::Skip
            } else {
                ScanStep::Take
            },
            _ => ScanStep::Stop,
        }
    }
}

/// Decides what a prefix scan does with one streamed document.
pub fn prefix_scan_step(
    doc_fields: &FFields,
    field: &str,
    prefix: &str,
    contain_exact_match: bool,
) -> (r: ScanStep)
    ensures
        r == scan_decision(doc_fields@, field@, prefix@, contain_exact_match),
{
    match doc_fields.get(field) {
        None => ScanStep::Stop,
        Some(v) => match v {
            FValue::Str(s) => {
                if !str_starts_with(s.as_str(), prefix) {
                    ScanStep::Stop
                } else if !contain_exact_match && str_eq(s.as_str(), prefix) {
                    ScanStep::Skip
                } else {
                    ScanStep::Take
                }
            },
            _ => ScanStep::Stop,
        },
    }
}

/// The field values a write result's transform results stand for. Fails
/// exactly when one of them holds a wire kind the value model does not
/// support.
pub fn from_write_result(wr: WriteResult) -> (r: Result<Vec<FValue>, SerdeError>)
    ensures
        r matches Ok(vs) ==> vs@.len() == wr.transform_results@.len() && forall|i: int|
            0 <= i < vs@.len() ==> Some(vs@[i]@) == val_of_wire(wr.transform_results@[i]@),
        r is Err <==> exists|i: int|
            0 <= i < wr.transform_results@.len() && val_of_wire(
                #[trigger] wr.transform_results@[i]@,
            ) is None,
{
    let ghost wv = wr.transform_results@;
    let mut rest = wr.transform_results;
    let mut out: Vec<FValue> = Vec::new();
    let n = rest.len();
    let mut i: usize = 0;
    while rest.len() > 0
        invariant
            i + rest@.len() == n,
            n == wv.len(),
            wv == wr.transform_results@,
            forall|j: int| 0 <= j < rest@.len() ==> rest@[j] == wv[i + j],
            out@.len() == i,
            forall|j: int| 0 <= j < i ==> Some(#[trigger] out@[j]@) == val_of_wire(wv[j]@),
            forall|j: int| 0 <= j < i ==> val_of_wire(#[trigger] wv[j]@) is Some,
        decreases rest.len(),
    {
        let w = rest.remove(0);
        proof {
            assert(w == wv[i as int]);
        }
        match FValue::from_grpc_value(&w) {
            Ok(v) => {
                out.push(v);
            },
            Err(e) => {
                proof {
                    assert(val_of_wire(wr.transform_results@[i as int]@) is None);
                }
                return Err(e);
            },
        }
        i = i + 1;
    }
    Ok(out)
}

/// The field values of every write result of a batch, in order. Fails
/// exactly when any transform result holds an unsupported wire kind.
pub fn from_write_results(wrs: Vec<WriteResult>) -> (r: Result<Vec<Vec<FValue>>, SerdeError>)
    ensures
        r matches Ok(vss) ==> vss@.len() == wrs@.len() && forall|i: int|
            0 <= i < wrs@.len() ==> (#[trigger] vss@[i]@).len()
                == wrs@[i].transform_results@.len() && forall|j: int|
                0 <= j < vss@[i]@.len() ==> Some(#[trigger] vss@[i]@[j]@) == val_of_wire(
                    wrs@[i].transform_results@[j]@,
                ),
{
    let mut rest = wrs;
    let ghost wv: Seq<WriteResult> = rest@;
    let mut out: Vec<Vec<FValue>> = Vec::new();
    let n = rest.len();
    let mut i: usize = 0;
    while rest.len() > 0
        invariant
            i + rest@.len() == n,
            n == wv.len(),
            wv == wrs@,
            forall|j: int| 0 <= j < rest@.len() ==> rest@[j] == wv[i + j],
            out@.len() == i,
            forall|j: int|
                0 <= j < i ==> (#[trigger] out@[j]@).len() == wv[j].transform_results@.len()
                    && forall|k: int|
                    0 <= k < out@[j]@.len() ==> Some(#[trigger] out@[j]@[k]@) == val_of_wire(
                        wv[j].transform_results@[k]@,
                    ),
        decreases rest.len(),
    {
        let w = rest.remove(0);
        proof {
            assert(w == wv[i as int]);
        }
        match from_write_result(w) {
            Ok(vs) => {
                out.push(vs);
            },
            Err(e) => {
                return Err(e);
            },
        }
        i = i + 1;
    }
    Ok(out)
}

} // verus!
