mod management;
mod options;
mod status;

pub use management::{
    find_job, job_not_found, job_creation_result, job_management_result, document_start_result,
    document_write_result, document_finish_result, IPP_STATUS_OK, HTTP_STATUS_CONTINUE,
};
pub use options::{ColorMode, DuplexMode, Orientation, PrintOptions, PrintQuality};
pub use status::{JobInfo, JobStatus, status_of_cups_state, lemma_job_status_round_trip};

use vstd::prelude::*;

verus! {

pub const FORMAT_PDF: &'static str = "application/pdf";
pub const FORMAT_POSTSCRIPT: &'static str = "application/postscript";
pub const FORMAT_TEXT: &'static str = "text/plain";
pub const FORMAT_JPEG: &'static str = "image/jpeg";

/// The most bytes of a document sent to CUPS in one write.
pub const CHUNK_SIZE: usize = 8192;

/// A print job on a destination.
#[derive(Debug, Clone)]
pub struct Job {
    pub id: i32,
    pub dest_name: String,
    pub title: String,
}

impl Job {
    pub fn new(id: i32, dest_name: String, title: String) -> (r: Self)
        ensures
            r.id == id,
            r.dest_name == dest_name,
            r.title == title,
    {
        Job { id, dest_name, title }
    }
}

/// The `i`-th piece, as a byte range, of a document of `len` bytes sent in
/// pieces of at most `CHUNK_SIZE` bytes.
pub open spec fn chunk_range(len: nat, i: nat) -> (nat, nat) {
    let size = CHUNK_SIZE as nat;
    let start: nat = i * size;
    let end: nat = if start + size <= len {
        start + size
    } else {
        len
    };
    (start, end)
}

/// The number of pieces a document of `len` bytes is sent in.
pub open spec fn chunk_count(len: nat) -> nat {
    ((len + CHUNK_SIZE - 1) / (CHUNK_SIZE as int)) as nat
}

/// The byte ranges in which a document of `len` bytes is written to CUPS, in
/// order: each piece but the last holds `CHUNK_SIZE` bytes.
pub fn document_chunks(len: usize) -> (r: Vec<(usize, usize)>)
    ensures
        r@.len() == chunk_count(len as nat),
        forall|i: int| 0 <= i < r@.len() ==> ((#[trigger] r@[i]).0 as nat, r@[i].1 as nat) == chunk_range(len as nat, i as nat),
{
    let mut chunks: Vec<(usize, usize)> = Vec::new();
    let mut written: usize = 0;
    let mut remaining: usize = len;
    while remaining > 0
        invariant
            written + remaining == len,
            remaining > 0 ==> written == chunks@.len() * CHUNK_SIZE,
            remaining == 0 ==> chunks@.len() == chunk_count(len as nat),
            forall|i: int| 0 <= i < chunks@.len() ==> ((#[trigger] chunks@[i]).0 as nat, chunks@[i].1 as nat) == chunk_range(len as nat, i as nat),
        decreases remaining,
    {
        let size = if remaining < CHUNK_SIZE {
            remaining
        } else {
            CHUNK_SIZE
        };
        let ghost n = chunks@.len();
        assert(chunk_range(len as nat, n as nat) == (written as nat, (written + size) as nat));
        chunks.push((written, written + size));
        written = written + size;
        remaining = remaining - size;
        proof {
            if remaining > 0 {
                assert(written == (n + 1) * 8192) by (nonlinear_arith)
                    requires written == n * 8192 + 8192;
            } else {
                assert(chunk_count(len as nat) == n + 1) by (nonlinear_arith)
                    requires
                        n * 8192 < len,
                        len <= n * 8192 + 8192,
                        chunk_count(len as nat) == (len + 8191) / 8192,
                {
                }
            }
        }
    }
    proof {
        if len == 0 {
            assert(chunk_count(0) == 0);
        }
    }
    chunks
}

/// The pieces cover the whole document, in order and without overlap: the
/// first starts at 0, each starts where the one before ended, the last ends
/// at the document's length, and none is empty or longer than `CHUNK_SIZE`.
pub proof fn lemma_chunks_cover_document(len: nat)
    ensures
        len == 0 <==> chunk_count(len) == 0,
        chunk_count(len) > 0 ==> chunk_range(len, 0).0 == 0,
        chunk_count(len) > 0 ==> chunk_range(len, (chunk_count(len) - 1) as nat).1 == len,
        forall|i: nat| i + 1 < chunk_count(len) ==> #[trigger] chunk_range(len, i + 1).0 == chunk_range(len, i).1,
        forall|i: nat| i < chunk_count(len) ==> 0 < #[trigger] chunk_range(len, i).1 - chunk_range(len, i).0 <= CHUNK_SIZE,
{
    assert forall|i: nat| i + 1 < chunk_count(len) implies #[trigger] chunk_range(len, i + 1).0 == chunk_range(len, i).1 by {
        assert((i + 1) * 8192 < len) by (nonlinear_arith)
            requires i + 1 < (len + 8191) / 8192;
        assert((i + 1) * 8192 == i * 8192 + 8192) by (nonlinear_arith);
    }
    assert forall|i: nat| i < chunk_count(len) implies 0 < #[trigger] chunk_range(len, i).1 - chunk_range(len, i).0 <= CHUNK_SIZE by {
        assert(i * 8192 < len) by (nonlinear_arith)
            requires i < (len + 8191) / 8192;
    }
    if chunk_count(len) > 0 {
        let last = (chunk_count(len) - 1) as nat;
        assert(last * 8192 < len && len <= last * 8192 + 8192) by (nonlinear_arith)
            requires last + 1 == (len + 8191) / 8192;
    }
}

} // verus!
