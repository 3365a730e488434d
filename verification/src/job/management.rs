use vstd::prelude::*;
use vstd::string::StringExecFns;
use crate::error::Error;
use crate::job::status::JobInfo;
use crate::job::Job;
use crate::text::{i64_text, u64_text, int_text};

verus! {

/// The first job in `jobs` with the given id.
pub fn find_job(jobs: Vec<JobInfo>, job_id: i32) -> (r: Option<JobInfo>)
    ensures
        match r {
            Some(job) => job.id == job_id && exists|i: int|
                #![trigger jobs@[i]]
                0 <= i < jobs@.len() && jobs@[i] == job && forall|k: int|
                    0 <= k < i ==> (#[trigger] jobs@[k]).id != job_id,
            None => forall|i: int| 0 <= i < jobs@.len() ==> (#[trigger] jobs@[i]).id != job_id,
        },
{
    let mut list = jobs;
    let ghost original = list@;
    let mut i: usize = 0;
    while i < list.len()
        invariant
            list@ == original,
            original == jobs@,
            i <= list@.len(),
            forall|k: int| 0 <= k < i ==> (#[trigger] list@[k]).id != job_id,
        decreases list@.len() - i,
    {
        if list[i].id == job_id {
            let job = list.remove(i);
            assert(original[i as int] == job);
            return Some(job);
        }
        i = i + 1;
    }
    None
}

/// The text of the error for a job id that is in none of the job lists.
pub open spec fn job_not_found_text(job_id: i32, active: usize, completed: usize) -> Seq<char> {
    "Job "@ + int_text(job_id as int) + " not found (active: "@ + int_text(active as int)
        + ", completed: "@ + int_text(completed as int) + ")"@
}

/// The error for a job id that is in none of the job lists; it reports how
/// many active and completed jobs there are.
pub fn job_not_found(job_id: i32, active: usize, completed: usize) -> (r: Error)
    ensures
        r matches Error::JobManagementFailed(msg) && msg@ == job_not_found_text(job_id, active, completed),
{
    let mut msg = String::from_str("Job ");
    msg.append(i64_text(job_id as i64).as_str());
    msg.append(" not found (active: ");
    msg.append(u64_text(active as u64).as_str());
    msg.append(", completed: ");
    msg.append(u64_text(completed as u64).as_str());
    msg.append(")");
    Error::JobManagementFailed(msg)
}

/// `IPP_STATUS_OK` in CUPS: the request succeeded.
pub const IPP_STATUS_OK: u32 = 0;
/// `HTTP_STATUS_CONTINUE` in CUPS: the server waits for more data.
pub const HTTP_STATUS_CONTINUE: i32 = 100;

/// The text of the error for a failed job creation.
pub open spec fn job_creation_failed_text(status: u32, error_text: Seq<char>) -> Seq<char> {
    "CUPS job creation failed with status "@ + int_text(status as int) + ": "@ + error_text
}

/// What creating a job on `dest_name` gave: the new job when CUPS answers
/// that the request succeeded, else the error with CUPS's status and message.
pub fn job_creation_result(status: u32, job_id: i32, dest_name: String, title: String, error_text: &str) -> (r: Result<Job, Error>)
    ensures
        status == IPP_STATUS_OK ==> r == Ok::<Job, Error>(Job { id: job_id, dest_name, title }),
        status != IPP_STATUS_OK ==> (r matches Err(Error::JobCreationFailed(msg)) && msg@
            == job_creation_failed_text(status, error_text@)),
{
    if status == IPP_STATUS_OK {
        Ok(Job::new(job_id, dest_name, title))
    } else {
        let mut msg = String::from_str("CUPS job creation failed with status ");
        msg.append(u64_text(status as u64).as_str());
        msg.append(": ");
        msg.append(error_text);
        Err(Error::JobCreationFailed(msg))
    }
}

/// The text of the error for a failed operation `verb` on a job.
pub open spec fn job_management_failed_text(verb: Seq<char>, job_id: i32, error_text: Seq<char>) -> Seq<char> {
    "Failed to "@ + verb + " job "@ + int_text(job_id as int) + ": "@ + error_text
}

/// What closing or cancelling (`verb`) a job gave: success when CUPS answers
/// that the request succeeded, else the error with CUPS's message.
pub fn job_management_result(verb: &str, status: u32, job_id: i32, error_text: &str) -> (r: Result<(), Error>)
    ensures
        status == IPP_STATUS_OK ==> r is Ok,
        status != IPP_STATUS_OK ==> (r matches Err(Error::JobManagementFailed(msg)) && msg@
            == job_management_failed_text(verb@, job_id, error_text@)),
{
    if status == IPP_STATUS_OK {
        Ok(())
    } else {
        let mut msg = String::from_str("Failed to ");
        msg.append(verb);
        msg.append(" job ");
        msg.append(i64_text(job_id as i64).as_str());
        msg.append(": ");
        msg.append(error_text);
        Err(Error::JobManagementFailed(msg))
    }
}

/// What starting a document gave: CUPS must wait for the document's data.
pub fn document_start_result(status: i32) -> (r: Result<(), Error>)
    ensures
        status == HTTP_STATUS_CONTINUE ==> r is Ok,
        status != HTTP_STATUS_CONTINUE ==> (r matches Err(Error::DocumentSubmissionFailed(msg)) && msg@
            == "Failed to start document"@),
{
    if status == HTTP_STATUS_CONTINUE {
        Ok(())
    } else {
        Err(Error::DocumentSubmissionFailed(String::from_str("Failed to start document")))
    }
}

/// What writing the piece of a document that starts at byte `offset` gave:
/// CUPS must still wait for more data.
pub fn document_write_result(status: i32, offset: usize) -> (r: Result<(), Error>)
    ensures
        status == HTTP_STATUS_CONTINUE ==> r is Ok,
        status != HTTP_STATUS_CONTINUE ==> (r matches Err(Error::DocumentSubmissionFailed(msg)) && msg@
            == "Failed to write data at byte "@ + int_text(offset as int)),
{
    if status == HTTP_STATUS_CONTINUE {
        Ok(())
    } else {
        let mut msg = String::from_str("Failed to write data at byte ");
        msg.append(u64_text(offset as u64).as_str());
        Err(Error::DocumentSubmissionFailed(msg))
    }
}

/// What finishing a document gave: the request must have succeeded.
pub fn document_finish_result(status: u32) -> (r: Result<(), Error>)
    ensures
        status == IPP_STATUS_OK ==> r is Ok,
        status != IPP_STATUS_OK ==> (r matches Err(Error::DocumentSubmissionFailed(msg)) && msg@
            == "Failed to finish document"@),
{
    if status == IPP_STATUS_OK {
        Ok(())
    } else {
        Err(Error::DocumentSubmissionFailed(String::from_str("Failed to finish document")))
    }
}

} // verus!
