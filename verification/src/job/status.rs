use vstd::prelude::*;
use vstd::string::StringExecFns;

verus! {

/// Where a print job is in its life.
#[derive(Debug, Clone, Copy, PartialEq, Eq, Structural)]
pub enum JobStatus {
    Pending,
    Processing,
    Completed,
    Canceled,
    Aborted,
    Held,
    Stopped,
    Unknown,
}

/// The status that a CUPS job-state number stands for.
pub open spec fn status_of_cups_state(state: i32) -> JobStatus {
    if state == 3 {
        JobStatus::Pending
    } else if state == 4 {
        JobStatus::Processing
    } else if state == 5 {
        JobStatus::Completed
    } else if state == 6 {
        JobStatus::Canceled
    } else if state == 7 {
        JobStatus::Aborted
    } else if state == 8 {
        JobStatus::Held
    } else if state == 9 {
        JobStatus::Stopped
    } else {
        JobStatus::Unknown
    }
}

impl JobStatus {
    pub open spec fn cups_state(self) -> i32 {
        match self {
            JobStatus::Pending => 3,
            JobStatus::Processing => 4,
            JobStatus::Completed => 5,
            JobStatus::Canceled => 6,
            JobStatus::Aborted => 7,
            JobStatus::Held => 8,
            JobStatus::Stopped => 9,
            JobStatus::Unknown => 0,
        }
    }

    pub open spec fn name(self) -> Seq<char> {
        match self {
            JobStatus::Pending => "Pending"@,
            JobStatus::Processing => "Processing"@,
            JobStatus::Completed => "Completed"@,
            JobStatus::Canceled => "Canceled"@,
            JobStatus::Aborted => "Aborted"@,
            JobStatus::Held => "Held"@,
            JobStatus::Stopped => "Stopped"@,
            JobStatus::Unknown => "Unknown"@,
        }
    }

    /// The status that a CUPS job-state number stands for.
    pub fn from_cups_state(state: i32) -> (r: Self)
        ensures
            r == status_of_cups_state(state),
    {
        match state {
            3 => JobStatus::Pending,
            4 => JobStatus::Processing,
            5 => JobStatus::Completed,
            6 => JobStatus::Canceled,
            7 => JobStatus::Aborted,
            8 => JobStatus::Held,
            9 => JobStatus::Stopped,
            _ => JobStatus::Unknown,
        }
    }

    /// The CUPS job-state number of this status; 0 for an unknown one.
    pub fn to_cups_value(&self) -> (r: i32)
        ensures
            r == self.cups_state(),
    {
        match self {
            JobStatus::Pending => 3,
            JobStatus::Processing => 4,
            JobStatus::Completed => 5,
            JobStatus::Canceled => 6,
            JobStatus::Aborted => 7,
            JobStatus::Held => 8,
            JobStatus::Stopped => 9,
            JobStatus::Unknown => 0,
        }
    }

    /// The status's name, as it is shown to users.
    pub fn to_string(&self) -> (r: String)
        ensures
            r@ == self.name(),
    {
        match self {
            JobStatus::Pending => String::from_str("Pending"),
            JobStatus::Processing => String::from_str("Processing"),
            JobStatus::Completed => String::from_str("Completed"),
            JobStatus::Canceled => String::from_str("Canceled"),
            JobStatus::Aborted => String::from_str("Aborted"),
            JobStatus::Held => String::from_str("Held"),
            JobStatus::Stopped => String::from_str("Stopped"),
            JobStatus::Unknown => String::from_str("Unknown"),
        }
    }
}

/// A status survives the trip to its CUPS number and back, and every number
/// that names a status is that status's number.
pub proof fn lemma_job_status_round_trip(s: JobStatus, state: i32)
    ensures
        status_of_cups_state(s.cups_state()) == s,
        status_of_cups_state(state) != JobStatus::Unknown ==> status_of_cups_state(state).cups_state() == state,
        3 <= state <= 9 <==> status_of_cups_state(state) != JobStatus::Unknown,
{
}

/// A status is shown by its own variant's name, and so distinct statuses are
/// shown by distinct names.
pub proof fn lemma_job_status_names(s: JobStatus, t: JobStatus)
    ensures
        (s.name() == "Pending"@) <==> (s == JobStatus::Pending),
        (s.name() == "Processing"@) <==> (s == JobStatus::Processing),
        (s.name() == "Completed"@) <==> (s == JobStatus::Completed),
        (s.name() == "Canceled"@) <==> (s == JobStatus::Canceled),
        (s.name() == "Aborted"@) <==> (s == JobStatus::Aborted),
        (s.name() == "Held"@) <==> (s == JobStatus::Held),
        (s.name() == "Stopped"@) <==> (s == JobStatus::Stopped),
        (s.name() == "Unknown"@) <==> (s == JobStatus::Unknown),
        s.name() == t.name() ==> s == t,
{
    reveal_strlit("Pending");
    reveal_strlit("Processing");
    reveal_strlit("Completed");
    reveal_strlit("Canceled");
    reveal_strlit("Aborted");
    reveal_strlit("Held");
    reveal_strlit("Stopped");
    reveal_strlit("Unknown");
    assert("Pending"@[1] != "Processing"@[1] && "Pending"@[0] != "Completed"@[0]);
    assert("Pending"@[0] != "Canceled"@[0] && "Pending"@[0] != "Aborted"@[0]);
    assert("Pending"@[0] != "Held"@[0] && "Pending"@[0] != "Stopped"@[0]);
    assert("Pending"@[0] != "Unknown"@[0] && "Processing"@[0] != "Completed"@[0]);
    assert("Processing"@[0] != "Canceled"@[0] && "Processing"@[0] != "Aborted"@[0]);
    assert("Processing"@[0] != "Held"@[0] && "Processing"@[0] != "Stopped"@[0]);
    assert("Processing"@[0] != "Unknown"@[0] && "Completed"@[1] != "Canceled"@[1]);
    assert("Completed"@[0] != "Aborted"@[0] && "Completed"@[0] != "Held"@[0]);
    assert("Completed"@[0] != "Stopped"@[0] && "Completed"@[0] != "Unknown"@[0]);
    assert("Canceled"@[0] != "Aborted"@[0] && "Canceled"@[0] != "Held"@[0]);
    assert("Canceled"@[0] != "Stopped"@[0] && "Canceled"@[0] != "Unknown"@[0]);
    assert("Aborted"@[0] != "Held"@[0] && "Aborted"@[0] != "Stopped"@[0]);
    assert("Aborted"@[0] != "Unknown"@[0] && "Held"@[0] != "Stopped"@[0]);
    assert("Held"@[0] != "Unknown"@[0] && "Stopped"@[0] != "Unknown"@[0]);
}

/// What CUPS reports about one print job.
#[derive(Debug, Clone)]
pub struct JobInfo {
    pub id: i32,
    pub title: String,
    pub user: String,
    pub dest: String,
    pub status: JobStatus,
    pub size: i32,
    pub priority: i32,
    pub creation_time: i64,
    pub processing_time: i64,
    pub completed_time: i64,
}

} // verus!
