//! Tasks: handles to asynchronous server-side ingestion jobs, and the
//! interpretation of a status poll's response.

use vstd::prelude::*;
use vstd::string::StringExecFns;

use crate::client::{spec_token_header, PaperlessNgxClient, RequestSpec};
use crate::errors::PaperlessError;
use crate::text::{spec_trim_quotes, trim_quotes};

verus! {

/// One status record for a task, produced fresh on every poll and never
/// cached.
#[derive(Debug)]
pub struct TaskStatus {
    /// The name of the file the task ingests.
    pub task_file_name: String,
    /// The task's state, as the server words it (e.g. pending, success,
    /// failure).
    pub status: String,
    /// The id of the resulting document, once one exists.
    pub related_document: Option<String>,
    /// Error detail or an output identifier, when the server adds one.
    pub result: Option<String>,
}

impl Clone for TaskStatus {
    /// An exact copy.
    fn clone(&self) -> (r: Self)
        ensures
            r == *self,
    {
        TaskStatus {
            task_file_name: self.task_file_name.clone(),
            status: self.status.clone(),
            related_document: match &self.related_document {
                Some(s) => Some(s.clone()),
                None => None,
            },
            result: match &self.result {
                Some(s) => Some(s.clone()),
                None => None,
            },
        }
    }
}

/// A handle to one asynchronous ingestion job: purely a capability to
/// poll its status by id. A value, not a resource; it holds no state of
/// the client that created it.
#[derive(Debug)]
pub struct Task {
    /// The server-assigned task id.
    pub uuid: String,
}

impl Task {
    /// The handle for a server-assigned task id.
    pub fn from_uuid(uuid: String) -> (t: Task)
        ensures
            t.uuid == uuid,
    {
        Task { uuid }
    }

    /// The sentinel task a dry-run upload yields in place of a
    /// server-assigned one: nothing was transmitted.
    pub fn dry_run() -> (t: Task)
        ensures
            t.uuid@ == "noop uuid"@,
    {
        Task { uuid: String::from_str("noop uuid") }
    }

    /// The task an upload response body names: the body is the task id
    /// quoted, so the surrounding quotes are stripped.
    pub fn from_upload_body(body: &str) -> (t: Task)
        ensures
            t.uuid@ == spec_trim_quotes(body@),
    {
        Task { uuid: trim_quotes(body) }
    }

    /// The status poll for the job: a `GET` of
    /// `/api/tasks/?task_id=<id>` against the owning client.
    pub fn status_request(&self, client: &PaperlessNgxClient) -> (r: RequestSpec)
        ensures
            r.method is Get,
            r.url@ == client.url@ + "/api/tasks/?task_id="@ + self.uuid@,
            r.auth_header@ == spec_token_header(client.auth@),
    {
        let path = String::from_str("/api/tasks/?task_id=").concat(self.uuid.as_str());
        let r = client.get_request(path.as_str());
        proof {
            assert(r.url@ =~= client.url@ + "/api/tasks/?task_id="@ + self.uuid@);
        }
        r
    }

    /// Interpret the decoded records of one status poll. Exactly one
    /// record is the expected shape and is returned. Zero records is a
    /// failure. More than one is tolerated best-effort — the first
    /// record is returned — rather than treated as a hard error; that is
    /// this client's stated policy for the ambiguous case.
    pub fn status_select(records: Vec<TaskStatus>) -> (r: Result<TaskStatus, PaperlessError>)
        ensures
            records@.len() == 0 ==> r is Err && r->Err_0 is TooManyTasks,
            records@.len() > 0 ==> r is Ok && r->Ok_0 == records@[0],
    {
        let mut records = records;
        if records.len() == 0 {
            Err(PaperlessError::TooManyTasks)
        } else {
            Ok(records.remove(0))
        }
    }
}

} // verus!
