//! The process report: one record for each process of the host.

use crate::json::{
    document, documents, lemma_documents_push, list_value, new_object, no_members, object_insert,
    object_value, text_value, unsigned_value, Json,
};
use crate::text::{decimal, decimal_string, known_or_unknown, or_unknown, push_decimal};
use vstd::prelude::*;

verus! {

/// The lifecycle status of a process.
#[derive(Clone, Copy, Debug, PartialEq, Eq, Structural)]
pub enum ProcessStatus {
    Idle,
    Run,
    Sleep,
    Stop,
    Zombie,
    Tracing,
    Dead,
    Wakekill,
    Waking,
    Parked,
    LockBlocked,
    UninterruptibleDiskSleep,
    /// A status that the host reports by a number that has no name.
    Unknown(u32),
}

/// A point-in-time view of one process.
pub struct ProcessRecord {
    pub pid: u32,
    /// The path of the executable, where the host tells it.
    pub name: Option<String>,
    /// Resident memory, in bytes.
    pub memory: u64,
    /// The share of processor time in use, as a JSON number.
    pub cpu_usage: serde_json::Value,
    /// Seconds since the process started.
    pub run_time: u64,
    pub status: ProcessStatus,
}

/// The name under which a status is reported.
pub open spec fn status_name(status: ProcessStatus) -> Seq<char> {
    match status {
        ProcessStatus::Idle => "Idle"@,
        ProcessStatus::Run => "Run"@,
        ProcessStatus::Sleep => "Sleep"@,
        ProcessStatus::Stop => "Stop"@,
        ProcessStatus::Zombie => "Zombie"@,
        ProcessStatus::Tracing => "Tracing"@,
        ProcessStatus::Dead => "Dead"@,
        ProcessStatus::Wakekill => "Wakekill"@,
        ProcessStatus::Waking => "Waking"@,
        ProcessStatus::Parked => "Parked"@,
        ProcessStatus::LockBlocked => "LockBlocked"@,
        ProcessStatus::UninterruptibleDiskSleep => "UninterruptibleDiskSleep"@,
        ProcessStatus::Unknown(code) => "Unknown("@ + decimal(code as nat) + ")"@,
    }
}

impl ProcessStatus {
    /// The name under which the status is reported.
    pub fn name(&self) -> (name: String)
        ensures
            name@ == status_name(*self),
    {
        match self {
            ProcessStatus::Idle => "Idle".to_owned(),
            ProcessStatus::Run => "Run".to_owned(),
            ProcessStatus::Sleep => "Sleep".to_owned(),
            ProcessStatus::Stop => "Stop".to_owned(),
            ProcessStatus::Zombie => "Zombie".to_owned(),
            ProcessStatus::Tracing => "Tracing".to_owned(),
            ProcessStatus::Dead => "Dead".to_owned(),
            ProcessStatus::Wakekill => "Wakekill".to_owned(),
            ProcessStatus::Waking => "Waking".to_owned(),
            ProcessStatus::Parked => "Parked".to_owned(),
            ProcessStatus::LockBlocked => "LockBlocked".to_owned(),
            ProcessStatus::UninterruptibleDiskSleep => "UninterruptibleDiskSleep".to_owned(),
            ProcessStatus::Unknown(code) => {
                let mut name = "Unknown(".to_owned();
                push_decimal(&mut name, *code as u64);
                name.append(")");
                name
            },
        }
    }
}

/// The members of the entry of one process. The name is the path of the
/// executable, or the text that stands for an unknown one where the host
/// does not tell it.
pub open spec fn process_members(record: ProcessRecord) -> Map<Seq<char>, Json> {
    no_members().insert("pid"@, Json::Text(decimal(record.pid as nat))).insert(
        "name"@,
        Json::Text(known_or_unknown(record.name.deep_view())),
    ).insert("memory"@, Json::Unsigned(record.memory)).insert(
        "cpu_usage"@,
        document(record.cpu_usage),
    ).insert("run_time"@, Json::Unsigned(record.run_time)).insert(
        "status"@,
        Json::Text(status_name(record.status)),
    )
}

/// The document of the entry of one process.
pub open spec fn process_document(record: ProcessRecord) -> Json {
    Json::Object(process_members(record))
}

/// The documents of the entries of `records`, one for each, in order.
pub open spec fn process_documents(records: Seq<ProcessRecord>) -> Seq<Json> {
    records.map_values(|record: ProcessRecord| process_document(record))
}

/// The document of the process report.
pub open spec fn processes_document(records: Seq<ProcessRecord>) -> Json {
    Json::Object(no_members().insert("processes"@, Json::List(process_documents(records))))
}

/// The entry of one process.
pub fn process_entry(record: ProcessRecord) -> (entry: serde_json::Value)
    ensures
        document(entry) == process_document(record),
{
    let status = record.status.name();
    let name = text_value(or_unknown(record.name));
    let mut members = new_object();
    object_insert(&mut members, "pid", text_value(decimal_string(record.pid as u64)));
    object_insert(&mut members, "name", name);
    object_insert(&mut members, "memory", unsigned_value(record.memory));
    object_insert(&mut members, "cpu_usage", record.cpu_usage);
    object_insert(&mut members, "run_time", unsigned_value(record.run_time));
    object_insert(&mut members, "status", text_value(status));
    object_value(members)
}

/// The process report: one object whose member `processes` lists the entry
/// of each process, in the order given.
pub fn process_report(records: Vec<ProcessRecord>) -> (report: serde_json::Value)
    ensures
        document(report) == processes_document(records@),
{
    let mut entries: Vec<serde_json::Value> = Vec::new();
    for record in it: records
        invariant
            it.seq() == records@,
            documents(entries@) == process_documents(it.seq().take(it.index())),
    {
        let entry = process_entry(record);
        proof {
            let done = it.seq().take(it.index());
            lemma_documents_push(entries@, entry);
            assert(it.seq().take(it.index() + 1) =~= done.push(record));
            assert(process_documents(done.push(record)) =~= process_documents(done).push(
                process_document(record),
            ));
        }
        entries.push(entry);
    }
    assert(records@.take(records@.len() as int) =~= records@);
    let mut members = new_object();
    object_insert(&mut members, "processes", list_value(entries));
    object_value(members)
}

/// The entry of a process has exactly the six documented members.
pub proof fn lemma_process_members(record: ProcessRecord)
    ensures
        process_members(record).dom() =~= set![
            "pid"@,
            "name"@,
            "memory"@,
            "cpu_usage"@,
            "run_time"@,
            "status"@,
        ],
        process_members(record)["pid"@] == Json::Text(decimal(record.pid as nat)),
        process_members(record)["name"@] == Json::Text(
            known_or_unknown(record.name.deep_view()),
        ),
        process_members(record)["memory"@] == Json::Unsigned(record.memory),
        process_members(record)["cpu_usage"@] == document(record.cpu_usage),
        process_members(record)["run_time"@] == Json::Unsigned(record.run_time),
        process_members(record)["status"@] == Json::Text(status_name(record.status)),
{
    reveal_strlit("pid");
    reveal_strlit("name");
    reveal_strlit("memory");
    reveal_strlit("cpu_usage");
    reveal_strlit("run_time");
    reveal_strlit("status");
    assert("pid"@.len() == 3 && "name"@.len() == 4 && "memory"@.len() == 6);
    assert("cpu_usage"@.len() == 9 && "run_time"@.len() == 8 && "status"@.len() == 6);
    assert("memory"@[0] == 'm' && "status"@[0] == 's');
}

/// The report lists as many entries as there are processes, so at least one
/// where there is at least one process, the entry at each place being that
/// of the process at that place.
pub proof fn lemma_process_entries(records: Seq<ProcessRecord>)
    ensures
        process_documents(records).len() == records.len(),
        records.len() >= 1 ==> process_documents(records).len() >= 1,
        forall|i: int|
            0 <= i < records.len() ==> #[trigger] process_documents(records)[i]
                == process_document(records[i]),
{
}

} // verus!
