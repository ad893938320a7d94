//! The memory report: the seven counters of main memory and swap, in bytes.

use crate::json::{
    document, new_object, no_members, object_insert, object_value, unsigned_value, Json,
};
use vstd::prelude::*;

verus! {

/// One reading of the memory counters, in bytes.
#[derive(Clone, Copy, Debug, PartialEq, Eq, Structural)]
pub struct MemoryStats {
    pub total_memory: u64,
    pub used_memory: u64,
    pub free_memory: u64,
    pub available_memory: u64,
    pub total_swap: u64,
    pub used_swap: u64,
    pub free_swap: u64,
}

/// The members of the memory report.
pub open spec fn memory_members(stats: MemoryStats) -> Map<Seq<char>, Json> {
    no_members().insert("total_memory"@, Json::Unsigned(stats.total_memory)).insert(
        "used_memory"@,
        Json::Unsigned(stats.used_memory),
    ).insert("free_memory"@, Json::Unsigned(stats.free_memory)).insert(
        "available_memory"@,
        Json::Unsigned(stats.available_memory),
    ).insert("total_swap"@, Json::Unsigned(stats.total_swap)).insert(
        "used_swap"@,
        Json::Unsigned(stats.used_swap),
    ).insert("free_swap"@, Json::Unsigned(stats.free_swap))
}

/// The document of the memory report.
pub open spec fn memory_document(stats: MemoryStats) -> Json {
    Json::Object(memory_members(stats))
}

/// The memory report: one object whose seven members are the counters of
/// this one reading.
pub fn memory_report(stats: &MemoryStats) -> (report: serde_json::Value)
    ensures
        document(report) == memory_document(*stats),
{
    let mut members = new_object();
    object_insert(&mut members, "total_memory", unsigned_value(stats.total_memory));
    object_insert(&mut members, "used_memory", unsigned_value(stats.used_memory));
    object_insert(&mut members, "free_memory", unsigned_value(stats.free_memory));
    object_insert(&mut members, "available_memory", unsigned_value(stats.available_memory));
    object_insert(&mut members, "total_swap", unsigned_value(stats.total_swap));
    object_insert(&mut members, "used_swap", unsigned_value(stats.used_swap));
    object_insert(&mut members, "free_swap", unsigned_value(stats.free_swap));
    object_value(members)
}

/// The memory report has exactly the seven documented members, and each is
/// the counter of that name.
pub proof fn lemma_memory_members(stats: MemoryStats)
    ensures
        memory_members(stats).dom() =~= set![
            "total_memory"@,
            "used_memory"@,
            "free_memory"@,
            "available_memory"@,
            "total_swap"@,
            "used_swap"@,
            "free_swap"@,
        ],
        memory_members(stats)["total_memory"@] == Json::Unsigned(stats.total_memory),
        memory_members(stats)["used_memory"@] == Json::Unsigned(stats.used_memory),
        memory_members(stats)["free_memory"@] == Json::Unsigned(stats.free_memory),
        memory_members(stats)["available_memory"@] == Json::Unsigned(stats.available_memory),
        memory_members(stats)["total_swap"@] == Json::Unsigned(stats.total_swap),
        memory_members(stats)["used_swap"@] == Json::Unsigned(stats.used_swap),
        memory_members(stats)["free_swap"@] == Json::Unsigned(stats.free_swap),
{
    reveal_strlit("total_memory");
    reveal_strlit("used_memory");
    reveal_strlit("free_memory");
    reveal_strlit("available_memory");
    reveal_strlit("total_swap");
    reveal_strlit("used_swap");
    reveal_strlit("free_swap");
    assert("total_memory"@.len() == 12 && "available_memory"@.len() == 16);
    assert("used_memory"@.len() == 11 && "free_memory"@.len() == 11);
    assert("total_swap"@.len() == 10 && "used_swap"@.len() == 9 && "free_swap"@.len() == 9);
    assert("used_memory"@[0] == 'u' && "free_memory"@[0] == 'f');
    assert("used_swap"@[0] == 'u' && "free_swap"@[0] == 'f');
}

/// A used swap within the total swap of a reading stays so in the report:
/// the two members are the reading's own counters.
pub proof fn lemma_report_keeps_swap_bound(stats: MemoryStats)
    requires
        stats.used_swap <= stats.total_swap,
    ensures
        memory_members(stats)["used_swap"@] matches Json::Unsigned(used)
            && memory_members(stats)["total_swap"@] matches Json::Unsigned(total) && used <= total,
{
    lemma_memory_members(stats);
}

} // verus!
