//! The network report: the byte counters of each interface.

use crate::json::{
    document, documents, lemma_documents_push, list_value, new_object, no_members, object_insert,
    object_value, text_value, unsigned_value, Json,
};
use vstd::prelude::*;

verus! {

/// The cumulative byte counters of one network interface.
#[derive(Clone, Debug)]
pub struct NetworkCounter {
    pub interface_name: String,
    pub received: u64,
    pub transmitted: u64,
}

/// The members of the entry of one interface.
pub open spec fn counter_members(counter: NetworkCounter) -> Map<Seq<char>, Json> {
    no_members().insert("interface_name"@, Json::Text(counter.interface_name@)).insert(
        "received"@,
        Json::Unsigned(counter.received),
    ).insert("transmitted"@, Json::Unsigned(counter.transmitted))
}

/// The document of the entry of one interface.
pub open spec fn counter_document(counter: NetworkCounter) -> Json {
    Json::Object(counter_members(counter))
}

/// The documents of the entries of `counters`, one for each, in order.
pub open spec fn counter_documents(counters: Seq<NetworkCounter>) -> Seq<Json> {
    counters.map_values(|counter: NetworkCounter| counter_document(counter))
}

/// The document of the network report.
pub open spec fn network_document(counters: Seq<NetworkCounter>) -> Json {
    Json::Object(no_members().insert("networks"@, Json::List(counter_documents(counters))))
}

/// The entry of one interface: its name and its two counters.
pub fn counter_entry(counter: &NetworkCounter) -> (entry: serde_json::Value)
    ensures
        document(entry) == counter_document(*counter),
{
    let mut members = new_object();
    object_insert(&mut members, "interface_name", text_value(counter.interface_name.clone()));
    object_insert(&mut members, "received", unsigned_value(counter.received));
    object_insert(&mut members, "transmitted", unsigned_value(counter.transmitted));
    object_value(members)
}

/// The network report: one object whose member `networks` lists the entry of
/// each interface, in the order given.
pub fn network_report(counters: &Vec<NetworkCounter>) -> (report: serde_json::Value)
    ensures
        document(report) == network_document(counters@),
{
    let mut entries: Vec<serde_json::Value> = Vec::new();
    let mut i: usize = 0;
    while i < counters.len()
        invariant
            i <= counters.len(),
            documents(entries@) == counter_documents(counters@.take(i as int)),
        decreases counters.len() - i,
    {
        let entry = counter_entry(&counters[i]);
        proof {
            lemma_documents_push(entries@, entry);
            assert(counters@.take(i + 1) =~= counters@.take(i as int).push(counters@[i as int]));
            assert(counter_documents(counters@.take(i + 1)) =~= counter_documents(
                counters@.take(i as int),
            ).push(counter_document(counters@[i as int])));
        }
        entries.push(entry);
        i = i + 1;
    }
    assert(counters@.take(counters.len() as int) =~= counters@);
    let mut members = new_object();
    object_insert(&mut members, "networks", list_value(entries));
    object_value(members)
}

/// The entry of an interface has exactly the three documented members.
pub proof fn lemma_counter_members(counter: NetworkCounter)
    ensures
        counter_members(counter).dom() =~= set!["interface_name"@, "received"@, "transmitted"@],
        counter_members(counter)["interface_name"@] == Json::Text(counter.interface_name@),
        counter_members(counter)["received"@] == Json::Unsigned(counter.received),
        counter_members(counter)["transmitted"@] == Json::Unsigned(counter.transmitted),
{
    reveal_strlit("interface_name");
    reveal_strlit("received");
    reveal_strlit("transmitted");
    assert("interface_name"@.len() == 14 && "received"@.len() == 8 && "transmitted"@.len() == 11);
}

/// The report lists as many entries as there are interfaces, the entry at
/// each place being that of the interface at that place.
pub proof fn lemma_network_entries(counters: Seq<NetworkCounter>)
    ensures
        counter_documents(counters).len() == counters.len(),
        forall|i: int|
            0 <= i < counters.len() ==> #[trigger] counter_documents(counters)[i]
                == counter_document(counters[i]),
{
}

} // verus!
