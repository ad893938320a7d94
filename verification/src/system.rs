//! The system report: the identity of the operating system and host, and
//! the time since boot as a readable duration.

use crate::json::{
    document, new_object, no_members, object_insert, object_value, text_value, Json,
};
use crate::text::{known_or_unknown, or_unknown};
use vstd::prelude::*;

verus! {

/// What the operating system tells of itself; an identity that it does not
/// tell is `None`.
#[derive(Clone, Debug)]
pub struct SystemReadings {
    pub name: Option<String>,
    pub kernel_version: Option<String>,
    pub os_version: Option<String>,
    pub long_os_version: Option<String>,
    pub distribution_id: String,
    pub host_name: Option<String>,
    /// Seconds since boot.
    pub uptime: u64,
}

/// The content of the system report.
#[derive(Clone, Debug)]
pub struct SystemInfo {
    pub name: String,
    pub kernel_version: String,
    pub os_version: String,
    pub long_os_version: String,
    pub distribution_id: String,
    pub host_name: String,
    pub uptime: String,
}

/// The readable form of a duration of whole seconds, as `humantime` writes
/// it.
pub uninterp spec fn duration_text(seconds: u64) -> Seq<char>;

/// The seconds of the duration that `humantime::parse_duration` reads from
/// `text`; `None` where it reads no duration, or one with a fraction of a
/// second.
pub uninterp spec fn parsed_seconds(text: Seq<char>) -> Option<u64>;

/// `humantime::format_duration` on a duration of whole seconds, written out
/// with `to_string`. The text depends on the number of seconds alone. It is
/// never empty: a zero duration is written as `0s`, and of any other at
/// least one unit is not zero and is written. `humantime::parse_duration`
/// reads the same duration back from it, as the documentation of
/// `format_duration` guarantees.
#[verifier::external_body]
fn format_seconds(seconds: u64) -> (text: String)
    ensures
        text@ == duration_text(seconds),
        text@.len() > 0,
        parsed_seconds(text@) == Some(seconds),
{
    humantime::format_duration(std::time::Duration::new(seconds, 0)).to_string()
}

/// Whether `text` is the readable form of an uptime of `seconds`: what is
/// written for that many seconds, not empty, and read back as that many.
pub open spec fn tells_uptime(text: Seq<char>, seconds: u64) -> bool {
    &&& text == duration_text(seconds)
    &&& text.len() > 0
    &&& parsed_seconds(text) == Some(seconds)
}

/// The time since boot as a readable duration, for every reading.
pub fn format_uptime(seconds: u64) -> (text: String)
    ensures
        tells_uptime(text@, seconds),
{
    format_seconds(seconds)
}

/// Whether `info` tells what `readings` hold, with `uptime` as the time
/// since boot.
pub open spec fn describes(info: SystemInfo, readings: SystemReadings, uptime: Seq<char>) -> bool {
    &&& info.name@ == known_or_unknown(readings.name.deep_view())
    &&& info.kernel_version@ == known_or_unknown(readings.kernel_version.deep_view())
    &&& info.os_version@ == known_or_unknown(readings.os_version.deep_view())
    &&& info.long_os_version@ == known_or_unknown(readings.long_os_version.deep_view())
    &&& info.distribution_id@ == readings.distribution_id@
    &&& info.host_name@ == known_or_unknown(readings.host_name.deep_view())
    &&& info.uptime@ == uptime
}

/// The content of the system report for `readings`, with the time since
/// boot already formatted.
pub fn describe(readings: SystemReadings, uptime: String) -> (info: SystemInfo)
    ensures
        describes(info, readings, uptime@),
{
    SystemInfo {
        name: or_unknown(readings.name),
        kernel_version: or_unknown(readings.kernel_version),
        os_version: or_unknown(readings.os_version),
        long_os_version: or_unknown(readings.long_os_version),
        distribution_id: readings.distribution_id,
        host_name: or_unknown(readings.host_name),
        uptime,
    }
}

/// The content of the system report for `readings`.
pub fn system_info(readings: SystemReadings) -> (info: SystemInfo)
    ensures
        describes(info, readings, duration_text(readings.uptime)),
        tells_uptime(info.uptime@, readings.uptime),
{
    let uptime = format_uptime(readings.uptime);
    describe(readings, uptime)
}

/// The members of the system report.
pub open spec fn system_members(info: SystemInfo) -> Map<Seq<char>, Json> {
    no_members().insert("name"@, Json::Text(info.name@)).insert(
        "kernel_version"@,
        Json::Text(info.kernel_version@),
    ).insert("os_version"@, Json::Text(info.os_version@)).insert(
        "long_os_version"@,
        Json::Text(info.long_os_version@),
    ).insert("distribution_id"@, Json::Text(info.distribution_id@)).insert(
        "host_name"@,
        Json::Text(info.host_name@),
    ).insert("uptime"@, Json::Text(info.uptime@))
}

/// The document of the system report.
pub open spec fn system_document(info: SystemInfo) -> Json {
    Json::Object(system_members(info))
}

/// The system report: one object whose seven members are the texts of
/// `info`.
pub fn system_report(info: SystemInfo) -> (report: serde_json::Value)
    ensures
        document(report) == system_document(info),
{
    let mut members = new_object();
    object_insert(&mut members, "name", text_value(info.name));
    object_insert(&mut members, "kernel_version", text_value(info.kernel_version));
    object_insert(&mut members, "os_version", text_value(info.os_version));
    object_insert(&mut members, "long_os_version", text_value(info.long_os_version));
    object_insert(&mut members, "distribution_id", text_value(info.distribution_id));
    object_insert(&mut members, "host_name", text_value(info.host_name));
    object_insert(&mut members, "uptime", text_value(info.uptime));
    object_value(members)
}

/// The system report has exactly the seven documented members, and each is
/// the text of that name.
pub proof fn lemma_system_members(info: SystemInfo)
    ensures
        system_members(info).dom() =~= set![
            "name"@,
            "kernel_version"@,
            "os_version"@,
            "long_os_version"@,
            "distribution_id"@,
            "host_name"@,
            "uptime"@,
        ],
        system_members(info)["name"@] == Json::Text(info.name@),
        system_members(info)["kernel_version"@] == Json::Text(info.kernel_version@),
        system_members(info)["os_version"@] == Json::Text(info.os_version@),
        system_members(info)["long_os_version"@] == Json::Text(info.long_os_version@),
        system_members(info)["distribution_id"@] == Json::Text(info.distribution_id@),
        system_members(info)["host_name"@] == Json::Text(info.host_name@),
        system_members(info)["uptime"@] == Json::Text(info.uptime@),
{
    reveal_strlit("name");
    reveal_strlit("kernel_version");
    reveal_strlit("os_version");
    reveal_strlit("long_os_version");
    reveal_strlit("distribution_id");
    reveal_strlit("host_name");
    reveal_strlit("uptime");
    assert("name"@.len() == 4 && "kernel_version"@.len() == 14 && "os_version"@.len() == 10);
    assert("long_os_version"@.len() == 15 && "distribution_id"@.len() == 15);
    assert("host_name"@.len() == 9 && "uptime"@.len() == 6);
    assert("long_os_version"@[0] == 'l' && "distribution_id"@[0] == 'd');
}

/// Of two uptimes told, the one of the later reading reads back as no fewer
/// seconds than the one of the earlier reading, and neither is empty.
pub proof fn lemma_uptime_is_monotonic(earlier: u64, later: u64, first: Seq<char>, second: Seq<char>)
    requires
        earlier <= later,
        tells_uptime(first, earlier),
        tells_uptime(second, later),
    ensures
        first.len() > 0 && second.len() > 0,
        parsed_seconds(first) matches Some(before) && parsed_seconds(second) matches Some(after)
            && before <= after,
{
}

} // verus!
