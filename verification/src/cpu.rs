//! The processor report: per-core usage, load average and the product name
//! read from the lines of the processor description.

use crate::json::{
    document, documents, list_value, new_object, no_members, object_insert, object_value,
    text_value, Json,
};
use crate::text::{chars_of, trim_range, trimmed};
use vstd::prelude::*;

verus! {

/// The index of the first colon of `text` at or after `from`, or the length
/// of `text` where there is none.
pub open spec fn find_colon(text: Seq<char>, from: int) -> int
    decreases text.len() - from,
{
    if from >= text.len() {
        text.len() as int
    } else if text[from] == ':' {
        from
    } else {
        find_colon(text, from + 1)
    }
}

/// What stands between the first colon of `line` and the second, or the end
/// of the line where there is no second; `None` for a line without a colon.
pub open spec fn second_field(line: Seq<char>) -> Option<Seq<char>> {
    let first = find_colon(line, 0);
    if first >= line.len() {
        None
    } else {
        Some(line.subrange(first + 1, find_colon(line, first + 1)))
    }
}

/// The product name that `line` gives: the trimmed second field of a line
/// that starts with `model name`.
pub open spec fn model_name_of_line(line: Seq<char>) -> Option<Seq<char>> {
    if "model name"@.is_prefix_of(line) {
        match second_field(line) {
            Some(field) => Some(trimmed(field)),
            None => None,
        }
    } else {
        None
    }
}

/// The product name of the first of `lines` that gives one.
pub open spec fn first_model_name(lines: Seq<Seq<char>>) -> Option<Seq<char>>
    decreases lines.len(),
{
    if lines.len() == 0 {
        None
    } else if model_name_of_line(lines.first()) is Some {
        model_name_of_line(lines.first())
    } else {
        first_model_name(lines.drop_first())
    }
}

/// The product name reported where the description gives none.
pub open spec fn unknown_product_name() -> Seq<char> {
    "Could not get CPU Product Name"@
}

/// `find_colon` gives the least index of a colon at or after `from`.
pub proof fn lemma_find_colon(text: Seq<char>, from: int)
    requires
        0 <= from <= text.len(),
    ensures
        from <= find_colon(text, from) <= text.len(),
        find_colon(text, from) < text.len() ==> text[find_colon(text, from)] == ':',
        forall|i: int| from <= i < find_colon(text, from) ==> #[trigger] text[i] != ':',
    decreases text.len() - from,
{
    if from < text.len() && text[from] != ':' {
        lemma_find_colon(text, from + 1);
    }
}

/// The first of `lines` that gives a product name decides, and no line
/// giving one means none is found.
pub proof fn lemma_first_model_name(lines: Seq<Seq<char>>)
    ensures
        first_model_name(lines) is None <==> forall|i: int|
            0 <= i < lines.len() ==> model_name_of_line(#[trigger] lines[i]) is None,
        first_model_name(lines) is Some ==> exists|i: int|
            0 <= i < lines.len() && first_model_name(lines) == model_name_of_line(
                #[trigger] lines[i],
            ) && forall|j: int| 0 <= j < i ==> model_name_of_line(#[trigger] lines[j]) is None,
    decreases lines.len(),
{
    if lines.len() > 0 {
        if model_name_of_line(lines.first()) is Some {
            assert(first_model_name(lines) == model_name_of_line(lines[0]));
        } else {
            let rest = lines.drop_first();
            lemma_first_model_name(rest);
            if first_model_name(lines) is Some {
                let i = choose|i: int|
                    0 <= i < rest.len() && first_model_name(rest) == model_name_of_line(
                        #[trigger] rest[i],
                    ) && forall|j: int|
                        0 <= j < i ==> model_name_of_line(#[trigger] rest[j]) is None;
                assert(first_model_name(lines) == model_name_of_line(lines[i + 1]));
                assert forall|j: int| 0 <= j < i + 1 implies model_name_of_line(
                    #[trigger] lines[j],
                ) is None by {
                    if j > 0 {
                        assert(lines[j] == rest[j - 1]);
                    }
                }
            } else {
                assert forall|i: int| 0 <= i < lines.len() implies model_name_of_line(
                    #[trigger] lines[i],
                ) is None by {
                    if i > 0 {
                        assert(lines[i] == rest[i - 1]);
                    }
                }
            }
        }
    }
}

/// The index of the first colon of `chars` at or after `from`.
fn colon_index(chars: &Vec<char>, from: usize) -> (index: usize)
    requires
        from <= chars.len(),
    ensures
        index == find_colon(chars@, from as int),
        from <= index <= chars.len(),
{
    let mut index: usize = from;
    while index < chars.len() && chars[index] != ':'
        invariant
            from <= index <= chars.len(),
            find_colon(chars@, from as int) == find_colon(chars@, index as int),
        decreases chars.len() - index,
    {
        index = index + 1;
    }
    index
}

/// Whether `chars` starts with the characters of `prefix`.
fn starts_with(chars: &Vec<char>, prefix: &str) -> (b: bool)
    ensures
        b == prefix@.is_prefix_of(chars@),
{
    let wanted = chars_of(prefix);
    if wanted.len() > chars.len() {
        return false;
    }
    let mut i: usize = 0;
    while i < wanted.len()
        invariant
            i <= wanted.len() <= chars.len(),
            wanted@ == prefix@,
            wanted@.take(i as int) == chars@.take(i as int),
        decreases wanted.len() - i,
    {
        if wanted[i] != chars[i] {
            assert(wanted@[i as int] != chars@.subrange(0, wanted.len() as int)[i as int]);
            return false;
        }
        assert(wanted@.take(i + 1) =~= wanted@.take(i as int).push(wanted@[i as int]));
        assert(chars@.take(i + 1) =~= chars@.take(i as int).push(chars@[i as int]));
        i = i + 1;
    }
    assert(wanted@.take(wanted.len() as int) =~= wanted@);
    true
}

/// The product name that one line of the processor description gives, if it
/// gives one.
pub fn model_name_in_line(line: &str) -> (name: Option<String>)
    ensures
        name.deep_view() == model_name_of_line(line@),
{
    let chars = chars_of(line);
    if !starts_with(&chars, "model name") {
        return None;
    }
    let first = colon_index(&chars, 0);
    if first == chars.len() {
        return None;
    }
    let second = colon_index(&chars, first + 1);
    let (from, to) = trim_range(&chars, first + 1, second);
    let name = line.substring_char(from, to).to_owned();
    Some(name)
}

/// The product name that the lines of the processor description give: that
/// of the first line that gives one.
pub fn get_cpu_product_name(lines: &Vec<String>) -> (name: Option<String>)
    ensures
        name.deep_view() == first_model_name(lines.deep_view()),
{
    let ghost texts = lines.deep_view();
    let mut i: usize = 0;
    assert(texts.skip(0) =~= texts);
    while i < lines.len()
        invariant
            i <= lines.len(),
            texts == lines.deep_view(),
            first_model_name(texts) == first_model_name(texts.skip(i as int)),
        decreases lines.len() - i,
    {
        let found = model_name_in_line(lines[i].as_str());
        proof {
            let rest = texts.skip(i as int);
            assert(rest.first() == lines[i as int]@);
            assert(rest.drop_first() =~= texts.skip(i + 1));
        }
        if found.is_some() {
            return found;
        }
        i = i + 1;
    }
    None
}

/// The product name to report: the one that the lines give, or the fixed
/// text that stands for an unknown one.
pub fn cpu_product_name(lines: &Vec<String>) -> (name: String)
    ensures
        name@ == match first_model_name(lines.deep_view()) {
            Some(found) => found,
            None => unknown_product_name(),
        },
{
    match get_cpu_product_name(lines) {
        Some(found) => found,
        None => "Could not get CPU Product Name".to_owned(),
    }
}

/// The members of the processor report.
pub open spec fn cpu_members(usage: Seq<Json>, load_average: Json, product_name: Seq<char>) -> Map<
    Seq<char>,
    Json,
> {
    no_members().insert("cpu_usage"@, Json::List(usage)).insert(
        "cpu_load_average"@,
        load_average,
    ).insert("cpu_product_name"@, Json::Text(product_name))
}

/// The document of the processor report.
pub open spec fn cpu_document(usage: Seq<Json>, load_average: Json, product_name: Seq<char>) -> Json {
    Json::Object(cpu_members(usage, load_average, product_name))
}

/// The processor report: the usage of each core in the order given, the
/// load average and the product name.
pub fn cpu_report(
    cpu_usage: Vec<serde_json::Value>,
    load_average: serde_json::Value,
    product_name: String,
) -> (report: serde_json::Value)
    ensures
        document(report) == cpu_document(
            documents(cpu_usage@),
            document(load_average),
            product_name@,
        ),
{
    let mut members = new_object();
    object_insert(&mut members, "cpu_usage", list_value(cpu_usage));
    object_insert(&mut members, "cpu_load_average", load_average);
    object_insert(&mut members, "cpu_product_name", text_value(product_name));
    object_value(members)
}

/// The processor report has exactly the three documented members: the list
/// of usages, the load average and the product name.
pub proof fn lemma_cpu_members(usage: Seq<Json>, load_average: Json, product_name: Seq<char>)
    ensures
        cpu_members(usage, load_average, product_name).dom() =~= set![
            "cpu_usage"@,
            "cpu_load_average"@,
            "cpu_product_name"@,
        ],
        cpu_members(usage, load_average, product_name)["cpu_usage"@] == Json::List(usage),
        cpu_members(usage, load_average, product_name)["cpu_load_average"@] == load_average,
        cpu_members(usage, load_average, product_name)["cpu_product_name"@] == Json::Text(
            product_name,
        ),
{
    reveal_strlit("cpu_usage");
    reveal_strlit("cpu_load_average");
    reveal_strlit("cpu_product_name");
    assert("cpu_usage"@.len() == 9 && "cpu_load_average"@.len() == 16);
    assert("cpu_product_name"@.len() == 16);
    assert("cpu_load_average"@[4] == 'l' && "cpu_product_name"@[4] == 'p');
}

/// The report lists one usage for each core handed in, the usage at each
/// place being that of the core at that place.
pub proof fn lemma_one_usage_per_core(cpu_usage: Seq<serde_json::Value>)
    ensures
        documents(cpu_usage).len() == cpu_usage.len(),
        forall|i: int|
            0 <= i < cpu_usage.len() ==> #[trigger] documents(cpu_usage)[i] == document(
                cpu_usage[i],
            ),
{
}

} // verus!
