use vstd::prelude::*;
use crate::definition::Definition;
use crate::json::{Json, WordnikError};

verus! {

/// The value of member `key`: that of the last member so named, if any.
pub open spec fn lookup(members: Seq<(String, Json)>, key: Seq<char>) -> Option<Json>
    decreases members.len(),
{
    if members.len() == 0 {
        None
    } else if members.last().0@ == key {
        Some(members.last().1)
    } else {
        lookup(members.drop_last(), key)
    }
}

/// Member `key` is a string, or absent.
pub open spec fn field_ok(members: Seq<(String, Json)>, key: Seq<char>) -> bool {
    match lookup(members, key) {
        None => true,
        Some(Json::Str(_)) => true,
        Some(_) => false,
    }
}

/// The text of member `key`; empty where it is absent.
pub open spec fn field_text(members: Seq<(String, Json)>, key: Seq<char>) -> Seq<char> {
    match lookup(members, key) {
        Some(Json::Str(s)) => s@,
        _ => Seq::empty(),
    }
}

/// The members of an object; none for any other value.
pub open spec fn members_of(j: Json) -> Seq<(String, Json)> {
    match j {
        Json::Object(m) => m@,
        _ => Seq::empty(),
    }
}

/// `j` is an object that reads as a definition: each of its seven fields is a
/// string or absent; other members are ignored.
pub open spec fn is_record(j: Json) -> bool {
    let m = members_of(j);
    &&& j is Object
    &&& field_ok(m, "word"@)
    &&& field_ok(m, "text"@)
    &&& field_ok(m, "partOfSpeech"@)
    &&& field_ok(m, "attributionText"@)
    &&& field_ok(m, "sourceDictionary"@)
    &&& field_ok(m, "attributionUrl"@)
    &&& field_ok(m, "wordnikUrl"@)
}

/// Every field of `d` holds the text of the corresponding member of `j`.
pub open spec fn record_matches(d: Definition, j: Json) -> bool {
    let m = members_of(j);
    &&& d.word@ == field_text(m, "word"@)
    &&& d.definition@ == field_text(m, "text"@)
    &&& d.part_of_speech@ == field_text(m, "partOfSpeech"@)
    &&& d.attribution_text@ == field_text(m, "attributionText"@)
    &&& d.source_dictionary@ == field_text(m, "sourceDictionary"@)
    &&& d.attribution_url@ == field_text(m, "attributionUrl"@)
    &&& d.wordnik_url@ == field_text(m, "wordnikUrl"@)
}

/// `j` is an array whose every element reads as a definition.
pub open spec fn is_definition_list(j: Json) -> bool {
    match j {
        Json::Array(items) => forall|i: int| 0 <= i < items@.len() ==> is_record(#[trigger] items@[i]),
        _ => false,
    }
}

/// The elements whose `text` is not empty, in order.
pub open spec fn with_text(items: Seq<Json>) -> Seq<Json>
    decreases items.len(),
{
    if items.len() == 0 {
        Seq::empty()
    } else if field_text(members_of(items.last()), "text"@).len() > 0 {
        with_text(items.drop_last()).push(items.last())
    } else {
        with_text(items.drop_last())
    }
}

/// The elements of an array; none for any other value.
pub open spec fn items_of(j: Json) -> Seq<Json> {
    match j {
        Json::Array(items) => items@,
        _ => Seq::empty(),
    }
}

/// `defs` are the definitions read from `items`, one for each element in turn.
pub open spec fn read_from(defs: Seq<Definition>, items: Seq<Json>) -> bool {
    &&& defs.len() == items.len()
    &&& forall|i: int| 0 <= i < defs.len() ==> record_matches(#[trigger] defs[i], items[i])
}

/// The index of the last member named `key`.
fn find_member(members: &Vec<(String, Json)>, key: &String) -> (r: Option<usize>)
    ensures
        match r {
            None => lookup(members@, key@) is None,
            Some(i) => i < members@.len() && lookup(members@, key@) == Some(members@[i as int].1),
        },
{
    let mut found: Option<usize> = None;
    let mut i: usize = 0;
    while i < members.len()
        invariant
            i <= members.len(),
            match found {
                None => lookup(members@.subrange(0, i as int), key@) is None,
                Some(t) => t < i && lookup(members@.subrange(0, i as int), key@) == Some(members@[t as int].1),
            },
        decreases members.len() - i,
    {
        proof {
            let cur = members@.subrange(0, i as int + 1);
            assert(cur.drop_last() =~= members@.subrange(0, i as int));
            assert(cur.last() == members@[i as int]);
        }
        if members[i].0 == *key {
            found = Some(i);
        }
        i = i + 1;
    }
    proof {
        assert(members@.subrange(0, members.len() as int) =~= members@);
    }
    found
}

/// The text of member `key`, empty where it is absent; `None` where it is
/// present but not a string.
fn read_field(members: &Vec<(String, Json)>, key: &str) -> (r: Option<String>)
    ensures
        r is Some <==> field_ok(members@, key@),
        r is Some ==> r->Some_0@ == field_text(members@, key@),
{
    let name = key.to_string();
    match find_member(members, &name) {
        None => Some(String::new()),
        Some(i) => match &members[i].1 {
            Json::Str(s) => Some(s.clone()),
            _ => None,
        },
    }
}

/// Reads one definition from a JSON object.
pub fn read_record(j: &Json) -> (r: Option<Definition>)
    ensures
        r is Some <==> is_record(*j),
        r is Some ==> record_matches(r->Some_0, *j),
{
    let members = match j {
        Json::Object(m) => m,
        _ => return None,
    };
    let word = read_field(members, "word");
    let text = read_field(members, "text");
    let part_of_speech = read_field(members, "partOfSpeech");
    let attribution_text = read_field(members, "attributionText");
    let source_dictionary = read_field(members, "sourceDictionary");
    let attribution_url = read_field(members, "attributionUrl");
    let wordnik_url = read_field(members, "wordnikUrl");
    match (word, text, part_of_speech, attribution_text, source_dictionary, attribution_url, wordnik_url) {
        (Some(word), Some(definition), Some(part_of_speech), Some(attribution_text), Some(source_dictionary), Some(attribution_url), Some(wordnik_url)) => Some(Definition {
            word,
            definition,
            part_of_speech,
            attribution_text,
            source_dictionary,
            attribution_url,
            wordnik_url,
        }),
        _ => None,
    }
}

/// Reads a definition from each element in turn, keeping those whose text is
/// not empty; `None` where an element is not a definition object.
fn read_items(items: &Vec<Json>) -> (r: Option<Vec<Definition>>)
    ensures
        r is Some <==> (forall|t: int| 0 <= t < items@.len() ==> is_record(#[trigger] items@[t])),
        r is Some ==> read_from(r->Some_0@, with_text(items@)),
{
    let mut out: Vec<Definition> = Vec::new();
    let mut i: usize = 0;
    while i < items.len()
        invariant
            i <= items.len(),
            forall|t: int| 0 <= t < i ==> is_record(#[trigger] items@[t]),
            read_from(out@, with_text(items@.subrange(0, i as int))),
        decreases items.len() - i,
    {
        proof {
            let cur = items@.subrange(0, i as int + 1);
            assert(cur.drop_last() =~= items@.subrange(0, i as int));
            assert(cur.last() == items@[i as int]);
        }
        match read_record(&items[i]) {
            None => return None,
            Some(d) => {
                if !d.definition.as_str().is_empty() {
                    out.push(d);
                }
            },
        }
        i = i + 1;
    }
    proof {
        assert(items@.subrange(0, items.len() as int) =~= items@);
    }
    Some(out)
}

/// Reads a list of definitions from a JSON document, leaving out those whose
/// text is empty. Fails with `Deserialization` when the document is not an
/// array of definition objects.
pub fn definitions_from_json(j: &Json) -> (r: Result<Vec<Definition>, WordnikError>)
    ensures
        r is Ok <==> is_definition_list(*j),
        r is Err ==> r == Err::<Vec<Definition>, WordnikError>(WordnikError::Deserialization),
        r is Ok ==> read_from(r->Ok_0@, with_text(items_of(*j))),
{
    match j {
        Json::Array(items) => match read_items(items) {
            Some(defs) => Ok(defs),
            None => Err(WordnikError::Deserialization),
        },
        _ => Err(WordnikError::Deserialization),
    }
}

} // verus!
