use wordnik::{
    parse_json, pretty_from_json, render_pretty, Definition, Json, Operation, Wordnik, WordnikError,
};

const BASE: &str = "https://api.example.com/v4/word.json/";

fn def(word: &str, text: &str, pos: &str, attribution: &str) -> Definition {
    Definition {
        word: word.to_string(),
        definition: text.to_string(),
        part_of_speech: pos.to_string(),
        attribution_text: attribution.to_string(),
        source_dictionary: "wordnet".to_string(),
        attribution_url: "https://wordnet.princeton.edu/".to_string(),
        wordnik_url: "https://www.wordnik.com/words/run".to_string(),
    }
}

fn record_json(word: &str, text: Option<&str>, pos: Option<&str>, attribution: &str) -> String {
    let mut s = format!("{{\"word\":\"{}\"", word);
    if let Some(t) = text {
        s += &format!(",\"text\":\"{}\"", t);
    }
    if let Some(p) = pos {
        s += &format!(",\"partOfSpeech\":\"{}\"", p);
    }
    s += &format!(
        ",\"attributionText\":\"{}\",\"sourceDictionary\":\"wordnet\",\"attributionUrl\":\"https://wordnet.princeton.edu/\",\"wordnikUrl\":\"https://www.wordnik.com/words/run\"}}",
        attribution
    );
    s
}

fn api() -> Wordnik {
    Wordnik::new("K".to_string(), BASE.to_string())
}

#[test]
fn url_for_hello_definitions() {
    assert_eq!(
        api().url("hello", Operation::Definitions),
        "https://api.example.com/v4/word.json/hello/definitions?api_key=K"
    );
    assert_eq!(
        api().definitions_url("hello"),
        "https://api.example.com/v4/word.json/hello/definitions?api_key=K"
    );
}

#[test]
fn url_for_other_operations() {
    assert_eq!(
        api().url("cat", Operation::RelatedWords),
        "https://api.example.com/v4/word.json/cat/relatedWords?api_key=K"
    );
    assert_eq!(
        api().url("cat", Operation::TopExample),
        "https://api.example.com/v4/word.json/cat/topExample?api_key=K"
    );
}

#[test]
fn operation_names() {
    let all = [
        (Operation::Audio, "audio"),
        (Operation::Definitions, "definitions"),
        (Operation::Etymologies, "etymologies"),
        (Operation::Examples, "examples"),
        (Operation::Frequency, "frequency"),
        (Operation::Hyphenation, "hyphenation"),
        (Operation::Phrases, "phrases"),
        (Operation::Pronunciations, "pronunciations"),
        (Operation::RelatedWords, "relatedWords"),
        (Operation::ScrabbleScore, "scrabbleScore"),
        (Operation::TopExample, "topExample"),
    ];
    for (op, name) in all {
        assert_eq!(op.name(), name);
        assert_eq!(op.to_string(), name);
    }
}

#[test]
fn pretty_line_with_part_of_speech() {
    assert_eq!(def("run", "to move fast", "verb", "WordNet").to_pretty(), "verb to move fast\n");
}

#[test]
fn pretty_line_without_part_of_speech() {
    assert_eq!(def("run", "to move fast", "", "WordNet").to_pretty(), "to move fast\n");
    let out = render_pretty(&vec![def("run", "to move fast", "", "WordNet")]);
    assert_eq!(out, "WordNet\n  * to move fast\n\n");
}

#[test]
fn same_attribution_grouped_under_one_header() {
    let defs = vec![def("run", "d1", "noun", "WordNet"), def("run", "d2", "verb", "WordNet")];
    assert_eq!(render_pretty(&defs), "WordNet\n  * noun d1\n  * verb d2\n\n");
}

#[test]
fn groups_in_order_of_first_occurrence() {
    let defs = vec![
        def("run", "a", "noun", "Century"),
        def("run", "b", "verb", "WordNet"),
        def("run", "c", "", "Century"),
    ];
    assert_eq!(
        render_pretty(&defs),
        "Century\n  * noun a\n  * c\n\nWordNet\n  * verb b\n\n"
    );
}

#[test]
fn render_of_nothing_is_empty() {
    assert_eq!(render_pretty(&Vec::new()), "");
}

#[test]
fn pretty_from_body_groups_definitions() {
    let body = format!(
        "[{},{}]",
        record_json("run", Some("d1"), Some("noun"), "WordNet"),
        record_json("run", Some("d2"), Some("verb"), "WordNet")
    );
    assert_eq!(
        api().get_definitions_pretty(&body),
        Ok("WordNet\n  * noun d1\n  * verb d2\n\n".to_string())
    );
}

#[test]
fn definitions_keep_fields_and_order() {
    let body = format!(
        "[{},{}]",
        record_json("run", Some("to move fast"), Some("verb"), "WordNet"),
        record_json("run", Some("a score in cricket"), None, "Century")
    );
    let defs = api().get_definitions(&body).unwrap();
    assert_eq!(defs.len(), 2);
    assert_eq!(defs[0], def("run", "to move fast", "verb", "WordNet"));
    assert_eq!(defs[1], def("run", "a score in cricket", "", "Century"));
}

#[test]
fn empty_text_is_left_out() {
    let body = format!(
        "[{},{},{}]",
        record_json("run", Some(""), Some("noun"), "WordNet"),
        record_json("run", None, Some("noun"), "WordNet"),
        record_json("run", Some("kept"), Some("noun"), "WordNet")
    );
    let defs = api().get_definitions(&body).unwrap();
    assert_eq!(defs, vec![def("run", "kept", "noun", "WordNet")]);
}

#[test]
fn empty_array_gives_no_definitions() {
    assert_eq!(api().get_definitions("[]"), Ok(Vec::new()));
}

#[test]
fn error_object_is_json_but_not_definitions() {
    let body = "{\"message\":\"Invalid authentication credentials\"}";
    let parsed = parse_json(body).unwrap();
    assert_eq!(
        parsed,
        Json::Object(vec![(
            "message".to_string(),
            Json::Str("Invalid authentication credentials".to_string())
        )])
    );
    assert_eq!(api().get_definitions(body), Err(WordnikError::Deserialization));
    assert_eq!(pretty_from_json(&parsed), Err(WordnikError::Deserialization));
}

#[test]
fn invalid_json_is_a_parse_error() {
    assert_eq!(api().get_definitions("[{\"word\":"), Err(WordnikError::Parse));
    assert_eq!(api().get_definitions_pretty("not json"), Err(WordnikError::Parse));
}

#[test]
fn missing_fields_read_as_empty() {
    let body = "[{\"word\":\"run\",\"text\":\"t\",\"sourceDictionary\":\"s\",\"attributionUrl\":\"u\",\"wordnikUrl\":\"w\"}]";
    let defs = api().get_definitions(body).unwrap();
    assert_eq!(defs.len(), 1);
    assert_eq!(defs[0].word, "run");
    assert_eq!(defs[0].definition, "t");
    assert_eq!(defs[0].attribution_text, "");
    assert_eq!(defs[0].part_of_speech, "");

    let defs = api().get_definitions("[{\"text\":\"a greeting\"}]").unwrap();
    assert_eq!(
        defs,
        vec![Definition {
            definition: "a greeting".to_string(),
            ..Definition::default()
        }]
    );
    assert_eq!(
        api().get_definitions_pretty("[{\"text\":\"a greeting\"}]"),
        Ok("\n  * a greeting\n\n".to_string())
    );
}

#[test]
fn field_of_wrong_type_fails() {
    let body = "[{\"word\":\"run\",\"text\":null,\"attributionText\":\"a\",\"sourceDictionary\":\"s\",\"attributionUrl\":\"u\",\"wordnikUrl\":\"w\"}]";
    assert_eq!(api().get_definitions(body), Err(WordnikError::Deserialization));
    assert_eq!(api().get_definitions("[1]"), Err(WordnikError::Deserialization));
}

#[test]
fn parse_keeps_values() {
    assert_eq!(
        parse_json("[1, true, null, \"x\", [], {}]"),
        Ok(Json::Array(vec![
            Json::Number("1".to_string()),
            Json::Bool(true),
            Json::Null,
            Json::Str("x".to_string()),
            Json::Array(Vec::new()),
            Json::Object(Vec::new()),
        ]))
    );
}
