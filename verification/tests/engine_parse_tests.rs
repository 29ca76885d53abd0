use tt::error::Error;
use tt::google::{parse_body, parse_response, parse_t_response, parse_t_response_value, Endpoint};
use tt::json::Json;

const HELLO: &str = "[[[\"olá\",\"hello\",null,null,10]],[[\"interjection\",[\"olá\",\"oi\",\"alô\"],\
[[\"olá\",[\"hello\",\"hi\"],null,0.5],[\"oi\",[\"hi\",\"hello\"],null,0.3],[\"alô\",[\"hello\"],null,0.1]],\
\"hello\",9]],\"en\",null,null,null,1.0,[],[[\"en\"],null,[1.0],[\"en\"]]]";
const HOUSE: &str = "[[[\"casa\",\"house\",null,null,10]],null,\"en\",null,null,null,1.0,[],[[\"en\"],null,[1.0],[\"en\"]]]";
const MULTI: &str = "[[[\"Hello. \",\"Olá. \",null,null,10],[\"How are you?\",\"Como vai?\",null,null,10]],\
null,\"pt-BR\",null,null,null,1.0,[],[[\"pt-BR\"],null,[1.0],[\"pt-BR\"]]]";

#[test]
fn parses_primary_translation() {
    let t = parse_response(HELLO).unwrap();
    assert_eq!(t.primary, "olá");
}

#[test]
fn parses_detected_source() {
    let t = parse_response(HELLO).unwrap();
    assert_eq!(t.detected_source.as_deref(), Some("en"));
}

#[test]
fn parses_synonyms_with_back_translations() {
    let t = parse_response(HELLO).unwrap();
    assert_eq!(t.synonyms.len(), 3);
    assert_eq!(t.synonyms[0].word, "olá");
    assert_eq!(t.synonyms[0].back, vec!["hello", "hi"]);
    assert_eq!(t.synonyms[1].word, "oi");
    assert_eq!(t.synonyms[1].back, vec!["hi", "hello"]);
    assert_eq!(t.synonyms[2].word, "alô");
    assert_eq!(t.synonyms[2].back, vec!["hello"]);
}

#[test]
fn handles_missing_dictionary() {
    let t = parse_response(HOUSE).unwrap();
    assert_eq!(t.primary, "casa");
    assert_eq!(t.detected_source.as_deref(), Some("en"));
    assert!(t.synonyms.is_empty());
}

#[test]
fn concatenates_multiple_sentences() {
    let t = parse_response(MULTI).unwrap();
    assert_eq!(t.primary, "Hello. How are you?");
    assert_eq!(t.detected_source.as_deref(), Some("pt-BR"));
    assert!(t.synonyms.is_empty());
}

#[test]
fn rejects_invalid_json() {
    assert!(parse_response("not json at all").is_err());
}

#[test]
fn rejects_empty_translation() {
    assert!(parse_response("[[],null,\"en\"]").is_err());
    assert!(parse_response("[null,null,\"en\"]").is_err());
}

#[test]
fn parses_transliteration_rows() {
    let text = "[[[\"翻訳\",\"translation\",null,null,10],[null,null,\"Hon'yaku\",\"tranz\"]],null,\"en\"]";
    let t = parse_response(text).unwrap();
    assert_eq!(t.primary, "翻訳");
    assert_eq!(t.target_translit.as_deref(), Some("Hon'yaku"));
    assert_eq!(t.source_translit.as_deref(), Some("tranz"));
}

#[test]
fn parses_spelling_correction() {
    let text = "[[[\"receber\",\"recieve\",null,null,3]],null,\"en\",null,null,null,0.9,[\"<b><i>receive</i></b>\",\"receive\",[1]]]";
    let t = parse_response(text).unwrap();
    assert_eq!(t.primary, "receber");
    assert_eq!(t.correction.as_deref(), Some("receive"));
}

#[test]
fn no_correction_when_field_empty() {
    let text = "[[[\"casa\",\"house\",null,null,1]],null,\"en\",null,null,null,1.0,[]]";
    let t = parse_response(text).unwrap();
    assert_eq!(t.correction, None);
    assert_eq!(t.source_translit, None);
    assert_eq!(t.target_translit, None);
}

#[test]
fn tolerates_null_back_translations() {
    let text = "[[[\"casa\",\"house\",null,null,1]],[[\"noun\",[\"casa\"],[[\"casa\",null,null,0.9]],\"house\",1]],\"en\"]";
    let t = parse_response(text).unwrap();
    assert_eq!(t.synonyms.len(), 1);
    assert_eq!(t.synonyms[0].word, "casa");
    assert!(t.synonyms[0].back.is_empty());
}

const T_AUTO: &str = "[[\"good morning. all good?\",\"pt\"]]";
const T_EXPLICIT: &str = "[\"good morning\"]";

#[test]
fn t_format_with_auto_source_yields_primary_and_detected() {
    let t = parse_t_response(T_AUTO).unwrap();
    assert_eq!(t.primary, "good morning. all good?");
    assert_eq!(t.detected_source.as_deref(), Some("pt"));
    assert!(t.synonyms.is_empty());
}

#[test]
fn t_format_with_explicit_source_yields_primary_only() {
    let t = parse_t_response(T_EXPLICIT).unwrap();
    assert_eq!(t.primary, "good morning");
    assert_eq!(t.detected_source, None);
}

#[test]
fn t_format_rejects_empty_and_html() {
    assert!(parse_t_response("[]").is_err());
    assert!(parse_t_response("[[\"\",\"pt\"]]").is_err());
    assert!(parse_t_response("<html>Sorry</html>").is_err());
}

// Further shapes of a response.

#[test]
fn empty_response_is_a_parse_error() {
    match parse_response("[[],null,\"en\"]") {
        Err(Error::Parse(m)) => assert_eq!(m, "no translation in response"),
        other => panic!("got {other:?}"),
    }
    match parse_t_response_value(&Json::Null) {
        Err(Error::Parse(m)) => assert_eq!(m, "no translation in response"),
        other => panic!("got {other:?}"),
    }
}

#[test]
fn only_the_first_transliteration_counts() {
    let text = "[[[\"a\",\"x\"],[null,null,\"first\",\"\"],[\"b\",\"y\"],[null,null,\"second\",\"src\"]],null,null]";
    let t = parse_response(text).unwrap();
    assert_eq!(t.primary, "ab");
    assert_eq!(t.target_translit.as_deref(), Some("first"));
    assert_eq!(t.source_translit.as_deref(), Some("src"));
    assert_eq!(t.detected_source, None);
}

#[test]
fn synonym_groups_are_flattened_and_odd_entries_skipped() {
    let text = "[[[\"x\",\"y\"]],[[\"noun\",[],[[\"a\",[\"1\",2,\"3\"]],[7,[\"z\"]],[\"b\"]]],[\"verb\"],\
[\"adj\",[],[[\"c\",[]]]]],\"en\"]";
    let t = parse_response(text).unwrap();
    let words: Vec<&str> = t.synonyms.iter().map(|s| s.word.as_str()).collect();
    assert_eq!(words, vec!["a", "b", "c"]);
    assert_eq!(t.synonyms[0].back, vec!["1", "3"]);
    assert!(t.synonyms[1].back.is_empty());
}

#[test]
fn plain_string_t_response() {
    let t = parse_t_response("[\"oi\"]").unwrap();
    assert_eq!(t.primary, "oi");
    assert_eq!(t.detected_source, None);
}

#[test]
fn non_json_bodies_are_response_errors() {
    match parse_body(Endpoint::T, "<html>Sorry</html>") {
        Err(Error::Parse(m)) => assert!(!m.is_empty()),
        other => panic!("got {other:?}"),
    }
    assert_eq!(parse_body(Endpoint::Single, "[[[\"oi\",\"hi\"]]]").unwrap().primary, "oi");
    assert_eq!(parse_body(Endpoint::T, "[\"oi\"]").unwrap().primary, "oi");
    assert_eq!(parse_t_response("[[],1]").unwrap_err().exit_code(), 5);
}
