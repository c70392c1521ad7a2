use gron::cli::ArgInputType;
use gron::gron;
use gron::gron_auto;
use gron::input::{GronError, InputType};
use gron::output::{Color, Config, WriterKind};

fn config() -> Config {
    Config {
        color: Color::Regular,
    }
}

#[test]
fn json_forced_exact_output() {
    let out = InputType::Json
        .write(r#"{"a": [1, true, null]}"#, &WriterKind::Gron, &config())
        .unwrap();
    assert_eq!(
        "json = {}\njson.a = []\njson.a[0] = 1\njson.a[1] = true\njson.a[2] = null\n",
        out
    );
}

#[test]
fn json_empty_containers_single_line() {
    let cfg = config();
    assert_eq!(
        "json = {}\n",
        InputType::Json.write("{}", &WriterKind::Gron, &cfg).unwrap()
    );
    assert_eq!(
        "json = []\n",
        InputType::Json.write("[]", &WriterKind::Gron, &cfg).unwrap()
    );
}

#[test]
fn json5_accepts_relaxed_syntax() {
    let out = InputType::Json5
        .write_gron("{a: 1, /* note */ b: 'x', }", &config())
        .unwrap();
    assert_eq!("json5 = {}\njson5.a = 1\njson5.b = \"x\"\n", out);
}

#[test]
fn toml_tables_and_scalars() {
    let text = "x = 1\n\n[t]\ny = \"z\"\n";
    let out = InputType::Toml.write_gron(text, &config()).unwrap();
    // The toml crate's tables iterate in sorted key order.
    assert_eq!("toml = {}\ntoml.t = {}\ntoml.t.y = \"z\"\ntoml.x = 1\n", out);
}

#[test]
fn yaml_documents_and_key_quoting() {
    let text = "\"null\": 1\n\"123\": 2\n\"true\": 3\n\"a b\": 4\nname: 5\n";
    let out = InputType::Yaml.write_gron(text, &config()).unwrap();
    assert_eq!(
        "yaml = {}\nyaml.\"null\" = 1\nyaml.\"123\" = 2\nyaml.\"true\" = 3\nyaml.\"a b\" = 4\nyaml.name = 5\n",
        out
    );
}

#[test]
fn yaml_non_string_keys() {
    let text = "1: a\ntrue: b\n";
    let out = InputType::Yaml.write_gron(text, &config()).unwrap();
    assert_eq!("yaml = {}\nyaml.1 = \"a\"\nyaml.true = \"b\"\n", out);
}

#[test]
fn auto_detect_prefers_json() {
    // Valid under JSON and YAML alike; JSON is tried first.
    let out = gron_auto(None, "1", &config()).unwrap();
    assert_eq!("json = 1\n", out);
}

#[test]
fn auto_detect_falls_through_to_yaml() {
    let out = gron_auto(None, "a: 1\n", &config()).unwrap();
    assert_eq!("yaml = {}\nyaml.a = 1\n", out);
}

#[test]
fn auto_detect_exhausted() {
    let r = gron_auto(None, "{", &config());
    assert_eq!(Err(GronError::AutoDetectFailed), r);
    assert_eq!(
        "Input format auto detection failed.",
        GronError::AutoDetectFailed.message()
    );
}

#[test]
fn extension_guess_wins_and_is_final() {
    // A guessed extension selects the format outright.
    let out = gron_auto(Some("yml"), "a: 1\n", &config()).unwrap();
    assert_eq!("yaml = {}\nyaml.a = 1\n", out);

    // Its parse failure is final: no fallback to other formats.
    let r = gron_auto(Some("json"), "a: 1\n", &config());
    assert!(matches!(r, Err(GronError::Deserialize(_))));

    // An unrecognized extension falls back to trying each format.
    let out = gron_auto(Some("html"), "a: 1\n", &config()).unwrap();
    assert_eq!("yaml = {}\nyaml.a = 1\n", out);
}

#[test]
fn forced_format_parse_error() {
    let r = InputType::Json.write_gron("{", &config());
    assert!(matches!(r, Err(GronError::Deserialize(_))));
    match r {
        Err(e) => assert!(!e.message().is_empty()),
        Ok(_) => panic!("expected an error"),
    }
}

#[test]
fn gron_dispatches_forced_and_auto() {
    let out = gron(ArgInputType::Toml, None, "x = 1\n", &config()).unwrap();
    assert_eq!("toml = {}\ntoml.x = 1\n", out);

    let out = gron(ArgInputType::Auto, None, "[1, 2]", &config()).unwrap();
    assert_eq!("json = []\njson[0] = 1\njson[1] = 2\n", out);
}

#[test]
fn rerun_is_byte_identical() {
    let cfg = config();
    let text = "b: 2\na: 1\n";
    let first = gron(ArgInputType::Yaml, None, text, &cfg).unwrap();
    let second = gron(ArgInputType::Yaml, None, text, &cfg).unwrap();
    assert_eq!(first, second);
    // Insertion order of the source document is kept.
    assert_eq!("yaml = {}\nyaml.b = 2\nyaml.a = 1\n", first);
}

#[test]
fn yaml_tagged_values() {
    let out = InputType::Yaml
        .write_gron("!Point\nx: 1\ny: 2\n", &config())
        .unwrap();
    assert_eq!(
        "yaml = !Point\nyaml = {}\nyaml.x = 1\nyaml.y = 2\n",
        out
    );
}

#[test]
fn tokens_for_auto_matches_plain_text() {
    let toks = gron::gron_tokens_for(ArgInputType::Auto, None, "a: 1\n", &config()).unwrap();
    let mut s = String::new();
    for t in &toks {
        s.push_str(&t.text);
    }
    assert_eq!("yaml = {}\nyaml.a = 1\n", s);
}

#[test]
fn nested_string_content_kept_verbatim() {
    let out = InputType::Json
        .write_gron(r#"{"s": "a b \"c\""}"#, &config())
        .unwrap();
    // The renderer wraps strings in quotes without escaping the content.
    assert_eq!("json = {}\njson.s = \"a b \"c\"\"\n", out);
}
