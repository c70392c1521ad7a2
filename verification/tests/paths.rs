use gron::output::json::{Context, JsonPath};
use gron::output::toml;
use gron::output::yaml;

#[test]
fn original_write_path() {
    let mut ctx = Context::new();

    // json
    assert_eq!("json = ", format!("{} = ", ctx.path_string()));

    // json[0]
    ctx.path.push(JsonPath::Array(0));
    assert_eq!("json[0] = ", format!("{} = ", ctx.path_string()));

    ctx.path.clear();

    // json.aaa
    ctx.path.push(JsonPath::Object("aaa".into()));
    assert_eq!("json.aaa = ", format!("{} = ", ctx.path_string()));

    // json.aaa.bbb
    ctx.path.push(JsonPath::Object("bbb".into()));
    assert_eq!("json.aaa.bbb = ", format!("{} = ", ctx.path_string()));

    // json.aaa.bbb[1]
    ctx.path.push(JsonPath::Array(1));
    assert_eq!("json.aaa.bbb[1] = ", format!("{} = ", ctx.path_string()));
}

#[test]
fn round_trip_path_rendering() {
    let mut ctx = Context::new();
    ctx.path.push(JsonPath::Object("a".into()));
    ctx.path.push(JsonPath::Array(0));
    ctx.path.push(JsonPath::Object("b".into()));
    assert_eq!("json.a[0].b", ctx.path_string());
}

#[test]
fn json5_context_root() {
    let ctx = Context::new_json5();
    assert_eq!("json5", ctx.path_string());
}

#[test]
fn multi_digit_indices() {
    let mut ctx = Context::new();
    ctx.path.push(JsonPath::Array(10));
    ctx.path.push(JsonPath::Array(203));
    assert_eq!("json[10][203]", ctx.path_string());
}

#[test]
fn toml_context_path() {
    let mut ctx = toml::Context::default();
    assert_eq!("toml", ctx.path_string());
    ctx.path.push(toml::TomlPath::Object("server".into()));
    ctx.path.push(toml::TomlPath::Array(2));
    assert_eq!("toml.server[2]", ctx.path_string());
}

#[test]
fn yaml_context_path() {
    let mut ctx = yaml::Context::default();
    assert_eq!("yaml", ctx.path_string());
    ctx.path.push(yaml::YamlPath::Mapping("spec".into()));
    ctx.path.push(yaml::YamlPath::Array(0));
    assert_eq!("yaml.spec[0]", ctx.path_string());
}
