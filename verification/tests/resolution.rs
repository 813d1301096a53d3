use plugin_registry::{
    describe, load_plugin, load_system, parse_plugin, parse_system, ConfigError, DocStore,
    ParseError, ValidationReason,
};

fn store_of(docs: &[(&str, &str)]) -> DocStore {
    let mut store = DocStore::new();
    for (path, text) in docs {
        store.insert(path.to_string(), text.to_string());
    }
    store
}

const LIGHT: &str = "plugin_type = \"Tasmota\"\nname = \"tasmota-light\"\nschedule_file = \"light.json\"\n";

const PUMP: &str = "plugin_type = \"Shelly\"\nname = \"pump\"\nschedule_file = \"pump.json\"\n";

#[test]
fn scenario_single_light() {
    let store = store_of(&[("system.toml", "plugins = [\"light.toml\"]\n"), ("light.toml", LIGHT)]);
    let system = load_system(&store, "system.toml").expect("one good plugin must resolve");
    assert_eq!(system.len(), 1);
    let p = system.get(0);
    assert_eq!(p.plugin_type, "Tasmota");
    assert_eq!(p.name, "tasmota-light");
    assert_eq!(p.schedule_file, "light.json");
}

#[test]
fn scenario_missing_plugin_file() {
    let store = store_of(&[("system.toml", "plugins = [\"pump.toml\"]\n")]);
    match load_system(&store, "system.toml") {
        Err(ConfigError::Io { path }) => assert_eq!(path, "pump.toml"),
        other => panic!("expected an Io error for pump.toml, got {:?}", other),
    }
}

#[test]
fn scenario_empty_name() {
    let doc = "plugin_type = \"Tasmota\"\nname = \"\"\nschedule_file = \"x.json\"\n";
    let store = store_of(&[("bad.toml", doc)]);
    match load_plugin(&store, "bad.toml") {
        Err(ConfigError::Validation { path, reason: ValidationReason::EmptyName }) => {
            assert_eq!(path, "bad.toml")
        }
        other => panic!("expected an empty-name validation error, got {:?}", other),
    }
    let store = store_of(&[("system.toml", "plugins = [\"bad.toml\"]\n"), ("bad.toml", doc)]);
    assert!(load_system(&store, "system.toml").is_err());
}

#[test]
fn scenario_duplicate_name() {
    let other_pump = "plugin_type = \"Tasmota\"\nname = \"pump\"\nschedule_file = \"b.json\"\n";
    let store = store_of(&[
        ("system.toml", "plugins = [\"a.toml\", \"b.toml\"]\n"),
        ("a.toml", PUMP),
        ("b.toml", other_pump),
    ]);
    match load_system(&store, "system.toml") {
        Err(ConfigError::Validation { path, reason: ValidationReason::DuplicateName { name } }) => {
            assert_eq!(path, "b.toml");
            assert_eq!(name, "pump");
        }
        other => panic!("expected a duplicate-name validation error, got {:?}", other),
    }
}

#[test]
fn empty_system_resolves() {
    let store = store_of(&[("system.toml", "plugins = []\n")]);
    let system = load_system(&store, "system.toml").expect("an empty plugin list is valid");
    assert_eq!(system.len(), 0);
    assert!(describe(&system).is_empty());
}

#[test]
fn order_is_declaration_order() {
    let store = store_of(&[
        ("system.toml", "plugins = [\"light.toml\", \"pump.toml\"]\n"),
        ("light.toml", LIGHT),
        ("pump.toml", PUMP),
    ]);
    let system = load_system(&store, "system.toml").unwrap();
    assert_eq!(system.len(), 2);
    assert_eq!(system.get(0).name, "tasmota-light");
    assert_eq!(system.get(1).name, "pump");
}

#[test]
fn report_round_trip() {
    let store = store_of(&[
        ("system.toml", "plugins = [\"light.toml\", \"pump.toml\"]\n"),
        ("light.toml", LIGHT),
        ("pump.toml", PUMP),
    ]);
    let system = load_system(&store, "system.toml").unwrap();
    let report = describe(&system);
    assert_eq!(report.len(), system.len());
    for (i, summary) in report.iter().enumerate() {
        let p = system.get(i);
        assert_eq!(summary.name, p.name);
        assert_eq!(summary.plugin_type, p.plugin_type);
        assert_eq!(summary.schedule_file, p.schedule_file);
    }
}

#[test]
fn fail_closed_on_middle_plugin() {
    let store = store_of(&[
        ("system.toml", "plugins = [\"light.toml\", \"gone.toml\", \"pump.toml\"]\n"),
        ("light.toml", LIGHT),
        ("pump.toml", PUMP),
    ]);
    match load_system(&store, "system.toml") {
        Err(ConfigError::Io { path }) => assert_eq!(path, "gone.toml"),
        other => panic!("expected an Io error for gone.toml, got {:?}", other),
    }
}

#[test]
fn root_syntax_error() {
    let store = store_of(&[("system.toml", "plugins = [\"light.toml\"")]);
    match load_system(&store, "system.toml") {
        Err(ConfigError::Parse { path, error: ParseError::Syntax }) => {
            assert_eq!(path, "system.toml")
        }
        other => panic!("expected a syntax error, got {:?}", other),
    }
}

#[test]
fn root_schema_errors() {
    for doc in ["title = \"no plugin list\"\n", "plugins = \"light.toml\"\n", "plugins = [1, 2]\n"]
    {
        let store = store_of(&[("system.toml", doc)]);
        match load_system(&store, "system.toml") {
            Err(ConfigError::Parse { path, error: ParseError::Schema }) => {
                assert_eq!(path, "system.toml")
            }
            other => panic!("expected a schema error for {:?}, got {:?}", doc, other),
        }
    }
}

#[test]
fn missing_root_is_io_error() {
    let store = DocStore::new();
    match load_system(&store, "system.toml") {
        Err(ConfigError::Io { path }) => assert_eq!(path, "system.toml"),
        other => panic!("expected an Io error for the root, got {:?}", other),
    }
}

#[test]
fn plugin_parse_and_schema() {
    let plugin = parse_plugin(LIGHT).expect("a complete descriptor parses");
    assert_eq!(plugin.plugin_type, "Tasmota");
    assert_eq!(plugin.name, "tasmota-light");
    assert_eq!(plugin.schedule_file, "light.json");
    assert!(matches!(parse_plugin("not toml ["), Err(ParseError::Syntax)));
    assert!(matches!(
        parse_plugin("plugin_type = \"Tasmota\"\nname = \"x\"\n"),
        Err(ParseError::Schema)
    ));
    assert!(matches!(
        parse_plugin("plugin_type = 5\nname = \"x\"\nschedule_file = \"s\"\n"),
        Err(ParseError::Schema)
    ));
}

#[test]
fn system_parse_keeps_order_and_tolerates_extras() {
    let config = parse_system("extra = 3\nplugins = [\"b.toml\", \"a.toml\"]\n").unwrap();
    assert_eq!(config.plugins, vec!["b.toml".to_string(), "a.toml".to_string()]);
}

#[test]
fn plugin_parse_tolerates_extras() {
    let doc = "plugin_type = \"Tasmota\"\nname = \"n\"\nschedule_file = \"s\"\ncomment = \"ignored\"\n";
    let plugin = parse_plugin(doc).unwrap();
    assert_eq!(plugin.name, "n");
}

#[test]
fn empty_plugin_type_is_rejected() {
    let doc = "plugin_type = \"\"\nname = \"n\"\nschedule_file = \"s\"\n";
    let store = store_of(&[("p.toml", doc)]);
    assert!(matches!(
        load_plugin(&store, "p.toml"),
        Err(ConfigError::Validation { reason: ValidationReason::EmptyPluginType, .. })
    ));
}

#[test]
fn plugin_parse_reads_escapes() {
    let doc = "plugin_type = \"a\\\"b\"\nname = \"n\"\nschedule_file = \"s\"\n";
    let plugin = parse_plugin(doc).unwrap();
    assert_eq!(plugin.plugin_type, "a\"b");
}

#[test]
fn store_read_and_replace() {
    let mut store = DocStore::new();
    assert!(store.read("a.toml").is_none());
    store.insert("a.toml".to_string(), "one".to_string());
    store.insert("a.toml".to_string(), "two".to_string());
    assert_eq!(store.read("a.toml").unwrap().as_str(), "two");
    assert!(store.read("b.toml").is_none());
}

#[test]
fn load_plugin_success() {
    let store = store_of(&[("pump.toml", PUMP)]);
    let plugin = load_plugin(&store, "pump.toml").unwrap();
    assert_eq!(plugin.name, "pump");
    assert_eq!(plugin.plugin_type, "Shelly");
    assert_eq!(plugin.schedule_file, "pump.json");
}
