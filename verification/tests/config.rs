use sensor_dispatch::config::{SensorConfig, SensorEntry};
use sensor_dispatch::document::{Document, EntryNode};
use sensor_dispatch::error::ConfigMalformed;

fn text(value: &str) -> Option<String> {
    Some(value.to_string())
}

fn node(id: &str, scripts: &[&str]) -> EntryNode {
    EntryNode { id: text(id), scripts: Some(scripts.iter().map(|script| text(script)).collect()) }
}

fn entry(id: &str, scripts: &[&str]) -> SensorEntry {
    SensorEntry {
        id: id.to_string(),
        scripts: scripts.iter().map(|script| script.to_string()).collect(),
    }
}

#[test]
fn from_document_keeps_entries_in_document_order() {
    let document = Document {
        sensors: Some(vec![node("b", &["2.sh", "1.sh"]), node("a", &[]), node("b", &["3.sh"])]),
    };
    let config = SensorConfig::from_document("/srv".to_string(), &document).unwrap();
    assert_eq!(config.scripts_directory(), "/srv");
    assert_eq!(
        config.sensors(),
        &vec![entry("b", &["2.sh", "1.sh"]), entry("a", &[]), entry("b", &["3.sh"])]
    );
}

#[test]
fn from_document_accepts_no_entries() {
    let document = Document { sensors: Some(vec![]) };
    let config = SensorConfig::from_document(".".to_string(), &document).unwrap();
    assert!(config.sensors().is_empty());
}

#[test]
fn from_document_refuses_sensors_that_is_no_sequence() {
    let document = Document { sensors: None };
    assert_eq!(
        SensorConfig::from_document(".".to_string(), &document),
        Err(ConfigMalformed::SensorsNotSequence)
    );
}

#[test]
fn from_document_names_the_entry_without_string_id() {
    let document = Document {
        sensors: Some(vec![
            node("a", &["x.sh"]),
            node("b", &[]),
            EntryNode { id: None, scripts: Some(vec![]) },
            EntryNode { id: None, scripts: None },
        ]),
    };
    assert_eq!(
        SensorConfig::from_document(".".to_string(), &document),
        Err(ConfigMalformed::IdNotString { entry: 2 })
    );
}

#[test]
fn from_document_names_the_entry_without_scripts_sequence() {
    let document = Document {
        sensors: Some(vec![node("a", &["x.sh"]), EntryNode { id: text("b"), scripts: None }]),
    };
    assert_eq!(
        SensorConfig::from_document(".".to_string(), &document),
        Err(ConfigMalformed::ScriptsNotSequence { entry: 1 })
    );
}

#[test]
fn from_document_names_the_first_script_that_is_no_string() {
    let document = Document {
        sensors: Some(vec![
            node("a", &["x.sh"]),
            EntryNode {
                id: text("b"),
                scripts: Some(vec![text("1.sh"), text("2.sh"), None, text("4.sh"), None]),
            },
        ]),
    };
    assert_eq!(
        SensorConfig::from_document(".".to_string(), &document),
        Err(ConfigMalformed::ScriptNotString { entry: 1, script: 2 })
    );
}

#[test]
fn from_document_checks_id_before_scripts() {
    let document = Document { sensors: Some(vec![EntryNode { id: None, scripts: Some(vec![None]) }]) };
    assert_eq!(
        SensorConfig::from_document(".".to_string(), &document),
        Err(ConfigMalformed::IdNotString { entry: 0 })
    );
}

#[test]
fn from_document_reports_the_first_defective_entry() {
    let document = Document {
        sensors: Some(vec![
            node("a", &[]),
            EntryNode { id: text("b"), scripts: Some(vec![None]) },
            EntryNode { id: None, scripts: None },
        ]),
    };
    assert_eq!(
        SensorConfig::from_document(".".to_string(), &document),
        Err(ConfigMalformed::ScriptNotString { entry: 1, script: 0 })
    );
}

#[test]
fn lookup_finds_every_entry_with_the_id() {
    let config = SensorConfig::new(
        "/srv".to_string(),
        vec![entry("dual", &["a.sh"]), entry("solo", &["s.sh"]), entry("dual", &["b.sh", "c.sh"])],
    );
    let found = config.lookup("dual");
    assert_eq!(found, vec![&entry("dual", &["a.sh"]), &entry("dual", &["b.sh", "c.sh"])]);
    assert_eq!(config.lookup("solo"), vec![&entry("solo", &["s.sh"])]);
}

#[test]
fn lookup_of_an_unknown_id_is_empty() {
    let config = SensorConfig::new("/srv".to_string(), vec![entry("dual", &["a.sh"])]);
    assert!(config.lookup("missing").is_empty());
    assert!(config.lookup("").is_empty());
    assert!(config.lookup("dua").is_empty());
    assert!(config.lookup("dual ").is_empty());
    assert!(config.lookup("DUAL").is_empty());
}

#[test]
fn lookup_in_an_empty_configuration_is_empty() {
    let config = SensorConfig::new("/srv".to_string(), vec![]);
    assert!(config.lookup("any").is_empty());
}

#[test]
fn lookup_does_not_change_the_configuration() {
    let config = SensorConfig::new("/srv".to_string(), vec![entry("a", &["a.sh"])]);
    let before = config.clone();
    let _ = config.lookup("a");
    let _ = config.lookup("b");
    assert_eq!(config, before);
}

#[test]
fn resolve_joins_with_one_separator() {
    let config = SensorConfig::new("/opt/scripts".to_string(), vec![]);
    assert_eq!(config.resolve("probe.sh"), "/opt/scripts/probe.sh");
}

#[test]
fn resolve_normalises_nothing() {
    let config = SensorConfig::new("/opt/scripts/".to_string(), vec![]);
    assert_eq!(config.resolve("/abs.sh"), "/opt/scripts///abs.sh");
    assert_eq!(config.resolve("../up.sh"), "/opt/scripts//../up.sh");
    assert_eq!(config.resolve("a.sh | tee log"), "/opt/scripts//a.sh | tee log");
    let here = SensorConfig::new(".".to_string(), vec![]);
    assert_eq!(here.resolve("run.sh"), "./run.sh");
    let empty = SensorConfig::new(String::new(), vec![]);
    assert_eq!(empty.resolve(""), "/");
}

#[test]
fn load_reads_a_configuration_text() {
    let source = "sensors:\n  - id: temp-1\n    scripts:\n      - probe.sh\n  - id: dual\n    scripts:\n      - a.sh\n      - b.sh\n";
    let config = SensorConfig::load("/opt/scripts".to_string(), source).unwrap();
    assert_eq!(config.scripts_directory(), "/opt/scripts");
    assert_eq!(config.sensors(), &vec![entry("temp-1", &["probe.sh"]), entry("dual", &["a.sh", "b.sh"])]);
}

#[test]
fn load_refuses_each_kind_of_defect() {
    let load = |source: &str| SensorConfig::load(".".to_string(), source);
    assert_eq!(load(""), Err(ConfigMalformed::NoDocument));
    assert!(matches!(load("sensors: ["), Err(ConfigMalformed::Syntax { .. })));
    assert_eq!(load("sensors: nothing\n"), Err(ConfigMalformed::SensorsNotSequence));
    assert_eq!(load("sensor:\n  - id: a\n    scripts: []\n"), Err(ConfigMalformed::SensorsNotSequence));
    assert_eq!(
        load("sensors:\n  - id: a\n    scripts: []\n  - scripts: []\n"),
        Err(ConfigMalformed::IdNotString { entry: 1 })
    );
    assert_eq!(
        load("sensors:\n  - id: 12\n    scripts: []\n"),
        Err(ConfigMalformed::IdNotString { entry: 0 })
    );
    assert_eq!(
        load("sensors:\n  - id: a\n    scripts: run.sh\n"),
        Err(ConfigMalformed::ScriptsNotSequence { entry: 0 })
    );
    assert_eq!(
        load("sensors:\n  - id: a\n"),
        Err(ConfigMalformed::ScriptsNotSequence { entry: 0 })
    );
    assert_eq!(
        load("sensors:\n  - id: a\n    scripts:\n      - run.sh\n      - true\n"),
        Err(ConfigMalformed::ScriptNotString { entry: 0, script: 1 })
    );
}
