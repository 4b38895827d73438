use regex::RegexSet;
use serde_yaml::Value;
use sinkrouter::{
    display_config_summary, is_discard_name, process_config, template_sinks, Destination,
    FilterConfig, SinkConfig,
};

fn scalar_text(v: &Value) -> String {
    match v {
        Value::String(s) => s.clone(),
        Value::Null => "null".to_string(),
        Value::Bool(b) => b.to_string(),
        Value::Number(n) => n.to_string(),
        _ => panic!("not a scalar"),
    }
}

fn parse_sinks(text: &str) -> Vec<SinkConfig> {
    let doc: Value = serde_yaml::from_str(text).unwrap();
    let list = doc.get("sinks").and_then(|v| v.as_sequence()).unwrap();
    list.iter()
        .map(|s| SinkConfig {
            name: scalar_text(&s["name"]),
            file_name: scalar_text(&s["file_name"]),
            patterns: s["patterns"].as_sequence().unwrap().iter().map(scalar_text).collect(),
            invert: s.get("invert").and_then(|v| v.as_bool()),
        })
        .collect()
}

fn sink(name: &str, file_name: &str, patterns: &[&str], invert: Option<bool>) -> SinkConfig {
    SinkConfig {
        name: name.to_string(),
        file_name: file_name.to_string(),
        patterns: patterns.iter().map(|p| p.to_string()).collect(),
        invert,
    }
}

#[test]
fn test_process_config() {
    // YAML representation
    let test_config = r#"
---
sinks:
  - name: first_sink
    file_name: first_output.txt
    patterns:
      - "^[a-zA-Z0-9]+$"
  - name: second_sink
    file_name: null
    patterns:
      - ðŸ˜Ž*
"#
    .to_string();

    // Process the YAML representation
    let processed_config = process_config(parse_sinks(&test_config), true).unwrap();

    // Matching struct
    let first = FilterConfig {
        name: "first_sink".to_string(),
        file_name: "first_output.txt".to_string(),
        destination: Destination::Discard,
        regex_set: RegexSet::new(vec!["^[a-zA-Z0-9]+$".to_string()]).unwrap(),
        invert: false,
    };
    let second = FilterConfig {
        name: "second_sink".to_string(),
        file_name: "null".to_string(),
        destination: Destination::Discard,
        regex_set: RegexSet::new(vec!["ðŸ˜Ž*".to_string()]).unwrap(),
        invert: false,
    };
    let reference_config = vec![first, second];

    assert_eq!(processed_config, reference_config);
}

#[test]
fn destinations_outside_dry_validation() {
    let sinks = vec![
        sink("a", "out/a.txt", &["a"], None),
        sink("b", "null", &["b"], Some(true)),
    ];
    let fs = process_config(sinks, false).unwrap();
    assert_eq!(fs.len(), 2);
    assert_eq!(fs[0].destination, Destination::File);
    assert!(!fs[0].invert);
    assert_eq!(fs[1].destination, Destination::Discard);
    assert!(fs[1].invert);
    assert_eq!(fs[1].regex_set.patterns(), &["b".to_string()]);
}

#[test]
fn invalid_patterns_are_reported_together() {
    let sinks = vec![
        sink("one", "one.txt", &["("], None),
        sink("two", "two.txt", &["^ok$"], None),
        sink("three", "three.txt", &["a", "[z-a]"], None),
    ];
    let errs = process_config(sinks, false).unwrap_err();
    assert_eq!(errs.len(), 2);
    assert_eq!(errs[0].index, 0);
    assert_eq!(errs[0].sink_name, "one");
    assert_eq!(errs[1].index, 2);
    assert_eq!(errs[1].sink_name, "three");
    assert!(!errs[0].message.is_empty());
}

#[test]
fn invalid_patterns_fail_dry_validation_too() {
    let sinks = vec![sink("bad", "null", &["*"], None)];
    let errs = process_config(sinks, true).unwrap_err();
    assert_eq!(errs.len(), 1);
    assert_eq!(errs[0].sink_name, "bad");
}

#[test]
fn empty_registry_is_valid() {
    let fs = process_config(Vec::new(), false).unwrap();
    assert!(fs.is_empty());
}

#[test]
fn filter_equality_compares_declarations() {
    let a = process_config(vec![sink("s", "f.txt", &["x", "y"], None)], false).unwrap();
    let b = process_config(vec![sink("s", "f.txt", &["x", "y"], Some(false))], true).unwrap();
    let c = process_config(vec![sink("s", "f.txt", &["x", "z"], None)], false).unwrap();
    let d = process_config(vec![sink("s", "f.txt", &["x"], None)], false).unwrap();
    let e = process_config(vec![sink("s", "f.txt", &["x", "y"], Some(true))], false).unwrap();
    assert_eq!(a, b);
    assert_ne!(a, c);
    assert_ne!(a, d);
    assert_ne!(a, e);
}

#[test]
fn discard_marker_is_exact() {
    assert!(is_discard_name(&"null".to_string()));
    assert!(!is_discard_name(&"NULL".to_string()));
    assert!(!is_discard_name(&"null.txt".to_string()));
    assert!(!is_discard_name(&String::new()));
}

#[test]
fn template_has_two_sinks() {
    let t = template_sinks();
    assert_eq!(t.len(), 2);
    assert_eq!(t[0].name, "first_sink");
    assert_eq!(t[0].file_name, "first_output.txt");
    assert_eq!(t[0].patterns, vec!["^[a-zA-Z0-9]+$".to_string()]);
    assert_eq!(t[0].invert, None);
    assert_eq!(t[1].name, "second_sink");
    assert_eq!(t[1].file_name, "second_output.txt");
    assert_eq!(t[1].patterns, vec!["ðŸ˜Ž*".to_string()]);
    assert_eq!(t[1].invert, None);
    assert!(process_config(t, true).is_ok());
}

#[test]
fn summary_pads_names_and_file_names() {
    let fs = process_config(
        vec![
            sink("ab", "x.txt", &["a"], None),
            sink("abcd", "null", &["b"], Some(true)),
        ],
        true,
    )
    .unwrap();
    let lines = display_config_summary(&fs);
    assert_eq!(
        lines,
        vec![
            "Sink name: ab     Output file name: x.txt   Invert match: false".to_string(),
            "Sink name: abcd   Output file name: null    Invert match: true".to_string(),
        ]
    );
}

#[test]
fn summary_of_no_sinks_is_empty() {
    assert!(display_config_summary(&Vec::new()).is_empty());
}
