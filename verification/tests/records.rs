use taphouse::decode::{
    cask_from_value, decode_casks, decode_formulae, formula_from_value, optional_flag,
    optional_text, required_text, text_null_or_empty, text_or_empty, texts_or_empty, JsonField,
};

#[test]
fn null_desc_reads_as_empty() {
    let casks = decode_casks(r#"[{"token":"zoom","desc":null}]"#).expect("decode");
    assert_eq!(casks.len(), 1);
    assert_eq!(casks[0].token, "zoom");
    assert_eq!(casks[0].desc, "");
}

#[test]
fn absent_desc_reads_as_empty() {
    let casks = decode_casks(r#"[{"token":"zoom"}]"#).expect("decode");
    assert_eq!(casks[0].desc, "");
    assert_eq!(casks[0].homepage, "");
    assert_eq!(casks[0].version, "");
    assert!(casks[0].name.is_empty());
    assert_eq!(casks[0].auto_updates, None);
}

#[test]
fn full_cask_record() {
    let body = r#"[{
        "token": "firefox",
        "name": ["Firefox", "Mozilla Firefox"],
        "desc": "Web browser",
        "homepage": "https://www.mozilla.org/firefox/",
        "version": "140.0",
        "auto_updates": true
    }]"#;
    let casks = decode_casks(body).expect("decode");
    assert_eq!(casks[0].token, "firefox");
    assert_eq!(casks[0].name, vec!["Firefox".to_string(), "Mozilla Firefox".to_string()]);
    assert_eq!(casks[0].desc, "Web browser");
    assert_eq!(casks[0].version, "140.0");
    assert_eq!(casks[0].auto_updates, Some(true));
}

#[test]
fn cask_without_token_is_refused() {
    assert!(decode_casks(r#"[{"desc":"x"}]"#).is_err());
    assert!(decode_casks(r#"[{"token":null}]"#).is_err());
    assert!(decode_casks(r#"[{"token":7}]"#).is_err());
}

#[test]
fn full_formula_record() {
    let body = r#"[{
        "name": "git",
        "full_name": "git",
        "desc": "Distributed revision control system",
        "homepage": "https://git-scm.com",
        "versions": {"stable": "2.49.0", "head": "HEAD"},
        "license": "GPL-2.0-only",
        "dependencies": ["gettext", "pcre2"],
        "tap": "homebrew/core"
    }]"#;
    let formulae = decode_formulae(body).expect("decode");
    assert_eq!(formulae.len(), 1);
    let f = &formulae[0];
    assert_eq!(f.name, "git");
    assert_eq!(f.versions.stable.as_deref(), Some("2.49.0"));
    assert_eq!(f.versions.head.as_deref(), Some("HEAD"));
    assert_eq!(f.license.as_deref(), Some("GPL-2.0-only"));
    assert_eq!(f.dependencies, vec!["gettext".to_string(), "pcre2".to_string()]);
    assert_eq!(f.tap, "homebrew/core");
}

#[test]
fn formula_defaults_and_null_license() {
    let body = r#"[{
        "name": "tiny",
        "full_name": "tiny",
        "versions": {"stable": null}
    }]"#;
    let formulae = decode_formulae(body).expect("decode");
    let f = &formulae[0];
    assert_eq!(f.desc, "");
    assert_eq!(f.homepage, "");
    assert_eq!(f.tap, "");
    assert_eq!(f.versions.stable, None);
    assert_eq!(f.versions.head, None);
    assert_eq!(f.license, None);
    assert!(f.dependencies.is_empty());
}

#[test]
fn formula_without_versions_is_refused() {
    assert!(decode_formulae(r#"[{"name":"x","full_name":"x"}]"#).is_err());
    assert!(decode_formulae(r#"[{"name":"x","full_name":"x","versions":null}]"#).is_err());
}

#[test]
fn formula_null_desc_is_refused() {
    // Unlike the cask `desc`, the formula `desc` reads only absent as the
    // default; an explicit null refuses the record.
    assert!(
        decode_formulae(r#"[{"name":"x","full_name":"x","desc":null,"versions":{}}]"#).is_err()
    );
}

#[test]
fn non_string_dependency_is_refused() {
    let body = r#"[{"name":"x","full_name":"x","versions":{},"dependencies":["a",3]}]"#;
    assert!(decode_formulae(body).is_err());
}

#[test]
fn malformed_bodies_are_refused() {
    assert!(decode_formulae("not json").is_err());
    assert!(decode_formulae(r#"{"name":"x"}"#).is_err());
    assert!(decode_casks("[[1,2]]").is_err());
    assert!(decode_casks("").is_err());
}

#[test]
fn empty_index_decodes_to_nothing() {
    assert_eq!(decode_formulae("[]").expect("decode").len(), 0);
    assert_eq!(decode_casks("[]").expect("decode").len(), 0);
}

#[test]
fn field_rules_on_shapes() {
    assert_eq!(required_text(JsonField::Text("a".to_string())), Some("a".to_string()));
    assert_eq!(required_text(JsonField::Absent), None);
    assert_eq!(required_text(JsonField::Null), None);

    assert_eq!(text_or_empty(JsonField::Absent), Some(String::new()));
    assert_eq!(text_or_empty(JsonField::Null), None);
    assert_eq!(text_or_empty(JsonField::Text("a".to_string())), Some("a".to_string()));

    assert_eq!(text_null_or_empty(JsonField::Null), Some(String::new()));
    assert_eq!(text_null_or_empty(JsonField::Absent), Some(String::new()));
    assert_eq!(text_null_or_empty(JsonField::Flag(true)), None);

    assert_eq!(optional_text(JsonField::Absent), Some(None));
    assert_eq!(optional_text(JsonField::Null), Some(None));
    assert_eq!(optional_text(JsonField::Text("a".to_string())), Some(Some("a".to_string())));
    assert_eq!(optional_text(JsonField::Flag(false)), None);

    assert_eq!(optional_flag(JsonField::Absent), Some(None));
    assert_eq!(optional_flag(JsonField::Null), Some(None));
    assert_eq!(optional_flag(JsonField::Flag(true)), Some(Some(true)));
    assert_eq!(optional_flag(JsonField::Text("t".to_string())), None);

    assert_eq!(texts_or_empty(JsonField::Absent), Some(Vec::new()));
    assert_eq!(texts_or_empty(JsonField::Null), None);
}

#[test]
fn record_from_single_value() {
    let v: serde_json::Value = serde_json::from_str(r#"{"token":"zoom","desc":null}"#).unwrap();
    let cask = cask_from_value(&v).expect("cask");
    assert_eq!(cask.token, "zoom");
    assert_eq!(cask.desc, "");
    let bad: serde_json::Value = serde_json::from_str("[1]").unwrap();
    assert!(cask_from_value(&bad).is_none());
    assert!(formula_from_value(&bad).is_none());
}
