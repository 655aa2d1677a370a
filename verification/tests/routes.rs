use roster_api::http::{handle_echo, handle_hey, handle_list, handle_root, handle_unit};

#[test]
fn root_returns_usage_banner() {
    let r = handle_root();
    assert_eq!(r.status, 200);
    assert!(r.body.contains("Welcome to the Warhammer 40k army roster API"));
    assert!(r.body.contains("`/tyranids`"));
}

#[test]
fn hey_returns_greeting() {
    let r = handle_hey();
    assert_eq!(r.status, 200);
    assert_eq!(r.body, "Hey there!");
}

#[test]
fn echo_returns_body_verbatim() {
    let r = handle_echo("ping".to_string());
    assert_eq!(r.status, 200);
    assert_eq!(r.body, "ping");
}

#[test]
fn echo_keeps_empty_body() {
    let r = handle_echo(String::new());
    assert_eq!(r.status, 200);
    assert_eq!(r.body, "");
}

#[test]
fn list_renders_one_unit() {
    let text = r#"[{"name":"Hive Tyrant","points":[150,180]}]"#;
    let r = handle_list(Ok(text.to_string()));
    assert_eq!(r.status, 200);
    assert_eq!(r.body, r#"[{"name":"Hive Tyrant","points":[150,180]}]"#);
}

#[test]
fn unit_found_by_exact_name() {
    let text = r#"[{"name":"Hive Tyrant","points":[150,180]}]"#;
    let r = handle_unit(Ok(text.to_string()), "Hive Tyrant");
    assert_eq!(r.status, 200);
    assert_eq!(r.body, r#"{"name":"Hive Tyrant","points":[150,180]}"#);
}

#[test]
fn unit_missing_name_gives_404_with_query() {
    let text = r#"[{"name":"Hive Tyrant","points":[150,180]}]"#;
    let r = handle_unit(Ok(text.to_string()), "Lictor");
    assert_eq!(r.status, 404);
    assert_eq!(r.body, "No unit found with name: Lictor");
}

#[test]
fn list_read_failure_gives_500_with_prefix() {
    let r = handle_list(Err("No such file or directory (os error 2)".to_string()));
    assert_eq!(r.status, 500);
    assert!(r.body.contains("Failed to read units:"));
    assert_eq!(
        r.body,
        "Failed to read units: No such file or directory (os error 2)"
    );
}

#[test]
fn list_parse_failure_gives_500_with_prefix() {
    let r = handle_list(Ok("not json".to_string()));
    assert_eq!(r.status, 500);
    assert!(r.body.starts_with("Failed to read units: "));
}

#[test]
fn list_tolerates_malformed_records() {
    let text = r#"[{"points":[10]},{"name":"X","points":["a",5]}]"#;
    let r = handle_list(Ok(text.to_string()));
    assert_eq!(r.status, 200);
    assert_eq!(r.body, r#"[{"name":"","points":[10]},{"name":"X","points":[5]}]"#);
}

#[test]
fn unit_read_failure_also_gives_404() {
    let r = handle_unit(
        Err("No such file or directory (os error 2)".to_string()),
        "Lictor",
    );
    assert_eq!(r.status, 404);
    assert_eq!(r.body, "No unit found with name: Lictor");
}

#[test]
fn unit_parse_failure_also_gives_404() {
    let r = handle_unit(Ok("[".to_string()), "Lictor");
    assert_eq!(r.status, 404);
    assert_eq!(r.body, "No unit found with name: Lictor");
}

#[test]
fn list_empty_dataset_renders_empty_array() {
    let r = handle_list(Ok("[]".to_string()));
    assert_eq!(r.status, 200);
    assert_eq!(r.body, "[]");
}

#[test]
fn list_non_array_document_renders_empty_array() {
    let r = handle_list(Ok(r#"{"name":"X"}"#.to_string()));
    assert_eq!(r.status, 200);
    assert_eq!(r.body, "[]");

    let r = handle_list(Ok("null".to_string()));
    assert_eq!(r.status, 200);
    assert_eq!(r.body, "[]");
}

#[test]
fn unit_first_match_wins_among_duplicates() {
    let text = r#"[{"name":"A","points":[1]},{"name":"A","points":[2]}]"#;
    let r = handle_unit(Ok(text.to_string()), "A");
    assert_eq!(r.status, 200);
    assert_eq!(r.body, r#"{"name":"A","points":[1]}"#);
}

#[test]
fn unit_match_is_case_sensitive() {
    let text = r#"[{"name":"Lictor","points":[55]}]"#;
    let r = handle_unit(Ok(text.to_string()), "lictor");
    assert_eq!(r.status, 404);
    assert_eq!(r.body, "No unit found with name: lictor");
}

#[test]
fn unit_empty_query_matches_record_without_string_name() {
    let text = r#"[{"points":[7]},{"name":"","points":[8]}]"#;
    let r = handle_unit(Ok(text.to_string()), "");
    assert_eq!(r.status, 200);
    assert_eq!(r.body, r#"{"name":"","points":[7]}"#);
}

#[test]
fn list_escapes_names_as_json() {
    let text = "[{\"name\":\"a\\\"b\\\\c\\nd\",\"points\":[]}]";
    let r = handle_list(Ok(text.to_string()));
    assert_eq!(r.status, 200);
    assert_eq!(r.body, "[{\"name\":\"a\\\"b\\\\c\\nd\",\"points\":[]}]");
}

#[test]
fn list_escapes_control_characters_with_hex() {
    let text = "[{\"name\":\"x\\u0001y\\u001fz\",\"points\":[]}]";
    let r = handle_list(Ok(text.to_string()));
    assert_eq!(r.status, 200);
    assert_eq!(r.body, "[{\"name\":\"x\\u0001y\\u001fz\",\"points\":[]}]");
}

#[test]
fn list_rendering_agrees_with_reference_serializer() {
    let text = r#"[{"name":"Hive Tyrant","points":[150,180]},{"name":"", "points":[-3,0,7]}]"#;
    let value: serde_json::Value = serde_json::from_str(text).unwrap();
    let expected = serde_json::to_string(&value).unwrap();
    let r = handle_list(Ok(text.to_string()));
    assert_eq!(r.status, 200);
    assert_eq!(r.body, expected);
}
