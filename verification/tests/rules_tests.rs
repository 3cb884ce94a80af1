use twitter_stream::opts::CreateRule;
use twitter_stream::rules::{
    create_rule_payload, delete_rule_payload, delete_rules_payload, interpret_create_response,
    parse_create_rule_response, parse_delete_rule_response, parse_list_rules_response,
    ListRulesResponse, ResponseRuleMeta, Rule, RuleResponseError,
};

#[test]
fn create_payload_with_tag_is_exact() {
    let rule = CreateRule {
        value: "cats has:images".to_string(),
        tag: Some("cat pictures".to_string()),
    };
    assert_eq!(
        create_rule_payload(&rule),
        "{\"add\":[{\"value\":\"cats has:images\",\"tag\":\"cat pictures\"}]}",
    );
}

#[test]
fn create_payload_without_tag_is_exact() {
    let rule = CreateRule {
        value: "dogs".to_string(),
        tag: None,
    };
    assert_eq!(
        create_rule_payload(&rule),
        "{\"add\":[{\"value\":\"dogs\",\"tag\":null}]}",
    );
}

#[test]
fn delete_payload_of_one_rule_is_exact() {
    assert_eq!(
        delete_rule_payload("1390738532736973313"),
        "{\"delete\":{\"ids\":[\"1390738532736973313\"]}}",
    );
}

#[test]
fn delete_payload_of_many_rules_is_exact() {
    let ids = vec!["1".to_string(), "2".to_string()];
    assert_eq!(
        delete_rules_payload(&ids),
        "{\"delete\":{\"ids\":[\"1\",\"2\"]}}",
    );
}

#[test]
fn list_response_parses_rules() {
    let raw = b"{\"data\":[{\"id\":\"7\",\"value\":\"cats\",\"tag\":null}]}";
    let r = parse_list_rules_response(raw).unwrap();
    assert_eq!(
        r,
        ListRulesResponse {
            data: Some(vec![Rule {
                id: "7".to_string(),
                value: Some("cats".to_string()),
                tag: None,
            }]),
        },
    );
}

#[test]
fn list_response_tolerates_no_rules() {
    let r = parse_list_rules_response(b"{\"meta\":{\"result_count\":0}}").unwrap();
    assert_eq!(r, ListRulesResponse { data: None });
}

#[test]
fn list_response_rejects_broken_text() {
    assert!(parse_list_rules_response(b"{\"data\": [").is_err());
}

#[test]
fn create_response_success_yields_the_rule() {
    let raw = "{\"data\":[{\"id\":\"9\",\"value\":\"cats\",\"tag\":\"t\"}],\"meta\":{\"sent\":\"now\",\"summary\":{\"created\":1,\"not_created\":0,\"valid\":1,\"invalid\":0}}}"
    .as_bytes();
    let resp = parse_create_rule_response(raw).unwrap();
    let rule = interpret_create_response(resp).unwrap();
    assert_eq!(rule.id, "9");
    assert_eq!(rule.value, Some("cats".to_string()));
    assert_eq!(rule.tag, Some("t".to_string()));
}

#[test]
fn create_response_with_errors_is_refused() {
    let raw = "{\"errors\":[{\"value\":\"cats(\",\"details\":[\"unbalanced parenthesis\"],\"title\":\"UnprocessableEntity\",\"type\":\"https://example.com/problem\"}],\"meta\":{\"summary\":{\"created\":0,\"not_created\":1}}}"
    .as_bytes();
    let resp = parse_create_rule_response(raw).unwrap();
    assert_eq!(
        interpret_create_response(resp),
        Err(RuleResponseError::ErrorsReported),
    );
}

#[test]
fn create_response_without_a_creation_is_refused() {
    let raw = b"{\"meta\":{\"summary\":{\"created\":0,\"not_created\":1}}}";
    let resp = parse_create_rule_response(raw).unwrap();
    assert_eq!(
        interpret_create_response(resp),
        Err(RuleResponseError::UnexpectedSummary),
    );
}

#[test]
fn create_response_missing_its_rule_is_refused() {
    let raw = b"{\"meta\":{\"summary\":{\"created\":1}}}";
    let resp = parse_create_rule_response(raw).unwrap();
    assert_eq!(
        interpret_create_response(resp),
        Err(RuleResponseError::MissingData),
    );
}

#[test]
fn delete_response_counts_deletions() {
    let raw = b"{\"meta\":{\"summary\":{\"deleted\":2,\"not_deleted\":0}}}";
    let resp = parse_delete_rule_response(raw).unwrap();
    assert!(resp.deleted_exactly(2));
    assert!(!resp.deleted_exactly(1));
}

#[test]
fn delete_response_without_the_counter_means_no_deletion() {
    let raw = b"{\"meta\":{\"summary\":{\"not_deleted\":1}}}";
    let resp = parse_delete_rule_response(raw).unwrap();
    assert!(!resp.deleted_exactly(1));
}

#[test]
fn summary_lookup_takes_the_first_binding() {
    let meta = ResponseRuleMeta {
        summary: vec![("created".to_string(), 1), ("created".to_string(), 5)],
    };
    assert_eq!(meta.count("created"), Some(1));
    assert_eq!(meta.count("deleted"), None);
}

#[test]
fn rule_description_is_exact() {
    let rule = Rule {
        id: "1".to_string(),
        value: Some("cats".to_string()),
        tag: Some("pets".to_string()),
    };
    assert_eq!(rule.describe(), "1: \"cats\" [tag: \"pets\"]");
}

#[test]
fn rule_description_without_tag_or_value() {
    let rule = Rule {
        id: "2".to_string(),
        value: None,
        tag: None,
    };
    assert_eq!(rule.describe(), "2: \"\"");
}

#[test]
fn rule_description_escapes_quotes() {
    let rule = Rule {
        id: "3".to_string(),
        value: Some("say \"hi\"".to_string()),
        tag: None,
    };
    assert_eq!(rule.describe(), "3: \"say \\\"hi\\\"\"");
}

#[test]
fn listing_description_without_rules() {
    let r = ListRulesResponse { data: None };
    assert_eq!(r.describe(), "No rules");
}

#[test]
fn listing_description_with_rules_is_exact() {
    let r = ListRulesResponse {
        data: Some(vec![
            Rule {
                id: "1".to_string(),
                value: Some("cats".to_string()),
                tag: None,
            },
            Rule {
                id: "2".to_string(),
                value: Some("dogs".to_string()),
                tag: Some("d".to_string()),
            },
        ]),
    };
    assert_eq!(
        r.describe(),
        "Found 2 rules:\n- 1: \"cats\"\n- 2: \"dogs\" [tag: \"d\"]",
    );
}
