use prisma_bridge::requests::{
    count_by_table_target, is_native_connector, single_node_result, supports_default_database,
    SingleNode,
};

#[test]
fn native_connectors_are_recognised() {
    assert!(is_native_connector("sqlite-native"));
    assert!(is_native_connector("native-integration-tests"));
    assert!(!is_native_connector("mysql"));
    assert!(!is_native_connector("sqlite-native "));
    assert!(!is_native_connector(""));
}

#[test]
fn default_database_must_be_explicit_and_native() {
    assert!(supports_default_database(Some("sqlite-native")));
    assert!(!supports_default_database(Some("postgres")));
    assert!(!supports_default_database(None));
}

#[test]
fn found_node_is_the_only_node() {
    let result = single_node_result(Some(SingleNode { node: 7, field_names: vec!["id".to_string(), "name".to_string()] }));
    assert_eq!(result.nodes, vec![7]);
    assert_eq!(result.fields, vec!["id".to_string(), "name".to_string()]);
}

#[test]
fn no_node_gives_an_empty_answer() {
    let result = single_node_result::<i32>(None);
    assert!(result.nodes.is_empty());
    assert!(result.fields.is_empty());
}

#[test]
fn count_reads_the_model_table_when_there_is_one() {
    assert_eq!(count_by_table_target(Some("users_table".to_string()), "User".to_string()), "users_table");
}

#[test]
fn count_reads_the_named_table_otherwise() {
    assert_eq!(count_by_table_target(None, "_RelationTable".to_string()), "_RelationTable");
}
