use prisma_bridge::raw::execute_raw_result;
use serde_json::Value;

#[test]
fn raw_result_is_the_json_text() {
    let mut row = serde_json::Map::new();
    row.insert("id".to_string(), Value::from(1));
    row.insert("name".to_string(), Value::from("ann"));
    let json = Value::Array(vec![Value::Object(row)]);
    assert_eq!(execute_raw_result(&json).json, "[{\"id\":1,\"name\":\"ann\"}]");
}

#[test]
fn raw_null_result_is_null_text() {
    assert_eq!(execute_raw_result(&Value::Null).json, "null");
}
