use vstd::prelude::*;

verus! {

/// Whether two strings hold the same characters.
fn same_text(a: &str, b: &str) -> (same: bool)
    ensures
        same == (a@ == b@),
{
    a.to_owned() == b.to_owned()
}

/// The connectors that the bridge serves itself, with an SQLite database.
pub open spec fn spec_is_native_connector(connector: Seq<char>) -> bool {
    connector == "sqlite-native"@ || connector == "native-integration-tests"@
}

/// Whether a connector name is one that the bridge serves itself.
pub fn is_native_connector(connector: &str) -> (native: bool)
    ensures
        native == spec_is_native_connector(connector@),
{
    same_text(connector, "sqlite-native") || same_text(connector, "native-integration-tests")
}

/// Whether the bridge can serve a configuration whose default database is
/// given explicitly with the connector `explicit_connector` (`None` when the
/// configuration has no default database, or one not given explicitly).
pub fn supports_default_database(explicit_connector: Option<&str>) -> (supported: bool)
    ensures
        supported == (explicit_connector matches Some(c) && spec_is_native_connector(c@)),
{
    match explicit_connector {
        Some(connector) => is_native_connector(connector),
        None => false,
    }
}

/// A node that a query found, with the names of its fields.
pub struct SingleNode<N> {
    pub node: N,
    pub field_names: Vec<String>,
}

/// The nodes of an answer, with the names of their fields.
pub struct NodesResult<N> {
    pub nodes: Vec<N>,
    pub fields: Vec<String>,
}

/// The nodes of the answer to a query for at most one node: that node and
/// its field names when it was found, and nothing otherwise.
pub fn single_node_result<N>(found: Option<SingleNode<N>>) -> (result: NodesResult<N>)
    ensures
        match found {
            Some(single) => result.nodes@ == seq![single.node] && result.fields@
                == single.field_names@,
            None => result.nodes@.len() == 0 && result.fields@.len() == 0,
        },
{
    match found {
        Some(single) => {
            let SingleNode { node, field_names } = single;
            let mut nodes = Vec::new();
            nodes.push(node);
            NodesResult { nodes, fields: field_names }
        },
        None => NodesResult { nodes: Vec::new(), fields: Vec::new() },
    }
}

/// The table that a count by table reads: the database name of the model
/// of that name where the schema has one (`model_db_name`), else the name
/// as given.
pub fn count_by_table_target(model_db_name: Option<String>, model_name: String) -> (table: String)
    ensures
        table@ == match model_db_name {
            Some(db_name) => db_name@,
            None => model_name@,
        },
{
    match model_db_name {
        Some(db_name) => db_name,
        None => model_name,
    }
}

/// Exactly two connector names are served natively: "sqlite-native" and
/// "native-integration-tests".
pub proof fn lemma_native_connectors(connector: Seq<char>)
    ensures
        spec_is_native_connector(connector) <==> (connector == "sqlite-native"@ || connector
            == "native-integration-tests"@),
        spec_is_native_connector("sqlite-native"@),
        spec_is_native_connector("native-integration-tests"@),
{
}

} // verus!
