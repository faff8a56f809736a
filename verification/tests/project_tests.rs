use prisma_bridge::project::{
    DefaultTrue, Function, FunctionDelivery, FunctionType, Project, ProjectManifestation,
    Renameable, Revision, Schema,
};

fn project_with(database: Option<&str>, schema: Option<&str>) -> Project {
    Project {
        id: "my-service@dev".to_string(),
        schema: Schema { json: "{\"models\":[]}".to_string() },
        functions: vec![Function {
            name: "hook".to_string(),
            is_active: true,
            delivery: FunctionDelivery::WebhookDelivery,
            type_code: FunctionType::ServerSideSubscription,
        }],
        manifestation: ProjectManifestation {
            database: database.map(|d| d.to_string()),
            schema: schema.map(|s| s.to_string()),
        },
        revision: Revision::default(),
        secrets: vec![],
        allow_queries: DefaultTrue::default(),
        allow_mutations: DefaultTrue::default(),
    }
}

#[test]
fn db_name_is_id_without_manifestation() {
    let project = project_with(None, None);
    assert_eq!(project.db_name(), "my-service@dev");
}

#[test]
fn db_name_prefers_schema() {
    let project = project_with(Some("db"), Some("schema"));
    assert_eq!(project.db_name(), "schema");
}

#[test]
fn db_name_takes_schema_alone() {
    let project = project_with(None, Some("schema"));
    assert_eq!(project.db_name(), "schema");
}

#[test]
fn db_name_takes_database_without_schema() {
    let project = project_with(Some("db"), None);
    assert_eq!(project.db_name(), "db");
}

#[test]
fn default_manifestation_names_the_project_by_id() {
    let mut project = project_with(Some("db"), Some("schema"));
    project.manifestation = ProjectManifestation::default();
    assert!(project.manifestation.database.is_none());
    assert!(project.manifestation.schema.is_none());
    assert_eq!(project.db_name(), "my-service@dev");
}

#[test]
fn default_revision_is_one() {
    assert_eq!(Revision::default().0, 1);
}

#[test]
fn default_true_is_true() {
    assert!(DefaultTrue::default().0);
}
