use vstd::prelude::*;

verus! {

/// Anything that is stored under a name of its own in the database.
pub trait Renameable {
    fn db_name(&self) -> &str;
}

/// The schema of a project, held as the JSON text that describes it.
#[derive(Debug)]
pub struct Schema {
    pub json: String,
}

/// Where a project lives in the database: an explicit database and/or
/// schema name. Both are absent unless a project says otherwise.
#[derive(Debug)]
pub struct ProjectManifestation {
    pub database: Option<String>,
    pub schema: Option<String>,
}

/// The revision of a project; a project that names none is at revision 1.
#[derive(Debug)]
pub struct Revision(pub u32);

/// A flag that is on unless a project turns it off.
#[derive(Debug)]
pub struct DefaultTrue(pub bool);

/// How a server-side function is delivered.
#[derive(Debug)]
pub enum FunctionDelivery {
    WebhookDelivery,
}

/// What kind of server-side function it is.
#[derive(Debug)]
pub enum FunctionType {
    ServerSideSubscription,
}

/// A server-side function of a project.
#[derive(Debug)]
pub struct Function {
    pub name: String,
    pub is_active: bool,
    pub delivery: FunctionDelivery,
    pub type_code: FunctionType,
}

/// A Prisma project: its identity, schema, functions and settings.
#[derive(Debug)]
pub struct Project {
    pub id: String,
    pub schema: Schema,
    pub functions: Vec<Function>,
    pub manifestation: ProjectManifestation,
    pub revision: Revision,
    pub secrets: Vec<String>,
    pub allow_queries: DefaultTrue,
    pub allow_mutations: DefaultTrue,
}

impl ProjectManifestation {
    /// The manifestation that a project has when it names none.
    pub open spec fn spec_default() -> ProjectManifestation {
        ProjectManifestation { database: None, schema: None }
    }

    /// The name that a manifestation gives in place of a fallback name:
    /// the schema name if there is one, else the database name if there is
    /// one, else the fallback.
    pub open spec fn spec_name_or(self, fallback: Seq<char>) -> Seq<char> {
        match self.schema {
            Some(schema) => schema@,
            None => match self.database {
                Some(database) => database@,
                None => fallback,
            },
        }
    }
}

impl Project {
    /// The name under which the project is stored in the database.
    pub open spec fn spec_db_name(&self) -> Seq<char> {
        self.manifestation.spec_name_or(self.id@)
    }
}

impl Renameable for Project {
    fn db_name(&self) -> (name: &str)
        ensures
            name@ == self.spec_db_name(),
    {
        match &self.manifestation.schema {
            Some(schema) => schema.as_str(),
            None => match &self.manifestation.database {
                Some(database) => database.as_str(),
                None => self.id.as_str(),
            },
        }
    }
}

impl Default for Revision {
    fn default() -> (revision: Self)
        ensures
            revision.0 == 1,
    {
        Revision(1)
    }
}

impl Default for DefaultTrue {
    fn default() -> (flag: Self)
        ensures
            flag.0,
    {
        DefaultTrue(true)
    }
}

impl Default for ProjectManifestation {
    fn default() -> (manifestation: Self)
        ensures
            manifestation == ProjectManifestation::spec_default(),
    {
        ProjectManifestation { database: None, schema: None }
    }
}

/// A project whose manifestation names neither a database nor a schema is
/// stored under its own id.
pub proof fn lemma_default_manifestation_uses_id(project: Project)
    requires
        project.manifestation == ProjectManifestation::spec_default(),
    ensures
        project.spec_db_name() == project.id@,
{
}

/// A schema name, where a project gives one, decides the database name,
/// whatever database it names.
pub proof fn lemma_schema_name_wins(project: Project)
    requires
        project.manifestation.schema is Some,
    ensures
        project.spec_db_name() == project.manifestation.schema->0@,
{
}

/// Without a schema name, a database name decides the database name.
pub proof fn lemma_database_name_without_schema(project: Project)
    requires
        project.manifestation.schema is None,
        project.manifestation.database is Some,
    ensures
        project.spec_db_name() == project.manifestation.database->0@,
{
}

} // verus!
