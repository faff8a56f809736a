use vstd::prelude::*;

verus! {

/// The kind of a database mutation as a request names it.
pub enum MutactionType {
    Create,
    Update,
    Upsert,
    Delete,
    Reset,
    DeleteNodes,
    UpdateNodes,
    NestedConnect,
    NestedDisconnect,
    NestedSet,
    NestedCreate,
    NestedUpdate,
    NestedUpsert,
    NestedDelete,
    NestedUpdateNodes,
    NestedDeleteNodes,
}

/// A mutation that stands on its own.
pub enum TopLevelKind {
    CreateNode,
    UpdateNode,
    UpsertNode,
    DeleteNode,
    ResetData,
    DeleteNodes,
    UpdateNodes,
}

/// A mutation that acts through a relation of another node.
pub enum NestedKind {
    Connect,
    Disconnect,
    SetRelated,
    CreateNode,
    UpdateNode,
    UpsertNode,
    DeleteNode,
    UpdateNodes,
    DeleteNodes,
}

/// What a mutation of a request becomes for the database.
pub enum MutactionLevel {
    TopLevel(TopLevelKind),
    Nested(NestedKind),
}

/// Each kind of a request becomes the database mutation of the same action:
/// the seven plain kinds stand on their own, the nine nested kinds act
/// through a relation.
pub open spec fn spec_level(t: MutactionType) -> MutactionLevel {
    match t {
        MutactionType::Create => MutactionLevel::TopLevel(TopLevelKind::CreateNode),
        MutactionType::Update => MutactionLevel::TopLevel(TopLevelKind::UpdateNode),
        MutactionType::Upsert => MutactionLevel::TopLevel(TopLevelKind::UpsertNode),
        MutactionType::Delete => MutactionLevel::TopLevel(TopLevelKind::DeleteNode),
        MutactionType::Reset => MutactionLevel::TopLevel(TopLevelKind::ResetData),
        MutactionType::DeleteNodes => MutactionLevel::TopLevel(TopLevelKind::DeleteNodes),
        MutactionType::UpdateNodes => MutactionLevel::TopLevel(TopLevelKind::UpdateNodes),
        MutactionType::NestedConnect => MutactionLevel::Nested(NestedKind::Connect),
        MutactionType::NestedDisconnect => MutactionLevel::Nested(NestedKind::Disconnect),
        MutactionType::NestedSet => MutactionLevel::Nested(NestedKind::SetRelated),
        MutactionType::NestedCreate => MutactionLevel::Nested(NestedKind::CreateNode),
        MutactionType::NestedUpdate => MutactionLevel::Nested(NestedKind::UpdateNode),
        MutactionType::NestedUpsert => MutactionLevel::Nested(NestedKind::UpsertNode),
        MutactionType::NestedDelete => MutactionLevel::Nested(NestedKind::DeleteNode),
        MutactionType::NestedUpdateNodes => MutactionLevel::Nested(NestedKind::UpdateNodes),
        MutactionType::NestedDeleteNodes => MutactionLevel::Nested(NestedKind::DeleteNodes),
    }
}

/// Whether a kind of request names a nested mutation.
pub open spec fn spec_is_nested_type(t: MutactionType) -> bool {
    ||| t is NestedConnect
    ||| t is NestedDisconnect
    ||| t is NestedSet
    ||| t is NestedCreate
    ||| t is NestedUpdate
    ||| t is NestedUpsert
    ||| t is NestedDelete
    ||| t is NestedUpdateNodes
    ||| t is NestedDeleteNodes
}

/// The database mutation that a request's kind of mutation becomes.
pub fn convert_mutaction(t: MutactionType) -> (level: MutactionLevel)
    ensures
        level == spec_level(t),
{
    match t {
        MutactionType::Create => MutactionLevel::TopLevel(TopLevelKind::CreateNode),
        MutactionType::Update => MutactionLevel::TopLevel(TopLevelKind::UpdateNode),
        MutactionType::Upsert => MutactionLevel::TopLevel(TopLevelKind::UpsertNode),
        MutactionType::Delete => MutactionLevel::TopLevel(TopLevelKind::DeleteNode),
        MutactionType::Reset => MutactionLevel::TopLevel(TopLevelKind::ResetData),
        MutactionType::DeleteNodes => MutactionLevel::TopLevel(TopLevelKind::DeleteNodes),
        MutactionType::UpdateNodes => MutactionLevel::TopLevel(TopLevelKind::UpdateNodes),
        MutactionType::NestedConnect => MutactionLevel::Nested(NestedKind::Connect),
        MutactionType::NestedDisconnect => MutactionLevel::Nested(NestedKind::Disconnect),
        MutactionType::NestedSet => MutactionLevel::Nested(NestedKind::SetRelated),
        MutactionType::NestedCreate => MutactionLevel::Nested(NestedKind::CreateNode),
        MutactionType::NestedUpdate => MutactionLevel::Nested(NestedKind::UpdateNode),
        MutactionType::NestedUpsert => MutactionLevel::Nested(NestedKind::UpsertNode),
        MutactionType::NestedDelete => MutactionLevel::Nested(NestedKind::DeleteNode),
        MutactionType::NestedUpdateNodes => MutactionLevel::Nested(NestedKind::UpdateNodes),
        MutactionType::NestedDeleteNodes => MutactionLevel::Nested(NestedKind::DeleteNodes),
    }
}

/// A request's mutation is nested for the database exactly when the
/// request names a nested kind.
pub proof fn lemma_nested_exactly_when_named_nested(t: MutactionType)
    ensures
        spec_level(t) is Nested <==> spec_is_nested_type(t),
{
}

/// Two different kinds of request never become the same database mutation.
pub proof fn lemma_level_is_injective(a: MutactionType, b: MutactionType)
    requires
        spec_level(a) == spec_level(b),
    ensures
        a == b,
{
}

/// What a database mutation did.
pub enum DatabaseMutactionResultType {
    Create,
    Update,
    Delete,
    Many,
    Unit,
}

/// What identifies the outcome of a database mutation: the id of the node
/// it touched, the number of nodes it touched, or nothing.
pub enum Identifier<Id> {
    Id(Id),
    Count(usize),
    Nothing,
}

/// The outcome of a database mutation.
pub struct DatabaseMutactionResult<Id> {
    pub identifier: Identifier<Id>,
    pub typ: DatabaseMutactionResultType,
}

/// The outcome of a mutation as an answer reports it: the id of the node
/// that was created, updated or deleted; the number of nodes touched; or
/// nothing.
pub enum MutactionResultMessage<Id> {
    Create(Id),
    Update(Id),
    Delete(Id),
    Many(u32),
    Unit,
}

impl<Id> DatabaseMutactionResult<Id> {
    /// Whether the outcome carries what an answer reports for it: an id for
    /// a creation, an update or a deletion, a count for a mutation of many
    /// nodes.
    pub open spec fn spec_is_reportable(&self) -> bool {
        match self.typ {
            DatabaseMutactionResultType::Create => self.identifier is Id,
            DatabaseMutactionResultType::Update => self.identifier is Id,
            DatabaseMutactionResultType::Delete => self.identifier is Id,
            DatabaseMutactionResultType::Many => self.identifier is Count,
            DatabaseMutactionResultType::Unit => true,
        }
    }

    /// Tests whether the outcome carries what an answer reports for it.
    pub fn is_reportable(&self) -> (ok: bool)
        ensures
            ok == self.spec_is_reportable(),
    {
        match self.typ {
            DatabaseMutactionResultType::Create
            | DatabaseMutactionResultType::Update
            | DatabaseMutactionResultType::Delete => match self.identifier {
                Identifier::Id(_) => true,
                _ => false,
            },
            DatabaseMutactionResultType::Many => match self.identifier {
                Identifier::Count(_) => true,
                _ => false,
            },
            DatabaseMutactionResultType::Unit => true,
        }
    }
}

/// The answer's report of a mutation's outcome: the same kind of outcome,
/// with its id, or its count taken modulo 2^32.
pub open spec fn spec_result_message<Id>(result: DatabaseMutactionResult<Id>) -> MutactionResultMessage<Id>
    recommends
        result.spec_is_reportable(),
{
    match result.typ {
        DatabaseMutactionResultType::Create => MutactionResultMessage::Create(result.identifier->Id_0),
        DatabaseMutactionResultType::Update => MutactionResultMessage::Update(result.identifier->Id_0),
        DatabaseMutactionResultType::Delete => MutactionResultMessage::Delete(result.identifier->Id_0),
        DatabaseMutactionResultType::Many => MutactionResultMessage::Many(
            result.identifier->Count_0 as u32,
        ),
        DatabaseMutactionResultType::Unit => MutactionResultMessage::Unit,
    }
}

/// The answer's report of a mutation's outcome.
pub fn convert_mutaction_result<Id>(result: DatabaseMutactionResult<Id>) -> (message: MutactionResultMessage<Id>)
    requires
        result.spec_is_reportable(),
    ensures
        message == spec_result_message(result),
{
    let DatabaseMutactionResult { identifier, typ } = result;
    match typ {
        DatabaseMutactionResultType::Create => match identifier {
            Identifier::Id(id) => MutactionResultMessage::Create(id),
            _ => { proof { assert(false); } MutactionResultMessage::Unit },
        },
        DatabaseMutactionResultType::Update => match identifier {
            Identifier::Id(id) => MutactionResultMessage::Update(id),
            _ => { proof { assert(false); } MutactionResultMessage::Unit },
        },
        DatabaseMutactionResultType::Delete => match identifier {
            Identifier::Id(id) => MutactionResultMessage::Delete(id),
            _ => { proof { assert(false); } MutactionResultMessage::Unit },
        },
        DatabaseMutactionResultType::Many => match identifier {
            Identifier::Count(count) => MutactionResultMessage::Many(count as u32),
            _ => { proof { assert(false); } MutactionResultMessage::Unit },
        },
        DatabaseMutactionResultType::Unit => MutactionResultMessage::Unit,
    }
}

/// The outcome that an answer to a mutation reports: the last of the
/// outcomes that the database gave for it.
pub fn last_mutaction_result<R>(results: Vec<R>) -> (last: R)
    requires
        results@.len() > 0,
    ensures
        last == results@.last(),
{
    let mut results = results;
    results.pop().unwrap()
}

/// An answer reports the same kind of outcome as the mutation had.
pub proof fn lemma_result_keeps_kind<Id>(result: DatabaseMutactionResult<Id>)
    requires
        result.spec_is_reportable(),
    ensures
        (spec_result_message(result) is Create) == (result.typ is Create),
        (spec_result_message(result) is Update) == (result.typ is Update),
        (spec_result_message(result) is Delete) == (result.typ is Delete),
        (spec_result_message(result) is Many) == (result.typ is Many),
        (spec_result_message(result) is Unit) == (result.typ is Unit),
{
}

/// A count that fits in 32 bits is reported exactly.
pub proof fn lemma_small_count_is_exact<Id>(count: usize)
    requires
        count <= u32::MAX,
    ensures
        spec_result_message(
            DatabaseMutactionResult::<Id> {
                identifier: Identifier::Count(count),
                typ: DatabaseMutactionResultType::Many,
            },
        ) == MutactionResultMessage::<Id>::Many(count as u32),
        count as u32 == count,
{
}

/// An outcome is reportable exactly when its identifier fits its kind: an id
/// for a creation, an update or a deletion, a count of any size (zero
/// included) for a mutation of many nodes, anything for a unit outcome.
pub proof fn lemma_reportable_outcomes<Id>(id: Id, n: usize, identifier: Identifier<Id>)
    ensures
        (DatabaseMutactionResult { identifier: Identifier::Id(id), typ: DatabaseMutactionResultType::Create }).spec_is_reportable(),
        (DatabaseMutactionResult { identifier: Identifier::Id(id), typ: DatabaseMutactionResultType::Update }).spec_is_reportable(),
        (DatabaseMutactionResult { identifier: Identifier::Id(id), typ: DatabaseMutactionResultType::Delete }).spec_is_reportable(),
        (DatabaseMutactionResult { identifier: Identifier::<Id>::Count(n), typ: DatabaseMutactionResultType::Many }).spec_is_reportable(),
        (DatabaseMutactionResult { identifier, typ: DatabaseMutactionResultType::Unit }).spec_is_reportable(),
        !(DatabaseMutactionResult { identifier: Identifier::<Id>::Count(n), typ: DatabaseMutactionResultType::Create }).spec_is_reportable(),
        !(DatabaseMutactionResult { identifier: Identifier::<Id>::Nothing, typ: DatabaseMutactionResultType::Update }).spec_is_reportable(),
        !(DatabaseMutactionResult { identifier: Identifier::<Id>::Count(n), typ: DatabaseMutactionResultType::Delete }).spec_is_reportable(),
        !(DatabaseMutactionResult { identifier: Identifier::Id(id), typ: DatabaseMutactionResultType::Many }).spec_is_reportable(),
        !(DatabaseMutactionResult { identifier: Identifier::<Id>::Nothing, typ: DatabaseMutactionResultType::Many }).spec_is_reportable(),
{
}

/// Each reportable outcome is reported with its own id or count: a creation,
/// update or deletion with the node's id, a mutation of many nodes with its
/// count modulo 2^32 (zero included), a unit outcome as unit.
pub proof fn lemma_reported_outcomes<Id>(id: Id, n: usize)
    ensures
        spec_result_message(DatabaseMutactionResult { identifier: Identifier::Id(id), typ: DatabaseMutactionResultType::Create })
            == MutactionResultMessage::Create(id),
        spec_result_message(DatabaseMutactionResult { identifier: Identifier::Id(id), typ: DatabaseMutactionResultType::Update })
            == MutactionResultMessage::Update(id),
        spec_result_message(DatabaseMutactionResult { identifier: Identifier::Id(id), typ: DatabaseMutactionResultType::Delete })
            == MutactionResultMessage::Delete(id),
        spec_result_message(DatabaseMutactionResult { identifier: Identifier::<Id>::Count(n), typ: DatabaseMutactionResultType::Many })
            == MutactionResultMessage::<Id>::Many(n as u32),
        spec_result_message(DatabaseMutactionResult { identifier: Identifier::<Id>::Nothing, typ: DatabaseMutactionResultType::Unit })
            == MutactionResultMessage::<Id>::Unit,
{
}

} // verus!
