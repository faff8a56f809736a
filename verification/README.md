# prisma_bridge

The project model of a Prisma server and the decisions that its native
protobuf bridge makes around each request, written in Verus.

- `src/project.rs`: projects, their manifestation and the name a project is
  stored under; the defaults of a project's settings.
- `src/bridge.rs`: how a failed request is answered (an empty answer for a
  missing node, an error answer otherwise) and which error answer each
  bridge error becomes.
- `src/args.rs`: the arguments of a mutation, a map in which a later value of
  a field replaces an earlier one.
- `src/mutaction.rs`: which database mutation each kind of request becomes,
  and how a mutation's outcome is reported.
- `src/requests.rs`: the choice of connector, the answer to a query for one
  node, and the table that a count by table reads.
- `src/raw.rs`: the answer to a raw query, written with serde_json.
- `app/`: the serde forms of the project model and the protobuf interface,
  which decodes requests, queries the database and encodes answers.
