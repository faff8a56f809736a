//! The project model of a Prisma server and the decisions that its
//! protobuf bridge makes around each request, proved with Verus.

pub mod project;
pub mod bridge;
pub mod args;
pub mod mutaction;
pub mod requests;
pub mod raw;
