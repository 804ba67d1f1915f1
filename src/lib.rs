pub mod board;
pub mod gateway;
pub mod ids;
pub mod laws;
pub mod model;
pub mod projects;
pub mod schema;
pub mod store;

pub use gateway::DbError;
pub use model::{Board, Card, Column, MoveCardParams, Project};
pub use store::Stmt;
