pub mod config;
pub mod decimal;
pub mod error;
pub mod handlers;
pub mod logging;
pub mod queries;
pub mod repository;
pub mod router;
pub mod statement;
pub mod table;

pub use crate::error::Error;
pub use crate::handlers::{
    alive, ping, todo_create, todo_delete, todo_list, todo_read, todo_update, Body, Reply,
};
pub use crate::logging::init_tracing;
pub use crate::repository::{CreateTodo, Fetched, Todo, UpdateTodo};
pub use crate::router::{create_router, Handler, Method, Route};
pub use crate::statement::{Param, Statement};
