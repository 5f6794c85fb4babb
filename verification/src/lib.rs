pub mod text;
pub mod scope;
pub mod ids;
pub mod model;
pub mod authorize;
pub mod approve;
pub mod token;
pub mod migration;
