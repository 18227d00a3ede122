pub mod ast;
pub mod policy;
pub mod scope;
pub mod semantics;
pub mod walker;
pub mod report;
pub mod laws;
