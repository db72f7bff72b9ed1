//! Cost evaluation for GraphQL queries: rules pair a structural pattern and an
//! optional guard with a cost formula, and each rule that applies to a query
//! item yields an exact, arbitrary-precision cost.
pub mod ast;
pub mod captures;
pub mod expressions;
pub mod language;
pub mod laws;
pub mod matching;
pub mod number;
