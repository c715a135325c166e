//! Client-side building blocks for an OData-style entity data service:
//! a query descriptor with a filter expression tree and its textual
//! serialization, and a batch encoder that frames write operations as a
//! multipart changeset body.

pub mod datetime;
pub mod batch;
pub mod client;
pub mod entity;
pub mod error;
pub mod guid;
pub mod query;
pub mod reference;
pub mod select;
pub mod text;
