//! The query roots the outer server merges into its schema.

use vstd::prelude::*;

use crate::parser::ParserQuery;

verus! {

/// The metadata query root.
pub struct MetaQuery;

/// The health query root.
pub struct HealthQuery;

/// The merged query root.
pub struct Query(pub MetaQuery, pub HealthQuery, pub ParserQuery);

} // verus!
