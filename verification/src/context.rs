//! The server context the outer program threads through its handlers.

use std::sync::Arc;

use vstd::prelude::*;

use crate::{health, meta, parser};

verus! {

/// The services a request handler reaches.
#[derive(Clone)]
pub struct ServerContext {
    pub meta_service: Arc<meta::Service>,
    pub health_service: Arc<health::Service>,
    pub parser_service: Arc<parser::Service>,
}

} // verus!
