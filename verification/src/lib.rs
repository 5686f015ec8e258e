//! Instance records of a Formation node and the decisions made around them:
//! resource and metadata accessors, cluster membership, snapshot history,
//! replicated-state queries, build-status reports and the VMM service API.

pub mod text;
pub mod model;
pub mod cluster;
pub mod snapshots;
pub mod codec;
pub mod keys;
pub mod instance;
pub mod state;
pub mod pack_status;
pub mod vmm_api;

