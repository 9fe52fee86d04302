//! Ternary fleet integration: tallies of {-1, 0, +1} votes cast by fleet nodes,
//! the health, priority and rate-limit decisions derived from them, and the
//! node registry that a relay keeps up to date.
pub mod dash_emitter;
pub mod fleet_registry;
pub mod fleet_types;
pub mod health_report;
pub mod rate_limiter_bridge;
pub mod ratio;
pub mod ternary_aggregator;

pub use dash_emitter::{summarize_node, summarize_nodes, FleetNodeSummary};
pub use fleet_registry::{merge_nodes, node_position, upsert_node};
pub use fleet_types::FleetNode;
pub use health_report::{generate_health_report, node_healthy, FleetHealth};
pub use rate_limiter_bridge::{
    fleet_rate_limit, priority_from_ternary, should_throttle, ternary_token_budget,
};
pub use ratio::{Ratio, SignedRatio};
pub use ternary_aggregator::{aggregate_votes, has_consensus, node_votes, AggregateResult};
