//! Core logic of a small chat bot: uptime rendering, shard-status replies,
//! and the status poller's per-tick output, all with verified contracts.
//! Network and gateway plumbing live outside this crate.

mod commands;
mod decimal;
mod shards;
mod uptime;

pub use commands::AboutEmbed;
pub use commands::EMBED_COLOR;
pub use commands::Embed;
pub use commands::about_embed;
pub use commands::ping_reply;
pub use commands::spec_about_info;
pub use commands::spec_author_icon;
pub use commands::spec_ping_reply;
pub use commands::uptime_embed;

pub use decimal::spec_decimal;
pub use decimal::spec_digit_char;
pub use decimal::u64_to_decimal;

pub use shards::ShardEntry;
pub use shards::ShardRegistry;
pub use shards::Stage;
pub use shards::latency_reply;
pub use shards::spec_effective_latency;
pub use shards::spec_latency_reply;
pub use shards::spec_lookup;
pub use shards::spec_registry_view;
pub use shards::spec_status_line;
pub use shards::status_line;
pub use shards::status_lines;

pub use uptime::Uptime;
pub use uptime::elapsed_string;
pub use uptime::lemma_elapsed_between;
pub use uptime::lemma_elapsed_decomposition;
pub use uptime::spec_days;
pub use uptime::spec_elapsed_seconds;
pub use uptime::spec_elapsed_string;
pub use uptime::spec_hours;
pub use uptime::spec_minutes;
pub use uptime::spec_seconds;

