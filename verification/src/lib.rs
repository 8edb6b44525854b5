//! A minimal HTTP service core: a pure arithmetic computation, a single-row
//! user lookup by integer id, and a liveness check, together with the
//! configuration, pool-bookkeeping and startup rules that surround them.
//!
//! The library holds the verified logic; the binary around it does the
//! actual network and database I/O and hands plain values in and out.

mod calc;
mod config;
mod health;
mod pool;
mod startup;
mod timestamp;
mod user;

pub use calc::sum_of_squares;
pub use config::connection_url;
pub use config::db_config;
pub use config::resolve_setting;
pub use config::resolved;
pub use config::url_text;
pub use config::DbConfig;
pub use health::health;
pub use health::HealthResponse;
pub use pool::lemma_pool_bookkeeping_bounded;
pub use pool::pool_run;
pub use pool::pool_step;
pub use pool::PoolCounters;
pub use pool::PoolEvent;
pub use pool::POOL_MAX_CONNECTIONS;
pub use pool::POOL_MIN_CONNECTIONS;
pub use startup::startup_step;
pub use startup::StartupAction;
pub use startup::StartupEvent;
pub use startup::StartupState;
pub use startup::BIND_ADDR;
pub use timestamp::days_in_month;
pub use timestamp::digit_char;
pub use timestamp::four_digits;
pub use timestamp::is_leap_year;
pub use timestamp::timestamp_text;
pub use timestamp::two_digits;
pub use timestamp::Timestamp;
pub use user::handle_user_lookup;
pub use user::response_matches;
pub use user::user_response_for;
pub use user::LookupOutcome;
pub use user::UserError;
pub use user::UserRecord;
pub use user::UserResponse;
pub use user::STATUS_OK;
