//! A minimal tool-serving library: a fixed set of callable tools (echo,
//! calculator, statistics) behind a dispatcher that routes named operations
//! to handlers and tracks a shared request counter.

pub mod ops;
pub mod server;
pub mod text;

pub use ops::CalcError;
pub use ops::Op;
pub use ops::parse_operation;
pub use server::RustyServer;
pub use server::ServerInfo;
pub use server::format_calculation;
pub use text::u64_to_string;
