pub mod api;
pub mod bytes;
pub mod clock;
pub mod crypto;
pub mod db;
pub mod encoding;
pub mod ids;
pub mod services;
pub mod tokens;
pub mod utilities;
