pub mod lock_mode;
pub mod lock_type;

pub use lock_mode::LockMode;
pub use lock_type::LockType;
