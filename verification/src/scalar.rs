//! Numbers that carry their unit or their purpose in their type.
//!
//! Each type wraps one number. Values of different types never convert
//! into one another by themselves: to pass from one to another, take the
//! number out with `value` and wrap it again.
pub mod arith;
pub mod count;
pub mod kilometers;
pub mod meters;
pub mod score;
pub mod seconds;
pub mod user_id;

pub use count::Count;
pub use kilometers::Kilometers;
pub use meters::Meters;
pub use score::Score;
pub use seconds::Seconds;
pub use user_id::UserId;
