pub mod pool;
pub mod sale;
pub mod user_claim;
pub mod user_position;

pub use pool::Pool;
pub use sale::Sale;
pub use user_claim::UserClaim;
pub use user_position::UserPosition;
