pub mod config;
pub mod error;
pub mod model;

pub use config::CathbadClientConfig;
pub use error::{CathbadClientError, DruidError};
pub use model::{CathbadClient, Request, Step};
