pub mod live;
pub mod provider;
