pub mod graphql;
pub mod sync_checker;
pub mod push_checker;
pub mod repo_selector;
pub mod cache;
pub mod actions;
pub mod listings;
