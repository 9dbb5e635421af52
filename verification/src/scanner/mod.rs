pub mod report;
pub mod ignore;
pub mod engine;
pub mod filters;
