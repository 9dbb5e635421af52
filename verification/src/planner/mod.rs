pub mod task;
pub mod history;
pub mod storage;
pub mod session;
pub mod screen;
