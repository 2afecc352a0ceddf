pub mod batch;
pub mod fetch;
pub mod home;
pub mod keys;
pub mod log_widget;
pub mod logger;
pub mod navigation;
