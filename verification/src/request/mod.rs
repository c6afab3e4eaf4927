pub mod custom_data;
pub mod notification;
pub mod payload;
