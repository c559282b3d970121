pub mod amlich;
pub mod kafka;
pub mod models;
pub mod render;
pub mod requests;
pub mod responses;
pub mod unleash;
pub mod vncalendar;
