pub mod constant;
pub mod model;
pub mod service;
pub mod controller;
