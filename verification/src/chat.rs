pub mod controller;
pub mod model;
pub mod service;
