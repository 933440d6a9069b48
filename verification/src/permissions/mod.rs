pub mod keys;
pub mod repository;
pub mod resolver;
pub mod check;
pub mod service;
