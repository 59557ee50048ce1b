pub mod change_user;
pub mod dao;
pub mod dto;
pub mod error;
pub mod inmemory;
pub mod model;
pub mod repository;
pub mod temp_storage;
pub mod validator;
