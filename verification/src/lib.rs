pub mod auth_service;
pub mod broadcaster;
mod clock;
pub mod config;
pub mod decimal;
pub mod flow_laws;
pub mod frame;
pub mod hub;
pub mod jwt_middleware;
pub mod jwt_token_generation;
pub mod poll_config;
pub mod poll_model;
pub mod poll_repository;
pub mod poll_results_utility;
pub mod poll_service;
pub mod reply;
pub mod selection;
pub mod text;
pub mod types;
pub mod user_config;
pub mod vote;
pub mod vote_laws;
