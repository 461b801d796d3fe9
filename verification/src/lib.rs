//! Route table and request/response translation rules of a configuration-driven
//! reverse proxy.

pub mod endpoint_map;
pub mod filtering;
pub mod header;
pub mod http_client;
pub mod http_client_provider;
pub mod proxy_item;
pub mod proxy_route_service;
pub mod proxy_service;
pub mod response;
pub mod route_config;
