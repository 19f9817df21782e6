pub mod envelope;
pub mod lifecycle;
pub mod method;
pub mod middleware;
pub mod routes;
pub mod server;
