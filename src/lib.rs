//! Veeox: marker types of a web-serving toolkit, each able to report its own name.

mod api;
mod demo;
mod string;
mod web;

pub use api::Api;
pub use demo::Demo;
pub use string::Str;
pub use web::{Middleware, Request, Response, Route, Server};
