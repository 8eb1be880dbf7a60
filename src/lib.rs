//! Routing and validation core of a small HTTP gateway over a movie catalog
//! and a book catalog.
//!
//! Every route is decided here: a handler turns its parameters into a
//! [`routes::Step`], which either answers at once or names the single catalog
//! call to make; the caller performs that call and hands its outcome back to
//! [`routes::respond`] (or [`routes::proxy_reply`] for the image relay), which
//! maps it to the [`response::Response`] to send.
pub mod response;
pub mod request;
pub mod routes;
pub mod laws;
