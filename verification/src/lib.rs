//! Moving the pixels of an off-screen surface from one OpenGL context into
//! the surface bound to another, on the GPU, with a ledger that says at
//! every moment which context holds which surface and which context is
//! current.
//!
//! `ledger` is the book of ownership and currency and states what every
//! step does to it; `lifecycle` and `transfer` carry the steps out on
//! the platform and keep the book; `handles` holds what the platform
//! hands out, each with its place in the book, so that nothing released
//! goes back to the platform; `validator` judges what the driver reports
//! after each step; `gpu` holds the calls into the platform, which are
//! believed rather than proved.

pub mod codes;
pub mod error;
pub mod geometry;
pub mod gpu;
pub mod handles;
pub mod ledger;
pub mod lifecycle;
pub mod pixel;
pub mod transfer;
pub mod validator;
