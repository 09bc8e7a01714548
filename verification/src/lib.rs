//! Provisioning of bare repositories on a drive.
//!
//! Creating a repository is a short, linear operation: make sure the base
//! directory is there, name the repository's directory, clear what is in the
//! way if that was asked for, create the directory, have the version-control
//! tool initialise it, and register its absolute path as `origin` or print
//! that path.
//!
//! This crate holds the decisions of that operation and proves what they
//! guarantee. It touches neither the file system nor any process: the
//! [`provisioner::Provisioner`] hands out one [`request::Request`] at a time,
//! the caller carries it out and answers with a [`request::Reply`].
//! What the requests do to a file system is described in [`world`], and
//! [`laws`] proves what every run of the operation does to it.

pub mod config;
pub mod error;
pub mod laws;
pub mod naming;
pub mod provisioner;
pub mod request;
pub mod world;
