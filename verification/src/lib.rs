//! Core of a privilege-separated operating-system installer.
//!
//! An unprivileged frontend drives installation steps by issuing calls to a
//! privileged backend over a Unix domain socket. Every accepted connection is
//! authenticated by kernel-reported peer credentials, every call is gated by
//! an authorization guard, and the installation workflow itself is a verified
//! step-navigation state machine.
//!
//! Transport, elevation and terminal rendering are external collaborators:
//! they hand this library plain values and take plain values back.

pub mod account;
pub mod auth;
pub mod disks;
pub mod icon;
pub mod step;
pub mod steps;
pub mod installer;
pub mod locales;
pub mod logging;
pub mod model;
pub mod provisioner;
pub mod system;
pub mod tui;
