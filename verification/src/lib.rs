//! Plans and judges the provisioning of a tree of devices in a device
//! registry, and the issuing of a certificate for each of them.
//!
//! The library performs no call itself. It walks the configured tree, says
//! which external calls to make in which wave, classifies what each call
//! returned, and decides from the outcomes of a wave what comes next. The
//! program around it runs the commands and writes the log.

pub mod certs;
pub mod client;
pub mod config;
pub mod files;
pub mod hub;
pub mod hub_responses;
pub mod outcome;
pub mod provision;
pub mod text;
pub mod walker;
pub mod wave;
