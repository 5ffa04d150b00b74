//! Runs the scripts that are configured for a sensor when the sensor
//! reports.
//!
//! A configuration document lists sensors, each with the scripts to run for
//! it ([`config`], read from YAML by [`document`]). A notification for a
//! sensor is answered by running every script that is listed for it, in
//! order and whatever the scripts before it did, and by a reply that is
//! always the same ([`dispatch`]). Each script runs in a shell and leaves a
//! result behind ([`runner`]).
//!
//! The library starts no process and opens no file. It decides, and the
//! program around it acts: it reads the settings ([`startup`]) and the
//! configuration text, hands them over, and then runs what a
//! [`dispatch::Dispatch`] asks for.

pub mod config;
pub mod dispatch;
pub mod document;
pub mod error;
pub mod runner;
pub mod startup;
pub mod text;
