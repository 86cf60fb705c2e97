//! Tools for preparing Windows installation media and guest disk images.
//!
//! The heart of the crate is [`autounattend`], which rewrites selected text
//! values of an unattended-installation answer file while it streams by.
//! [`matching`] says what such a pass means, [`laws`] what holds of every
//! pass, and [`xml_stream`] what the pass relies on of the XML reader and
//! writer.
//!
//! Around it stand the scripts that build an installation disk or a guest
//! image. A script is a list of steps ([`runner`]); the scripts for each
//! host are in [`linux`] and [`illumos`]. Nothing here launches a command or
//! touches a file: a step is worked out as the command line to launch, the
//! files to copy and the values to keep for later steps, and the caller
//! carries it out.

pub mod autounattend;
pub mod config;
pub mod events;
pub mod illumos;
pub mod laws;
pub mod linux;
pub mod matching;
pub mod runner;
pub mod steps;
pub mod text;
pub mod util;
pub mod xml_stream;
