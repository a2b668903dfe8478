//! A small verified library for a command-line image filter applier.
//!
//! The pipeline it supports runs in four stages: resolve the command-line
//! arguments into a configuration, resolve and validate the input path,
//! apply the selected filter to the decoded image, and write the result.
//! The decisions of each stage — which filter a name denotes, how a path
//! is resolved, when a path is acceptable, which status line an outcome
//! earns — live here with contracts; the image codec, the pixel math and
//! all file I/O stay with the binary around the library.

pub mod args;
pub mod filter;
pub mod output;
pub mod path;
