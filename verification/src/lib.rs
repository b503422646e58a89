//! Lazy, idempotent loading of vendor GPU shared libraries.
//!
//! A program may depend on a vendor compute API's function signatures at
//! compile time while the vendor's shared library is found and opened only at
//! run time, exactly once per process. Three parts cooperate: the locator
//! builds the prioritized list of file paths to try (`locator`); the global
//! library slot owns the one native handle and the one-shot population gate
//! (`slot`); and the symbol table maps declared function names to resolved
//! addresses, tolerating names the installed library does not export
//! (`table`). The status and mode enumerations the native interface speaks in
//! are under `cublas`.

#![allow(non_camel_case_types)]

pub mod cublas;
pub mod locator;
pub mod slot;
pub mod table;
