// Capability mediation for a WASI host: a table of numbered handles whose
// entries each carry the set of operations they may perform.
pub mod caps;
pub mod ctx;
pub mod dir;
pub mod error;
pub mod file;
pub mod providers;
pub mod string_array;
pub mod table;
