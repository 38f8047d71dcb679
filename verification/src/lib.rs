//! Small verified studies of the standard library's everyday types: boxes,
//! vectors, strings, optional values, results, and hash maps and sets.
//!
//! Each study computes what it has to show and hands it back as plain
//! values; none of them prints. The contracts say exactly what comes back.

pub mod accounts;
pub mod boxed;
pub mod decimal;
pub mod hashmap;
pub mod optional;
pub mod result;
pub mod strings;
pub mod vector;

pub use boxed::box_and_stack_and_heap;
pub use hashmap::run_hashmap;
pub use optional::option;
pub use result::run_result;
pub use strings::run_strings;
pub use vector::vectors;
