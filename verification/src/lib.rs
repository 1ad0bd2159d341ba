//! Build-time generator of mock implementations for abstract interfaces.
//!
//! The library turns a structural description of a trait-like interface
//! (its methods, associated types and base-interface references) into a
//! structural description of the code a mocking framework needs: the mock
//! type itself, forwarding implementations that hand every call to a
//! shared dispatch engine, and per-method expectation-builder entry
//! points for test code.
//!
//! - [`ast`] and [`decl`] model type expressions and interface
//!   declarations as plain values;
//! - [`rewrite`] qualifies or substitutes `Self` references inside type
//!   expressions;
//! - [`registry`] is the build-wide store of seen interfaces, and
//!   [`statics`] the per-thread registration discipline of static mocks;
//! - [`resolve`] validates a request and assigns interface ids;
//! - [`methodgen`] derives each method's forwarding stub and
//!   expectation builder, [`gen`] holds the generated artifacts, and
//!   [`codegen`] assembles them behind the two entry points
//!   [`codegen::mocked_impl`] and [`codegen::mock_impl`];
//! - [`laws`] states and proves the properties that hold of every
//!   generation.

pub mod ast;
pub mod decl;
pub mod gen;
pub mod methodgen;
pub mod registry;
pub mod resolve;
pub mod codegen;
pub mod laws;
pub mod statics;
pub mod rewrite;

use vstd::prelude::*;

verus! {

/// Counter handing out process-unique interface ids. Every interface a
/// mock implements gets its own id; the id is embedded in the generated
/// forwarding code so the dispatch engine can tell same-named methods of
/// different interfaces apart. Callers keep one counter per process,
/// behind their own lock.
pub struct IdCounter {
    pub next: usize,
}

impl IdCounter {
    /// A fresh counter; the first id handed out is zero.
    pub fn new() -> (r: IdCounter)
        ensures
            r.next == 0,
    {
        IdCounter { next: 0 }
    }

    /// Hands out the next id; ids are never reused.
    pub fn fresh_id(&mut self) -> (r: usize)
        requires
            old(self).next < usize::MAX,
        ensures
            r == old(self).next,
            final(self).next == old(self).next + 1,
    {
        let r = self.next;
        self.next = self.next + 1;
        r
    }
}

} // verus!
