//! Self-referential container anchored to storage it owns.
//!
//! Owned storage never moves underneath its owner, so no caller promise is
//! needed: construction, pinning and initialization collapse into the single
//! call [`Test::new`], and every handle it returns is readable at once. The
//! handle is the sole owner of the storage, and the storage is released only
//! when the handle itself is dropped, so no derived reference can outlive it.

use vstd::prelude::*;

verus! {

/// Abstract state of a heap-anchored container.
///
/// `derived_ref` records the content the derived reference resolves to. The
/// reference is structural here — the handle owns the storage it designates —
/// so well-formedness says it resolves to this container's own payload.
pub ghost struct TestModel {
    /// Content of the owned payload.
    pub primary: Seq<char>,
    /// Content the derived reference resolves to.
    pub derived_ref: Seq<char>,
}

impl TestModel {
    /// The derived reference designates this container's own payload storage,
    /// so it resolves to the payload content — never to another container's.
    pub open spec fn wf(self) -> bool {
        self.derived_ref == self.primary
    }
}

/// A self-referential container that owns its storage, pinned and initialized
/// from construction on. It exposes no mutating operation, so both the
/// payload and the derived reference are fixed for the handle's whole life.
pub struct Test {
    primary: String,
}

impl View for Test {
    type V = TestModel;

    closed spec fn view(&self) -> TestModel {
        TestModel { primary: self.primary@, derived_ref: self.primary@ }
    }
}

impl Test {
    /// Constructs the container in one atomic step: the payload is written
    /// into owned storage and the derived reference is computed against that
    /// storage before the handle is ever returned. No separate pinning or
    /// initialization call exists, and no uninitialized handle can be
    /// observed.
    pub fn new(txt: &str) -> (t: Test)
        ensures
            t@.primary == txt@,
            t@.wf(),
    {
        Test { primary: txt.to_owned() }
    }

    /// Reads the owned payload.
    pub fn a(&self) -> (r: &str)
        ensures
            r@ == self@.primary,
    {
        self.primary.as_str()
    }

    /// Reads the value the derived reference designates. Construction already
    /// initialized the reference, so there is no precondition and no failure
    /// path; the read resolves to the owned payload.
    pub fn b(&self) -> (r: &String)
        ensures
            r@ == self@.derived_ref,
            r@ == self@.primary,
    {
        &self.primary
    }
}

/// Distinct containers never alias: for two well-formed containers holding
/// different payloads, neither derived reference resolves to the other's
/// payload.
pub proof fn lemma_no_cross_instance_aliasing(a: TestModel, b: TestModel)
    requires
        a.wf(),
        b.wf(),
        a.primary != b.primary,
    ensures
        a.derived_ref != b.primary,
        b.derived_ref != a.primary,
{
}

} // verus!
