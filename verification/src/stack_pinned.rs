//! Self-referential container anchored to a caller-owned slot.
//!
//! The container starts unpinned, with no derived reference. The caller pins
//! it into a slot it owns — promising, without any check here, that the slot
//! stays put — and then runs [`Test::init`], the one step allowed to write the
//! derived reference. Only after that may the reference be read.

use vstd::prelude::*;

verus! {

/// Abstract state of a stack-anchored container.
///
/// Slot locations are abstract tokens: the pinning step records which slot the
/// container was pinned into, and the derived reference, once computed, names
/// the slot it designates. Nothing here chases machine addresses; the token
/// only has to identify the slot consistently.
pub ghost struct TestModel {
    /// Content of the owned payload.
    pub primary: Seq<char>,
    /// Slot the container is pinned into, if it has been pinned.
    pub pinned_at: Option<int>,
    /// Slot the derived reference designates, if it has been computed.
    pub derived_ref: Option<int>,
}

impl TestModel {
    /// The one invariant of the lifecycle: a derived reference, once set,
    /// designates the pinned slot of this very container — never another
    /// container's slot, and never a slot the container was not pinned into.
    pub open spec fn wf(self) -> bool {
        self.derived_ref is Some ==> self.derived_ref == self.pinned_at
    }

    /// The container has been placed into its final slot.
    pub open spec fn is_pinned(self) -> bool {
        self.pinned_at is Some
    }

    /// The derived reference has been computed; reading it is now legal.
    pub open spec fn is_initialized(self) -> bool {
        self.derived_ref is Some
    }
}

/// State of a freshly constructed container: unpinned, no derived reference.
pub open spec fn create_model(payload: Seq<char>) -> TestModel {
    TestModel { primary: payload, pinned_at: None, derived_ref: None }
}

/// Effect of pinning into slot `slot`: only the location is recorded.
pub open spec fn pin_model(m: TestModel, slot: int) -> TestModel {
    TestModel { primary: m.primary, pinned_at: Some(slot), derived_ref: m.derived_ref }
}

/// Effect of initialization: the derived reference is recomputed to designate
/// the pinned slot, whatever it held before.
pub open spec fn init_model(m: TestModel) -> TestModel {
    TestModel { primary: m.primary, pinned_at: m.pinned_at, derived_ref: m.pinned_at }
}

/// Error for reading the derived reference before initialization: a
/// programmer-error class with no recovery beyond reporting it.
#[derive(Debug, PartialEq, Eq)]
pub struct UninitializedAccess;

/// A self-referential container meant to live in a caller-owned slot.
///
/// The value must not be relocated once pinned. With no pin marker available
/// to enforce that statically, the obligation rests on the caller of
/// [`Test::pin_in_place`], exactly as the promise about the slot itself does.
pub struct Test {
    primary: String,
    pinned_at: Option<usize>,
    derived_ref: Option<usize>,
}

impl View for Test {
    type V = TestModel;

    closed spec fn view(&self) -> TestModel {
        TestModel {
            primary: self.primary@,
            pinned_at: match self.pinned_at {
                Some(a) => Some(a as int),
                None => None,
            },
            derived_ref: match self.derived_ref {
                Some(a) => Some(a as int),
                None => None,
            },
        }
    }
}

impl Test {
    /// Constructs an unpinned container holding `txt`. Allocates nothing
    /// beyond the payload itself and computes no reference yet.
    pub fn new(txt: &str) -> (t: Test)
        ensures
            t@ == create_model(txt@),
            t@.wf(),
    {
        Test { primary: txt.to_owned(), pinned_at: None, derived_ref: None }
    }

    /// Pins the container into the caller's slot, identified by `slot_addr`.
    ///
    /// This is the one caller-trusted step of the lifecycle: nothing here can
    /// check that `slot_addr` really identifies the storage this value sits
    /// in, nor that the slot stays valid and unmoved for the rest of the
    /// container's life. Breaking that promise is misuse on the caller's
    /// side, not a condition this type can detect. Pinning is one-directional:
    /// a pinned container can never return to the unpinned state.
    pub fn pin_in_place(&mut self, slot_addr: usize)
        requires
            old(self)@.wf(),
            !old(self)@.is_pinned(),
        ensures
            final(self)@ == pin_model(old(self)@, slot_addr as int),
            final(self)@.wf(),
    {
        self.pinned_at = Some(slot_addr);
    }

    /// Computes the derived reference: it is set to designate this
    /// container's own pinned slot. This is the only place allowed to mutate
    /// a pinned container. Running it again is allowed and changes nothing.
    pub fn init(&mut self)
        requires
            old(self)@.wf(),
            old(self)@.is_pinned(),
        ensures
            final(self)@ == init_model(old(self)@),
            final(self)@.wf(),
            final(self)@.is_initialized(),
    {
        self.derived_ref = self.pinned_at;
    }

    /// Reads the owned payload. Legal on any pinned container, initialized or
    /// not.
    pub fn a(&self) -> (r: &str)
        requires
            self@.is_pinned(),
        ensures
            r@ == self@.primary,
    {
        self.primary.as_str()
    }

    /// Reads the value the derived reference designates. By the invariant the
    /// reference designates this container's own pinned slot, so the read
    /// resolves to the owned payload. Calling this before [`Test::init`] is a
    /// programmer error, ruled out here before the fact; [`Test::b_checked`]
    /// reports the same violation as a value instead.
    pub fn b(&self) -> (r: &String)
        requires
            self@.wf(),
            self@.is_initialized(),
        ensures
            r@ == self@.primary,
            self@.derived_ref == self@.pinned_at,
    {
        &self.primary
    }

    /// Guarded form of [`Test::b`]: reading before initialization fails
    /// loudly with [`UninitializedAccess`] instead of returning anything.
    pub fn b_checked(&self) -> (r: Result<&String, UninitializedAccess>)
        ensures
            r is Ok <==> self@.is_initialized(),
            r matches Ok(s) ==> s@ == self@.primary,
    {
        match self.derived_ref {
            Some(_) => Ok(&self.primary),
            None => Err(UninitializedAccess),
        }
    }
}

/// Initialization is idempotent: running it a second time recomputes the very
/// same derived reference, so the state after two runs equals the state after
/// one.
pub proof fn lemma_initialize_idempotent(m: TestModel)
    ensures
        init_model(init_model(m)) == init_model(m),
{
}

/// The full lifecycle round-trips the payload: creating a container from
/// `payload`, pinning it into `slot` and initializing it yields a well-formed,
/// initialized state that still holds `payload` and whose derived reference
/// designates exactly `slot`.
pub proof fn lemma_lifecycle_round_trip(payload: Seq<char>, slot: int)
    ensures
        ({
            let m = init_model(pin_model(create_model(payload), slot));
            m.wf() && m.is_initialized() && m.primary == payload && m.derived_ref == Some(slot)
        }),
{
}

/// Distinct pinned containers never alias: if two initialized containers are
/// pinned into different slots, neither derived reference designates the
/// other's slot, and the two references differ.
pub proof fn lemma_no_cross_instance_aliasing(a: TestModel, b: TestModel)
    requires
        a.wf(),
        b.wf(),
        a.is_initialized(),
        b.is_initialized(),
        a.pinned_at != b.pinned_at,
    ensures
        a.derived_ref != b.pinned_at,
        b.derived_ref != a.pinned_at,
        a.derived_ref != b.derived_ref,
{
}

} // verus!
