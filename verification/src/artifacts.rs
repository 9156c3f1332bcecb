//! What one code-generation session has made, and the handles by which the
//! index refers to it.
//!
//! The index outlives the session, so it does not hold what the
//! backend has generated. It holds handles. The generated values stay here,
//! for as long as the session lasts, and a handle is resolved through the
//! `Artifacts` that gave it out.

use vstd::prelude::*;

verus! {

/// inkwell's `PointerValue`: the storage that code generation made for a
/// variable. Such a value is kept and handed out; nothing is known, or
/// assumed, of what it holds.
#[verifier::external_type_specification]
#[verifier::external_body]
pub struct ExPointerValue<'ctx>(inkwell::values::PointerValue<'ctx>);

/// inkwell's `FunctionValue`: the function that code generation made for a
/// callable type. Such a value is kept and handed out; nothing is known, or
/// assumed, of what it holds.
#[verifier::external_type_specification]
#[verifier::external_body]
pub struct ExFunctionValue<'ctx>(inkwell::values::FunctionValue<'ctx>);

/// inkwell's `BasicTypeEnum`: the representation that code generation made
/// for a type. Such a value is kept and handed out; nothing is known, or
/// assumed, of what it holds.
#[verifier::external_type_specification]
#[verifier::external_body]
pub struct ExBasicTypeEnum<'ctx>(inkwell::types::BasicTypeEnum<'ctx>);

/// Refers to the storage generated for a variable.
#[derive(Clone, Copy, Debug, PartialEq, Eq, Hash, Structural)]
pub struct ReferenceHandle {
    slot: usize,
}

/// Refers to the representation generated for a type.
#[derive(Clone, Copy, Debug, PartialEq, Eq, Hash, Structural)]
pub struct TypeHandle {
    slot: usize,
}

/// Refers to the function generated for a callable type.
#[derive(Clone, Copy, Debug, PartialEq, Eq, Hash, Structural)]
pub struct ImplementationHandle {
    slot: usize,
}

impl ReferenceHandle {
    /// The place of what the handle refers to, among the storage that its
    /// session has generated.
    pub closed spec fn slot(self) -> nat {
        self.slot as nat
    }
}

impl TypeHandle {
    /// The place of what the handle refers to, among the representations
    /// that its session has generated.
    pub closed spec fn slot(self) -> nat {
        self.slot as nat
    }
}

impl ImplementationHandle {
    /// The place of what the handle refers to, among the functions that its
    /// session has generated.
    pub closed spec fn slot(self) -> nat {
        self.slot as nat
    }
}

/// What resolving the handle with place `slot` among `values` gives: the
/// value at that place, and nothing where the place is not taken.
pub open spec fn resolved<T>(values: Seq<T>, slot: nat) -> Option<T> {
    if slot < values.len() {
        Some(values[slot as int])
    } else {
        None
    }
}

/// All that one code-generation session has generated, in the order in
/// which it was added.
pub struct Artifacts<'ctx> {
    references: Vec<inkwell::values::PointerValue<'ctx>>,
    types: Vec<inkwell::types::BasicTypeEnum<'ctx>>,
    implementations: Vec<inkwell::values::FunctionValue<'ctx>>,
}

/// The artifacts of a session as specifications see them.
pub struct ArtifactsView<'ctx> {
    pub references: Seq<inkwell::values::PointerValue<'ctx>>,
    pub types: Seq<inkwell::types::BasicTypeEnum<'ctx>>,
    pub implementations: Seq<inkwell::values::FunctionValue<'ctx>>,
}

impl<'ctx> View for Artifacts<'ctx> {
    type V = ArtifactsView<'ctx>;

    closed spec fn view(&self) -> ArtifactsView<'ctx> {
        ArtifactsView {
            references: self.references@,
            types: self.types@,
            implementations: self.implementations@,
        }
    }
}

impl<'ctx> Artifacts<'ctx> {
    /// The artifacts of a session that has generated nothing yet.
    pub fn new() -> (artifacts: Artifacts<'ctx>)
        ensures
            artifacts@ == (ArtifactsView {
                references: Seq::empty(),
                types: Seq::empty(),
                implementations: Seq::empty(),
            }),
    {
        Artifacts { references: Vec::new(), types: Vec::new(), implementations: Vec::new() }
    }

    /// Keeps the storage generated for a variable, and gives the handle
    /// that refers to it from now on.
    pub fn add_reference(&mut self, value: inkwell::values::PointerValue<'ctx>) -> (handle:
        ReferenceHandle)
        ensures
            handle.slot() == old(self)@.references.len(),
            final(self)@ == (ArtifactsView {
                references: old(self)@.references.push(value),
                ..old(self)@
            }),
    {
        let handle = ReferenceHandle { slot: self.references.len() };
        self.references.push(value);
        handle
    }

    /// Keeps the representation generated for a type, and gives the handle
    /// that refers to it from now on.
    pub fn add_type(&mut self, value: inkwell::types::BasicTypeEnum<'ctx>) -> (handle: TypeHandle)
        ensures
            handle.slot() == old(self)@.types.len(),
            final(self)@ == (ArtifactsView { types: old(self)@.types.push(value), ..old(self)@ }),
    {
        let handle = TypeHandle { slot: self.types.len() };
        self.types.push(value);
        handle
    }

    /// Keeps the function generated for a callable type, and gives the
    /// handle that refers to it from now on.
    pub fn add_implementation(&mut self, value: inkwell::values::FunctionValue<'ctx>) -> (handle:
        ImplementationHandle)
        ensures
            handle.slot() == old(self)@.implementations.len(),
            final(self)@ == (ArtifactsView {
                implementations: old(self)@.implementations.push(value),
                ..old(self)@
            }),
    {
        let handle = ImplementationHandle { slot: self.implementations.len() };
        self.implementations.push(value);
        handle
    }

    /// The storage that `handle` refers to; nothing if this session gave
    /// out no such handle.
    pub fn reference(&self, handle: ReferenceHandle) -> (value: Option<
        inkwell::values::PointerValue<'ctx>,
    >)
        ensures
            value == resolved(self@.references, handle.slot()),
    {
        if handle.slot < self.references.len() {
            Some(self.references[handle.slot])
        } else {
            None
        }
    }

    /// The representation that `handle` refers to; nothing if this session
    /// gave out no such handle.
    pub fn data_type(&self, handle: TypeHandle) -> (value: Option<
        inkwell::types::BasicTypeEnum<'ctx>,
    >)
        ensures
            value == resolved(self@.types, handle.slot()),
    {
        if handle.slot < self.types.len() {
            Some(self.types[handle.slot])
        } else {
            None
        }
    }

    /// The function that `handle` refers to; nothing if this session gave
    /// out no such handle.
    pub fn implementation(&self, handle: ImplementationHandle) -> (value: Option<
        inkwell::values::FunctionValue<'ctx>,
    >)
        ensures
            value == resolved(self@.implementations, handle.slot()),
    {
        if handle.slot < self.implementations.len() {
            Some(self.implementations[handle.slot])
        } else {
            None
        }
    }
}

/// A handle resolves to what it was given out for, and goes on doing so
/// whatever the session adds later.
pub proof fn lemma_handle_stays_resolved<T>(values: Seq<T>, value: T, later: Seq<T>)
    ensures
        resolved(values.push(value) + later, values.len()) == Some(value),
        resolved(values, values.len()) is None,
{
}

/// What is added later changes nothing that a handle resolved to before.
pub proof fn lemma_adding_keeps_handles<T>(values: Seq<T>, value: T, slot: nat)
    requires
        resolved(values, slot) is Some,
    ensures
        resolved(values.push(value), slot) == resolved(values, slot),
{
}

} // verus!
