//! The index as specifications see it: three maps keyed by names, and what
//! each operation of the index does to them.
//!
//! An association attaches a handle to an entry. What a handle refers to
//! is kept by the code-generation session that gave it out; the index never
//! resolves one.

use vstd::prelude::*;
use crate::artifacts::{ImplementationHandle, ReferenceHandle, TypeHandle};
use crate::index::scopes::{scoped_get, scoped_insert};
use crate::index::VariableType;

verus! {

/// What a declaration says of a variable.
pub struct VariableInformationView {
    pub variable_type: VariableType,
    pub data_type_name: Seq<char>,
    pub qualifier: Option<Seq<char>>,
}

/// A variable in the index.
pub struct VariableEntryView {
    pub name: Seq<char>,
    pub information: VariableInformationView,
    pub generated_reference: Option<ReferenceHandle>,
}

/// A type in the index.
pub struct DataTypeEntryView {
    pub name: Seq<char>,
    pub implementation: Option<ImplementationHandle>,
    pub generated_type: Option<TypeHandle>,
}

impl VariableEntryView {
    /// The entry of a variable as registration makes it: nothing generated
    /// is attached yet.
    pub open spec fn declared(
        name: Seq<char>,
        variable_type: VariableType,
        data_type_name: Seq<char>,
        qualifier: Option<Seq<char>>,
    ) -> Self {
        VariableEntryView {
            name,
            information: VariableInformationView { variable_type, data_type_name, qualifier },
            generated_reference: None,
        }
    }

    /// The entry with `generated_reference` attached.
    pub open spec fn associated(self, generated_reference: ReferenceHandle) -> Self {
        VariableEntryView { generated_reference: Some(generated_reference), ..self }
    }
}

impl DataTypeEntryView {
    /// The entry of a type as registration makes it: nothing generated is
    /// attached yet.
    pub open spec fn declared(name: Seq<char>) -> Self {
        DataTypeEntryView { name, implementation: None, generated_type: None }
    }

    /// The entry with `generated_type` attached.
    pub open spec fn with_type(self, generated_type: TypeHandle) -> Self {
        DataTypeEntryView { generated_type: Some(generated_type), ..self }
    }

    /// The entry with `implementation` attached.
    pub open spec fn with_implementation(self, implementation: ImplementationHandle) -> Self {
        DataTypeEntryView { implementation: Some(implementation), ..self }
    }
}

/// The index: global variables by name, local variables by unit and name,
/// and types by name.
pub struct IndexView {
    pub global_variables: Map<Seq<char>, VariableEntryView>,
    pub local_variables: Map<Seq<char>, Map<Seq<char>, VariableEntryView>>,
    pub types: Map<Seq<char>, DataTypeEntryView>,
}

impl IndexView {
    /// The index before anything is registered: it knows the built-in
    /// scalar types, and nothing else.
    pub open spec fn initial() -> Self {
        IndexView {
            global_variables: Map::empty(),
            local_variables: Map::empty(),
            types: Map::empty().insert("Int"@, DataTypeEntryView::declared("Int"@)).insert(
                "Bool"@,
                DataTypeEntryView::declared("Bool"@),
            ),
        }
    }

    /// The global variable of the given name.
    pub open spec fn find_global_variable(self, name: Seq<char>) -> Option<VariableEntryView> {
        if self.global_variables.contains_key(name) {
            Some(self.global_variables[name])
        } else {
            None
        }
    }

    /// The variable of the given name that is local to `unit`.
    pub open spec fn find_member(self, unit: Seq<char>, name: Seq<char>) -> Option<
        VariableEntryView,
    > {
        scoped_get(self.local_variables, unit, name)
    }

    /// The variable that `name` means in `context`: the one local to that
    /// unit, and the global one where the unit has none of that name or no
    /// unit is given.
    pub open spec fn find_variable(self, context: Option<Seq<char>>, name: Seq<char>) -> Option<
        VariableEntryView,
    > {
        match context {
            Some(unit) => match self.find_member(unit, name) {
                Some(entry) => Some(entry),
                None => self.find_global_variable(name),
            },
            None => self.find_global_variable(name),
        }
    }

    /// The type of the given name.
    pub open spec fn find_type(self, name: Seq<char>) -> Option<DataTypeEntryView> {
        if self.types.contains_key(name) {
            Some(self.types[name])
        } else {
            None
        }
    }

    /// Whether the type of the given name is callable: it is registered and
    /// an implementation is attached to it.
    pub open spec fn is_callable(self, data_type_name: Seq<char>) -> bool {
        self.types.contains_key(data_type_name) && self.types[data_type_name].implementation is Some
    }

    /// The variable that `name` means in `context`, if its type is
    /// callable.
    pub open spec fn find_callable_instance_variable(
        self,
        context: Option<Seq<char>>,
        name: Seq<char>,
    ) -> Option<VariableEntryView> {
        match self.find_variable(context, name) {
            Some(entry) => if self.is_callable(entry.information.data_type_name) {
                Some(entry)
            } else {
                None
            },
            None => None,
        }
    }

    /// The index with a global variable registered, in place of any of
    /// that name.
    pub open spec fn register_global_variable(self, name: Seq<char>, data_type_name: Seq<char>) -> Self {
        IndexView {
            global_variables: self.global_variables.insert(
                name,
                VariableEntryView::declared(name, VariableType::Global, data_type_name, None),
            ),
            ..self
        }
    }

    /// The index with a variable registered that is local to `unit`, in
    /// place of any of that name in that unit.
    pub open spec fn register_local_variable(
        self,
        unit: Seq<char>,
        name: Seq<char>,
        variable_type: VariableType,
        data_type_name: Seq<char>,
    ) -> Self {
        IndexView {
            local_variables: scoped_insert(
                self.local_variables,
                unit,
                name,
                VariableEntryView::declared(name, variable_type, data_type_name, Some(unit)),
            ),
            ..self
        }
    }

    /// The index with a type registered, in place of any of that name.
    pub open spec fn register_type(self, name: Seq<char>) -> Self {
        IndexView { types: self.types.insert(name, DataTypeEntryView::declared(name)), ..self }
    }

    /// The index with `value` attached to the global variable `name`; the
    /// index as it is where no such variable is registered.
    pub open spec fn associate_global_variable(self, name: Seq<char>, value: ReferenceHandle) -> Self {
        if self.global_variables.contains_key(name) {
            IndexView {
                global_variables: self.global_variables.insert(
                    name,
                    self.global_variables[name].associated(value),
                ),
                ..self
            }
        } else {
            self
        }
    }

    /// The index with `value` attached to the variable `name` of `unit`;
    /// the index as it is where no such variable is registered.
    pub open spec fn associate_local_variable(
        self,
        unit: Seq<char>,
        name: Seq<char>,
        value: ReferenceHandle,
    ) -> Self {
        match self.find_member(unit, name) {
            Some(entry) => IndexView {
                local_variables: scoped_insert(
                    self.local_variables,
                    unit,
                    name,
                    entry.associated(value),
                ),
                ..self
            },
            None => self,
        }
    }

    /// The index with `value` attached to the type `name` as its
    /// representation; the index as it is where no such type is registered.
    pub open spec fn associate_type(self, name: Seq<char>, value: TypeHandle) -> Self {
        if self.types.contains_key(name) {
            IndexView { types: self.types.insert(name, self.types[name].with_type(value)), ..self }
        } else {
            self
        }
    }

    /// The index with `value` attached to the type `name` as its
    /// implementation; the index as it is where no such type is registered.
    pub open spec fn associate_callable_implementation(
        self,
        name: Seq<char>,
        value: ImplementationHandle,
    ) -> Self {
        if self.types.contains_key(name) {
            IndexView {
                types: self.types.insert(name, self.types[name].with_implementation(value)),
                ..self
            }
        } else {
            self
        }
    }
}

} // verus!
