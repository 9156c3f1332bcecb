//! The global index: every variable and type that can be referred to, and
//! for each the handles of what code generation has made of it so far.

use vstd::prelude::*;
use vstd::hash_map::StringHashMap;
use crate::artifacts::{ImplementationHandle, ReferenceHandle, TypeHandle};
use crate::index::model::{
    DataTypeEntryView, IndexView, VariableEntryView, VariableInformationView,
};
use crate::index::scopes::ScopedMap;

pub mod laws;
pub mod model;
pub mod scopes;

verus! {

/// The role in which a variable was declared.
#[derive(Copy, Clone, Debug, PartialEq, Eq, Structural)]
pub enum VariableType {
    Local,
    Input,
    Output,
    InOut,
    Global,
    Return,
}

/// What a declaration says of a variable.
#[derive(Debug)]
pub struct VariableInformation {
    /// the role of the variable
    variable_type: VariableType,
    /// the name of the variable's type
    data_type_name: String,
    /// the unit that the variable is local to
    qualifier: Option<String>,
}

impl View for VariableInformation {
    type V = VariableInformationView;

    closed spec fn view(&self) -> VariableInformationView {
        VariableInformationView {
            variable_type: self.variable_type,
            data_type_name: self.data_type_name@,
            qualifier: match self.qualifier {
                Some(unit) => Some(unit@),
                None => None,
            },
        }
    }
}

impl VariableInformation {
    fn duplicate(&self) -> (copy: VariableInformation)
        ensures
            copy@ == self@,
    {
        VariableInformation {
            variable_type: self.variable_type,
            data_type_name: self.data_type_name.clone(),
            qualifier: match &self.qualifier {
                Some(unit) => Some(unit.clone()),
                None => None,
            },
        }
    }
}

/// The kinds of type.
#[derive(Copy, Clone, Debug, PartialEq, Eq, Structural)]
pub enum DataTypeType {
    /// a built-in type
    Scalar,
    /// a structure
    Struct,
    /// the type of the instances of a function block
    FunctionBlock,
    /// another name for a type
    AliasType,
}

/// What a declaration says of a type.
#[derive(Debug)]
pub struct DataTypeInformation {
    /// what kind of type this is
    kind: DataTypeType,
}

impl DataTypeInformation {
    /// The information that a type is of the given kind.
    pub fn new(kind: DataTypeType) -> (information: DataTypeInformation)
        ensures
            information.kind() == kind,
    {
        DataTypeInformation { kind }
    }

    /// The kind of the type.
    pub closed spec fn kind(&self) -> DataTypeType {
        self.kind
    }

    /// The kind of the type.
    pub fn get_kind(&self) -> (kind: DataTypeType)
        ensures
            kind == self.kind(),
    {
        self.kind
    }
}

/// A variable in the index.
#[derive(Debug)]
pub struct VariableIndexEntry {
    name: String,
    information: VariableInformation,
    generated_reference: Option<ReferenceHandle>,
}

impl View for VariableIndexEntry {
    type V = VariableEntryView;

    closed spec fn view(&self) -> VariableEntryView {
        VariableEntryView {
            name: self.name@,
            information: self.information@,
            generated_reference: self.generated_reference,
        }
    }
}

impl VariableIndexEntry {
    /// The entry of a variable as it is declared: in the given role, with
    /// the type of the given name, local to the unit `qualifier` if there is
    /// one, and with nothing generated attached yet.
    pub fn new(
        name: String,
        variable_type: VariableType,
        data_type_name: String,
        qualifier: Option<String>,
    ) -> (entry: VariableIndexEntry)
        ensures
            entry@ == VariableEntryView::declared(
                name@,
                variable_type,
                data_type_name@,
                match qualifier {
                    Some(unit) => Some(unit@),
                    None => None,
                },
            ),
    {
        VariableIndexEntry {
            name,
            information: VariableInformation { variable_type, data_type_name, qualifier },
            generated_reference: None,
        }
    }

    /// Attaches the handle of the storage that was generated for the
    /// variable, in place of what was attached before.
    pub fn associate(&mut self, generated_reference: ReferenceHandle)
        ensures
            final(self)@ == old(self)@.associated(generated_reference),
    {
        self.generated_reference = Some(generated_reference);
    }

    /// The name of the variable.
    pub fn get_name(&self) -> (name: &str)
        ensures
            name@ == self@.name,
    {
        self.name.as_str()
    }

    /// The role in which the variable was declared.
    pub fn get_variable_type(&self) -> (variable_type: VariableType)
        ensures
            variable_type == self@.information.variable_type,
    {
        self.information.variable_type
    }

    /// The name of the variable's type.
    pub fn get_type_name(&self) -> (data_type_name: &str)
        ensures
            data_type_name@ == self@.information.data_type_name,
    {
        self.information.data_type_name.as_str()
    }

    /// The unit that the variable is local to; none for a global variable.
    pub fn get_qualifier(&self) -> (qualifier: Option<&str>)
        ensures
            match qualifier {
                Some(unit) => self@.information.qualifier == Some(unit@),
                None => self@.information.qualifier is None,
            },
    {
        match &self.information.qualifier {
            Some(unit) => Some(unit.as_str()),
            None => None,
        }
    }

    /// The handle of the storage that was generated for the variable, if
    /// one was attached.
    pub fn get_generated_reference(&self) -> (generated_reference: Option<ReferenceHandle>)
        ensures
            generated_reference == self@.generated_reference,
    {
        self.generated_reference
    }

    fn with_reference(&self, generated_reference: ReferenceHandle) -> (entry: VariableIndexEntry)
        ensures
            entry@ == self@.associated(generated_reference),
    {
        VariableIndexEntry {
            name: self.name.clone(),
            information: self.information.duplicate(),
            generated_reference: Some(generated_reference),
        }
    }
}

/// A type in the index.
#[derive(Debug)]
pub struct DataTypeIndexEntry {
    name: String,
    /// the function to call if the type is callable
    implementation: Option<ImplementationHandle>,
    /// the representation of the type
    generated_type: Option<TypeHandle>,
}

impl View for DataTypeIndexEntry {
    type V = DataTypeEntryView;

    closed spec fn view(&self) -> DataTypeEntryView {
        DataTypeEntryView {
            name: self.name@,
            implementation: self.implementation,
            generated_type: self.generated_type,
        }
    }
}

impl DataTypeIndexEntry {
    /// The entry of a type as it is declared: with nothing generated
    /// attached yet.
    pub fn new(name: String) -> (entry: DataTypeIndexEntry)
        ensures
            entry@ == DataTypeEntryView::declared(name@),
    {
        DataTypeIndexEntry { name, implementation: None, generated_type: None }
    }

    /// Attaches the handle of the representation that was generated for
    /// the type, in place of what was attached before.
    pub fn associate_type(&mut self, generated_type: TypeHandle)
        ensures
            final(self)@ == old(self)@.with_type(generated_type),
    {
        self.generated_type = Some(generated_type);
    }

    /// Attaches the handle of the function that was generated for the
    /// type, which makes the type callable, in place of what was attached
    /// before.
    pub fn associate_implementation(&mut self, implementation: ImplementationHandle)
        ensures
            final(self)@ == old(self)@.with_implementation(implementation),
    {
        self.implementation = Some(implementation);
    }

    /// The name of the type.
    pub fn get_name(&self) -> (name: &str)
        ensures
            name@ == self@.name,
    {
        self.name.as_str()
    }

    /// The handle of the representation that was generated for the type,
    /// if one was attached.
    pub fn get_type(&self) -> (generated_type: Option<TypeHandle>)
        ensures
            generated_type == self@.generated_type,
    {
        self.generated_type
    }

    /// The handle of the function that was generated for the type, if one
    /// was attached.
    pub fn get_implementation(&self) -> (implementation: Option<ImplementationHandle>)
        ensures
            implementation == self@.implementation,
    {
        self.implementation
    }

    fn changed(
        &self,
        implementation: Option<ImplementationHandle>,
        generated_type: Option<TypeHandle>,
    ) -> (entry: DataTypeIndexEntry)
        ensures
            entry@ == (DataTypeEntryView { name: self@.name, implementation, generated_type }),
    {
        DataTypeIndexEntry { name: self.name.clone(), implementation, generated_type }
    }
}

/// The variable that a lookup found, as specifications see it.
pub open spec fn found_variable(entry: Option<&VariableIndexEntry>) -> Option<VariableEntryView> {
    match entry {
        Some(entry) => Some(entry@),
        None => None,
    }
}

/// The type that a lookup found, as specifications see it.
pub open spec fn found_type(entry: Option<&DataTypeIndexEntry>) -> Option<DataTypeEntryView> {
    match entry {
        Some(entry) => Some(entry@),
        None => None,
    }
}

/// The global index. It holds every variable and type that can be referred
/// to, and for each the handles that code generation has attached to it.
pub struct Index {
    /// all global variables
    global_variables: StringHashMap<VariableIndexEntry>,
    /// all local variables, each in the scope of its unit
    local_variables: ScopedMap<VariableIndexEntry>,
    /// all types
    types: StringHashMap<DataTypeIndexEntry>,
}

impl View for Index {
    type V = IndexView;

    closed spec fn view(&self) -> IndexView {
        IndexView {
            global_variables: self.global_variables@.map_values(
                |entry: VariableIndexEntry| entry@,
            ),
            local_variables: self.local_variables@.map_values(
                |scope: Map<Seq<char>, VariableIndexEntry>|
                    scope.map_values(|entry: VariableIndexEntry| entry@),
            ),
            types: self.types@.map_values(|entry: DataTypeIndexEntry| entry@),
        }
    }
}

impl Index {
    /// An index that knows the built-in scalar types `Int` and `Bool`, and
    /// nothing else.
    pub fn new() -> (index: Index)
        ensures
            index@ == IndexView::initial(),
    {
        let mut index = Index {
            global_variables: StringHashMap::new(),
            local_variables: ScopedMap::new(),
            types: StringHashMap::new(),
        };
        index.types.insert("Int".to_owned(), DataTypeIndexEntry::new("Int".to_owned()));
        index.types.insert("Bool".to_owned(), DataTypeIndexEntry::new("Bool".to_owned()));
        assert(index@.global_variables =~= IndexView::initial().global_variables);
        assert(index@.local_variables =~= IndexView::initial().local_variables);
        assert(index@.types =~= IndexView::initial().types);
        index
    }

    /// Looks up the global variable of the given name.
    pub fn find_global_variable(&self, name: &str) -> (entry: Option<&VariableIndexEntry>)
        ensures
            found_variable(entry) == self@.find_global_variable(name@),
    {
        self.global_variables.get(name)
    }

    /// Looks up the variable of the given name that is local to the unit
    /// `pou_name`.
    pub fn find_member(&self, pou_name: &str, variable_name: &str) -> (entry: Option<
        &VariableIndexEntry,
    >)
        ensures
            found_variable(entry) == self@.find_member(pou_name@, variable_name@),
    {
        self.local_variables.get(pou_name, variable_name)
    }

    /// Looks up what `variable_name` means in `context`: the variable local
    /// to that unit, and the global one where the unit has none of that name
    /// or no unit is given.
    pub fn find_variable(&self, context: Option<&str>, variable_name: &str) -> (entry: Option<
        &VariableIndexEntry,
    >)
        ensures
            found_variable(entry) == self@.find_variable(context_view(context), variable_name@),
    {
        match context {
            Some(context) => match self.find_member(context, variable_name) {
                Some(entry) => Some(entry),
                None => self.find_global_variable(variable_name),
            },
            None => self.find_global_variable(variable_name),
        }
    }

    /// Looks up the type of the given name.
    pub fn find_type(&self, data_type_name: &str) -> (entry: Option<&DataTypeIndexEntry>)
        ensures
            found_type(entry) == self@.find_type(data_type_name@),
    {
        self.types.get(data_type_name)
    }

    /// Looks up what `reference` means in `context`, and gives the variable
    /// only if it can be called: an implementation is attached to the type
    /// it was declared with.
    pub fn find_callable_instance_variable(&self, context: Option<&str>, reference: &str) -> (entry:
        Option<&VariableIndexEntry>)
        ensures
            found_variable(entry) == self@.find_callable_instance_variable(
                context_view(context),
                reference@,
            ),
    {
        match self.find_variable(context, reference) {
            Some(variable) => {
                let callable = match self.find_type(variable.get_type_name()) {
                    Some(data_type) => data_type.get_implementation().is_some(),
                    None => false,
                };
                if callable {
                    Some(variable)
                } else {
                    None
                }
            },
            None => None,
        }
    }

    /// Registers a variable that is local to the unit `pou_name`, in place
    /// of any of that name in that unit. Nothing generated is attached to
    /// it yet.
    pub fn register_local_variable(
        &mut self,
        pou_name: String,
        variable_name: String,
        variable_type: VariableType,
        data_type_name: String,
    )
        ensures
            final(self)@ == old(self)@.register_local_variable(
                pou_name@,
                variable_name@,
                variable_type,
                data_type_name@,
            ),
    {
        let entry = VariableIndexEntry::new(
            variable_name.clone(),
            variable_type,
            data_type_name,
            Some(pou_name.clone()),
        );
        self.local_variables.insert(pou_name, variable_name, entry);
        assert(self@.local_variables =~~= old(self)@.register_local_variable(
            pou_name@,
            variable_name@,
            variable_type,
            data_type_name@,
        ).local_variables);
    }

    /// Attaches `value` to the variable `variable_name` of the unit
    /// `pou_name`, and says whether there was such a variable. Where there
    /// is none, the index stays as it is.
    pub fn associate_local_variable(
        &mut self,
        pou_name: &str,
        variable_name: &str,
        value: ReferenceHandle,
    ) -> (applied: bool)
        ensures
            applied == (old(self)@.find_member(pou_name@, variable_name@) is Some),
            final(self)@ == old(self)@.associate_local_variable(pou_name@, variable_name@, value),
    {
        let entry = match self.local_variables.get(pou_name, variable_name) {
            Some(entry) => entry.with_reference(value),
            None => {
                return false;
            },
        };
        self.local_variables.insert(pou_name.to_owned(), variable_name.to_owned(), entry);
        assert(self@.local_variables =~~= old(self)@.associate_local_variable(
            pou_name@,
            variable_name@,
            value,
        ).local_variables);
        true
    }

    /// Registers a global variable, in place of any of that name. Nothing
    /// generated is attached to it yet.
    pub fn register_global_variable(&mut self, name: String, data_type_name: String)
        ensures
            final(self)@ == old(self)@.register_global_variable(name@, data_type_name@),
    {
        let entry = VariableIndexEntry::new(
            name.clone(),
            VariableType::Global,
            data_type_name,
            None,
        );
        self.global_variables.insert(name, entry);
        assert(self@.global_variables =~= old(self)@.register_global_variable(
            name@,
            data_type_name@,
        ).global_variables);
    }

    /// Attaches `value` to the global variable `name`, and says whether
    /// there was such a variable. Where there is none, the index stays as it
    /// is.
    pub fn associate_global_variable(&mut self, name: &str, value: ReferenceHandle) -> (applied:
        bool)
        ensures
            applied == (old(self)@.find_global_variable(name@) is Some),
            final(self)@ == old(self)@.associate_global_variable(name@, value),
    {
        let entry = match self.global_variables.get(name) {
            Some(entry) => entry.with_reference(value),
            None => {
                return false;
            },
        };
        self.global_variables.insert(name.to_owned(), entry);
        assert(self@.global_variables =~= old(self)@.associate_global_variable(
            name@,
            value,
        ).global_variables);
        true
    }

    /// Attaches `value` to the type `name` as its implementation, which
    /// makes the type callable, and says whether there was such a type.
    /// Where there is none, the index stays as it is.
    pub fn associate_callable_implementation(&mut self, name: &str, value: ImplementationHandle) -> (applied:
        bool)
        ensures
            applied == (old(self)@.find_type(name@) is Some),
            final(self)@ == old(self)@.associate_callable_implementation(name@, value),
    {
        let entry = match self.types.get(name) {
            Some(entry) => entry.changed(Some(value), entry.get_type()),
            None => {
                return false;
            },
        };
        self.types.insert(name.to_owned(), entry);
        assert(self@.types =~= old(self)@.associate_callable_implementation(name@, value).types);
        true
    }

    /// Attaches `value` to the type `name` as its representation, and says
    /// whether there was such a type. Where there is none, the index stays
    /// as it is.
    pub fn associate_type(&mut self, name: &str, value: TypeHandle) -> (applied: bool)
        ensures
            applied == (old(self)@.find_type(name@) is Some),
            final(self)@ == old(self)@.associate_type(name@, value),
    {
        let entry = match self.types.get(name) {
            Some(entry) => entry.changed(entry.get_implementation(), Some(value)),
            None => {
                return false;
            },
        };
        self.types.insert(name.to_owned(), entry);
        assert(self@.types =~= old(self)@.associate_type(name@, value).types);
        true
    }

    /// Registers a type, in place of any of that name. Nothing generated is
    /// attached to it yet.
    pub fn register_type(&mut self, data_type_name: String)
        ensures
            final(self)@ == old(self)@.register_type(data_type_name@),
    {
        let index_entry = DataTypeIndexEntry::new(data_type_name.clone());
        self.types.insert(data_type_name, index_entry);
        assert(self@.types =~= old(self)@.register_type(data_type_name@).types);
    }
}

/// The unit that a lookup is made in, as specifications see it.
pub open spec fn context_view(context: Option<&str>) -> Option<Seq<char>> {
    match context {
        Some(unit) => Some(unit@),
        None => None,
    }
}

} // verus!
