//! What holds of the index whatever is registered in it, proved of the
//! operations as specifications see them.

use vstd::prelude::*;
use crate::artifacts::{ImplementationHandle, ReferenceHandle, TypeHandle};
use crate::index::model::{IndexView, VariableEntryView};
use crate::index::VariableType;

verus! {

/// A global variable is found under its name once it is registered: with
/// the role `Global`, the type it was declared with, no owning unit, and
/// nothing generated attached yet.
pub proof fn lemma_registered_global_is_found(
    index: IndexView,
    name: Seq<char>,
    data_type_name: Seq<char>,
)
    ensures
        index.register_global_variable(name, data_type_name).find_global_variable(name) == Some(
            VariableEntryView::declared(name, VariableType::Global, data_type_name, None),
        ),
{
}

/// A local variable is found in its unit once it is registered: with the
/// role and type it was declared with, that unit as its owner, and nothing
/// generated attached yet.
pub proof fn lemma_registered_local_is_found(
    index: IndexView,
    unit: Seq<char>,
    name: Seq<char>,
    variable_type: VariableType,
    data_type_name: Seq<char>,
)
    ensures
        index.register_local_variable(unit, name, variable_type, data_type_name).find_member(
            unit,
            name,
        ) == Some(
            VariableEntryView::declared(name, variable_type, data_type_name, Some(unit)),
        ),
{
}

/// A registration reaches one entry of one scope. A global variable is
/// registered among the global variables, a local one in the scope of its
/// unit, a type among the types; every other lookup finds what it found
/// before.
pub proof fn lemma_registration_reaches_one_entry(
    index: IndexView,
    unit: Seq<char>,
    name: Seq<char>,
    variable_type: VariableType,
    data_type_name: Seq<char>,
    other_unit: Seq<char>,
    other: Seq<char>,
)
    ensures
        ({
            let after = index.register_global_variable(name, data_type_name);
            &&& other != name ==> after.find_global_variable(other) == index.find_global_variable(
                other,
            )
            &&& after.find_member(other_unit, other) == index.find_member(other_unit, other)
            &&& after.find_type(other) == index.find_type(other)
        }),
        ({
            let after = index.register_local_variable(unit, name, variable_type, data_type_name);
            &&& other_unit != unit || other != name ==> after.find_member(other_unit, other)
                == index.find_member(other_unit, other)
            &&& after.find_global_variable(other) == index.find_global_variable(other)
            &&& after.find_type(other) == index.find_type(other)
        }),
        ({
            let after = index.register_type(name);
            &&& other != name ==> after.find_type(other) == index.find_type(other)
            &&& after.find_global_variable(other) == index.find_global_variable(other)
            &&& after.find_member(other_unit, other) == index.find_member(other_unit, other)
        }),
{
}

/// An association reaches one entry of one scope, as a registration does:
/// every lookup of another entry finds what it found before.
pub proof fn lemma_association_reaches_one_entry(
    index: IndexView,
    unit: Seq<char>,
    name: Seq<char>,
    reference: ReferenceHandle,
    representation: TypeHandle,
    implementation: ImplementationHandle,
    other_unit: Seq<char>,
    other: Seq<char>,
)
    ensures
        ({
            let after = index.associate_global_variable(name, reference);
            &&& other != name ==> after.find_global_variable(other) == index.find_global_variable(
                other,
            )
            &&& after.find_member(other_unit, other) == index.find_member(other_unit, other)
            &&& after.find_type(other) == index.find_type(other)
        }),
        ({
            let after = index.associate_local_variable(unit, name, reference);
            &&& other_unit != unit || other != name ==> after.find_member(other_unit, other)
                == index.find_member(other_unit, other)
            &&& after.find_global_variable(other) == index.find_global_variable(other)
            &&& after.find_type(other) == index.find_type(other)
        }),
        ({
            let after = index.associate_type(name, representation);
            &&& other != name ==> after.find_type(other) == index.find_type(other)
            &&& after.find_global_variable(other) == index.find_global_variable(other)
            &&& after.find_member(other_unit, other) == index.find_member(other_unit, other)
        }),
        ({
            let after = index.associate_callable_implementation(name, implementation);
            &&& other != name ==> after.find_type(other) == index.find_type(other)
            &&& after.find_global_variable(other) == index.find_global_variable(other)
            &&& after.find_member(other_unit, other) == index.find_member(other_unit, other)
        }),
{
}

/// Variables of one name in two units do not collide: after both are
/// registered, each unit finds its own, and the two entries differ.
pub proof fn lemma_units_do_not_collide(
    index: IndexView,
    first_unit: Seq<char>,
    second_unit: Seq<char>,
    name: Seq<char>,
    variable_type: VariableType,
    data_type_name: Seq<char>,
)
    requires
        first_unit != second_unit,
    ensures
        ({
            let both = index.register_local_variable(
                first_unit,
                name,
                variable_type,
                data_type_name,
            ).register_local_variable(second_unit, name, variable_type, data_type_name);
            &&& both.find_member(first_unit, name) == Some(
                VariableEntryView::declared(
                    name,
                    variable_type,
                    data_type_name,
                    Some(first_unit),
                ),
            )
            &&& both.find_member(second_unit, name) == Some(
                VariableEntryView::declared(
                    name,
                    variable_type,
                    data_type_name,
                    Some(second_unit),
                ),
            )
            &&& both.find_member(first_unit, name) != both.find_member(second_unit, name)
        }),
{
}

/// Within a unit the local variable takes precedence: where the unit has a
/// variable of that name, a lookup in its context finds that one, whether
/// or not a global variable of the same name exists.
pub proof fn lemma_local_takes_precedence(
    index: IndexView,
    unit: Seq<char>,
    name: Seq<char>,
)
    requires
        index.find_member(unit, name) is Some,
    ensures
        index.find_variable(Some(unit), name) == index.find_member(unit, name),
{
}

/// Where the unit has no variable of that name, or no unit is given, a
/// lookup finds the global variable, if there is one. The variables of
/// other units play no part.
pub proof fn lemma_global_is_the_fallback(
    index: IndexView,
    unit: Seq<char>,
    name: Seq<char>,
)
    ensures
        index.find_member(unit, name) is None ==> index.find_variable(Some(unit), name)
            == index.find_global_variable(name),
        index.find_variable(None, name) == index.find_global_variable(name),
{
}

/// A variable is found as a callable instance exactly when it is found
/// as a variable and an implementation is attached to the type it was
/// declared with. Until then the lookup of a callable instance finds
/// nothing, whether the type is registered or not.
pub proof fn lemma_callable_needs_implementation(
    index: IndexView,
    context: Option<Seq<char>>,
    name: Seq<char>,
)
    ensures
        index.find_callable_instance_variable(context, name) is Some <==> {
            &&& index.find_variable(context, name) is Some
            &&& index.is_callable(index.find_variable(context, name)->0.information.data_type_name)
        },
        index.find_callable_instance_variable(context, name) is Some
            ==> index.find_callable_instance_variable(context, name) == index.find_variable(
            context,
            name,
        ),
        index.find_variable(context, name) is Some ==> (index.is_callable(
            index.find_variable(context, name)->0.information.data_type_name,
        ) <==> {
            let declared_type = index.find_type(
                index.find_variable(context, name)->0.information.data_type_name,
            );
            declared_type is Some && declared_type->0.implementation is Some
        }),
{
}

/// Once an implementation is attached to the type that a variable was
/// declared with, the lookup of a callable instance finds the variable, as
/// the lookup of a variable found it before.
pub proof fn lemma_callable_once_implemented(
    index: IndexView,
    context: Option<Seq<char>>,
    name: Seq<char>,
    implementation: ImplementationHandle,
)
    requires
        index.find_variable(context, name) is Some,
        index.find_type(index.find_variable(context, name)->0.information.data_type_name) is Some,
    ensures
        index.associate_callable_implementation(
            index.find_variable(context, name)->0.information.data_type_name,
            implementation,
        ).find_callable_instance_variable(context, name) == index.find_variable(context, name),
{
}

/// An association to a name that is not registered changes nothing, for
/// each of the four kinds of association.
pub proof fn lemma_association_needs_registration(
    index: IndexView,
    unit: Seq<char>,
    name: Seq<char>,
    reference: ReferenceHandle,
    representation: TypeHandle,
    implementation: ImplementationHandle,
)
    ensures
        index.find_global_variable(name) is None ==> index.associate_global_variable(
            name,
            reference,
        ) == index,
        index.find_member(unit, name) is None ==> index.associate_local_variable(
            unit,
            name,
            reference,
        ) == index,
        index.find_type(name) is None ==> index.associate_type(name, representation) == index,
        index.find_type(name) is None ==> index.associate_callable_implementation(
            name,
            implementation,
        ) == index,
{
}

/// An association attaches the handle to the entry it names, in place of
/// the one that was attached, and changes nothing else of that entry.
pub proof fn lemma_association_attaches(
    index: IndexView,
    unit: Seq<char>,
    name: Seq<char>,
    reference: ReferenceHandle,
    representation: TypeHandle,
    implementation: ImplementationHandle,
)
    ensures
        index.find_type(name) is Some ==> index.associate_type(name, representation).find_type(
            name,
        ) == Some(index.find_type(name)->0.with_type(representation)),
        index.find_type(name) is Some ==> index.associate_callable_implementation(
            name,
            implementation,
        ).find_type(name) == Some(index.find_type(name)->0.with_implementation(implementation)),
        index.find_global_variable(name) is Some ==> index.associate_global_variable(
            name,
            reference,
        ).find_global_variable(name) == Some(
            index.find_global_variable(name)->0.associated(reference),
        ),
        index.find_member(unit, name) is Some ==> index.associate_local_variable(
            unit,
            name,
            reference,
        ).find_member(unit, name) == Some(index.find_member(unit, name)->0.associated(reference)),
{
}

/// Nothing is ever removed: a name that is registered stays registered
/// through every registration and association.
pub proof fn lemma_nothing_is_removed(
    index: IndexView,
    unit: Seq<char>,
    name: Seq<char>,
    variable_type: VariableType,
    data_type_name: Seq<char>,
    reference: ReferenceHandle,
    representation: TypeHandle,
    implementation: ImplementationHandle,
    known_unit: Seq<char>,
    known: Seq<char>,
)
    ensures
        ({
            let kept = |after: IndexView|
                {
                    &&& index.find_global_variable(known) is Some
                        ==> after.find_global_variable(known) is Some
                    &&& index.find_member(known_unit, known) is Some ==> after.find_member(
                        known_unit,
                        known,
                    ) is Some
                    &&& index.find_type(known) is Some ==> after.find_type(known) is Some
                };
            &&& kept(index.register_global_variable(name, data_type_name))
            &&& kept(index.register_local_variable(unit, name, variable_type, data_type_name))
            &&& kept(index.register_type(name))
            &&& kept(index.associate_global_variable(name, reference))
            &&& kept(index.associate_local_variable(unit, name, reference))
            &&& kept(index.associate_type(name, representation))
            &&& kept(index.associate_callable_implementation(name, implementation))
        }),
{
}

/// A new index knows the types `Int` and `Bool`, with nothing generated
/// attached to either, and no variable.
pub proof fn lemma_initial_index(name: Seq<char>, unit: Seq<char>)
    ensures
        IndexView::initial().find_type("Int"@) is Some,
        IndexView::initial().find_type("Bool"@) is Some,
        IndexView::initial().find_type("Int"@)->0.implementation is None,
        IndexView::initial().find_type("Int"@)->0.generated_type is None,
        IndexView::initial().find_type("Bool"@)->0.implementation is None,
        IndexView::initial().find_type("Bool"@)->0.generated_type is None,
        IndexView::initial().find_variable(Some(unit), name) is None,
        IndexView::initial().find_variable(None, name) is None,
{
    reveal_strlit("Int");
    reveal_strlit("Bool");
    assert("Int"@ != "Bool"@) by {
        assert("Int"@.len() == 3);
        assert("Bool"@.len() == 4);
    }
}

} // verus!
