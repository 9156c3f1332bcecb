use inkwell::builder::Builder;
use inkwell::context::Context;
use inkwell::module::Module;
use inkwell::types::BasicTypeEnum;
use inkwell::values::{FunctionValue, PointerValue};
use rusty::artifacts::Artifacts;
use rusty::index::scopes::ScopedMap;
use rusty::index::{
    DataTypeIndexEntry, DataTypeInformation, DataTypeType, Index, VariableIndexEntry, VariableType,
};

/// A function with an entry block, in which storage can be allocated.
fn function<'ctx>(
    context: &'ctx Context,
    module: &Module<'ctx>,
    builder: &Builder<'ctx>,
    name: &str,
) -> FunctionValue<'ctx> {
    let function = module.add_function(name, context.void_type().fn_type(&[], false), None);
    builder.position_at_end(context.append_basic_block(function, "entry"));
    function
}

fn storage<'ctx>(context: &'ctx Context, builder: &Builder<'ctx>, name: &str) -> PointerValue<'ctx> {
    builder.build_alloca(context.i32_type(), name).unwrap()
}

#[test]
fn a_new_index_knows_the_scalar_types() {
    let index = Index::new();
    for name in ["Int", "Bool"] {
        let entry = index.find_type(name).unwrap();
        assert_eq!(entry.get_name(), name);
        assert!(entry.get_type().is_none());
        assert!(entry.get_implementation().is_none());
    }
    assert!(index.find_type("Real").is_none());
    assert!(index.find_type("int").is_none());
    assert!(index.find_global_variable("Int").is_none());
    assert!(index.find_member("Int", "Bool").is_none());
}

#[test]
fn a_registered_global_is_found() {
    let mut index = Index::new();
    index.register_global_variable("X".to_string(), "Int".to_string());
    let entry = index.find_global_variable("X").unwrap();
    assert_eq!(entry.get_name(), "X");
    assert_eq!(entry.get_variable_type(), VariableType::Global);
    assert_eq!(entry.get_type_name(), "Int");
    assert_eq!(entry.get_qualifier(), None);
    assert!(entry.get_generated_reference().is_none());
    assert!(index.find_global_variable("Y").is_none());
    assert!(index.find_global_variable("x").is_none());
}

#[test]
fn a_global_registered_again_is_replaced() {
    let context = Context::create();
    let module = context.create_module("main");
    let builder = context.create_builder();
    function(&context, &module, &builder, "body");
    let mut artifacts = Artifacts::new();
    let handle = artifacts.add_reference(storage(&context, &builder, "x"));
    let mut index = Index::new();
    index.register_global_variable("X".to_string(), "Int".to_string());
    assert!(index.associate_global_variable("X", handle));
    index.register_global_variable("X".to_string(), "Bool".to_string());
    let entry = index.find_global_variable("X").unwrap();
    assert_eq!(entry.get_type_name(), "Bool");
    assert!(entry.get_generated_reference().is_none());
}

#[test]
fn units_have_scopes_of_their_own() {
    let mut index = Index::new();
    index.register_local_variable(
        "U1".to_string(),
        "V".to_string(),
        VariableType::Local,
        "Bool".to_string(),
    );
    index.register_local_variable(
        "U2".to_string(),
        "V".to_string(),
        VariableType::Local,
        "Bool".to_string(),
    );
    let first = index.find_member("U1", "V").unwrap();
    let second = index.find_member("U2", "V").unwrap();
    assert_eq!(first.get_name(), "V");
    assert_eq!(second.get_name(), "V");
    assert_eq!(first.get_qualifier(), Some("U1"));
    assert_eq!(second.get_qualifier(), Some("U2"));
    assert_eq!(first.get_variable_type(), VariableType::Local);
    assert_eq!(first.get_type_name(), "Bool");
    assert!(!std::ptr::eq(first, second));
    assert!(index.find_member("U3", "V").is_none());
    assert!(index.find_member("U1", "W").is_none());
    assert!(index.find_member("V", "U1").is_none());
    assert!(index.find_global_variable("V").is_none());
}

#[test]
fn an_association_in_one_unit_leaves_the_other() {
    let context = Context::create();
    let module = context.create_module("main");
    let builder = context.create_builder();
    function(&context, &module, &builder, "body");
    let pointer = storage(&context, &builder, "v");
    let mut artifacts = Artifacts::new();
    let handle = artifacts.add_reference(pointer);
    let mut index = Index::new();
    for unit in ["U1", "U2"] {
        index.register_local_variable(
            unit.to_string(),
            "V".to_string(),
            VariableType::Input,
            "Int".to_string(),
        );
    }
    assert!(index.associate_local_variable("U2", "V", handle));
    assert_eq!(index.find_member("U2", "V").unwrap().get_generated_reference(), Some(handle));
    assert_eq!(index.find_member("U1", "V").unwrap().get_generated_reference(), None);
    let entry = index.find_member("U2", "V").unwrap();
    assert_eq!(entry.get_name(), "V");
    assert_eq!(entry.get_variable_type(), VariableType::Input);
    assert_eq!(entry.get_type_name(), "Int");
    assert_eq!(entry.get_qualifier(), Some("U2"));
    assert_eq!(artifacts.reference(entry.get_generated_reference().unwrap()), Some(pointer));
}

#[test]
fn a_unit_keeps_all_its_variables() {
    let mut index = Index::new();
    let roles = [
        ("a", VariableType::Local),
        ("b", VariableType::Input),
        ("c", VariableType::Output),
        ("d", VariableType::InOut),
        ("e", VariableType::Return),
    ];
    for (name, role) in roles {
        index.register_local_variable("U".to_string(), name.to_string(), role, "Int".to_string());
    }
    for (name, role) in roles {
        assert_eq!(index.find_member("U", name).unwrap().get_variable_type(), role);
    }
}

#[test]
fn the_local_variable_takes_precedence() {
    let mut index = Index::new();
    index.register_global_variable("V".to_string(), "Int".to_string());
    index.register_local_variable(
        "U1".to_string(),
        "V".to_string(),
        VariableType::Local,
        "Bool".to_string(),
    );
    let local = index.find_variable(Some("U1"), "V").unwrap();
    assert_eq!(local.get_variable_type(), VariableType::Local);
    assert_eq!(local.get_type_name(), "Bool");
    assert_eq!(local.get_qualifier(), Some("U1"));
}

#[test]
fn the_global_variable_is_the_fallback() {
    let mut index = Index::new();
    index.register_global_variable("V".to_string(), "Int".to_string());
    index.register_local_variable(
        "U1".to_string(),
        "V".to_string(),
        VariableType::Local,
        "Bool".to_string(),
    );
    for context in [None, Some("U2")] {
        let entry = index.find_variable(context, "V").unwrap();
        assert_eq!(entry.get_variable_type(), VariableType::Global);
        assert_eq!(entry.get_type_name(), "Int");
    }
    assert!(index.find_variable(Some("U1"), "W").is_none());
    assert!(index.find_variable(None, "W").is_none());
}

#[test]
fn a_local_variable_is_not_found_without_its_unit() {
    let mut index = Index::new();
    index.register_local_variable(
        "U1".to_string(),
        "V".to_string(),
        VariableType::Local,
        "Bool".to_string(),
    );
    assert!(index.find_variable(None, "V").is_none());
    assert!(index.find_variable(Some("U2"), "V").is_none());
}

#[test]
fn a_variable_is_callable_once_its_type_has_an_implementation() {
    let context = Context::create();
    let module = context.create_module("main");
    let builder = context.create_builder();
    let implementation = function(&context, &module, &builder, "Timer");
    let mut artifacts = Artifacts::new();
    let handle = artifacts.add_implementation(implementation);
    let mut index = Index::new();
    index.register_type("Timer".to_string());
    index.register_global_variable("clock".to_string(), "Timer".to_string());
    index.register_local_variable(
        "Main".to_string(),
        "delay".to_string(),
        VariableType::Local,
        "Timer".to_string(),
    );
    assert!(index.find_callable_instance_variable(None, "clock").is_none());
    assert!(index.find_callable_instance_variable(Some("Main"), "delay").is_none());

    assert!(index.associate_callable_implementation("Timer", handle));

    let clock = index.find_callable_instance_variable(None, "clock").unwrap();
    assert_eq!(clock.get_name(), "clock");
    assert_eq!(clock.get_type_name(), "Timer");
    let delay = index.find_callable_instance_variable(Some("Main"), "delay").unwrap();
    assert_eq!(delay.get_name(), "delay");
    assert_eq!(delay.get_qualifier(), Some("Main"));
    let attached = index.find_type("Timer").unwrap().get_implementation().unwrap();
    assert_eq!(attached, handle);
    assert_eq!(artifacts.implementation(attached), Some(implementation));
}

#[test]
fn a_variable_of_another_type_stays_uncallable() {
    let context = Context::create();
    let module = context.create_module("main");
    let builder = context.create_builder();
    let mut artifacts = Artifacts::new();
    let handle = artifacts.add_implementation(function(&context, &module, &builder, "Timer"));
    let mut index = Index::new();
    index.register_type("Timer".to_string());
    index.register_global_variable("count".to_string(), "Int".to_string());
    index.register_global_variable("ghost".to_string(), "Unknown".to_string());
    assert!(index.associate_callable_implementation("Timer", handle));
    assert!(index.find_callable_instance_variable(None, "count").is_none());
    assert!(index.find_callable_instance_variable(None, "ghost").is_none());
    assert!(index.find_callable_instance_variable(None, "nothing").is_none());
}

#[test]
fn a_type_representation_makes_nothing_callable() {
    let context = Context::create();
    let representation: BasicTypeEnum = context.i32_type().into();
    let mut artifacts = Artifacts::new();
    let handle = artifacts.add_type(representation);
    let mut index = Index::new();
    index.register_global_variable("count".to_string(), "Int".to_string());
    assert!(index.associate_type("Int", handle));
    assert_eq!(index.find_type("Int").unwrap().get_type(), Some(handle));
    assert_eq!(artifacts.data_type(handle), Some(representation));
    assert!(index.find_type("Int").unwrap().get_implementation().is_none());
    assert!(index.find_callable_instance_variable(None, "count").is_none());
}

#[test]
fn the_two_associations_of_a_type_keep_each_other() {
    let context = Context::create();
    let module = context.create_module("main");
    let builder = context.create_builder();
    let mut artifacts = Artifacts::new();
    let implementation =
        artifacts.add_implementation(function(&context, &module, &builder, "Timer"));
    let representation = artifacts.add_type(context.bool_type().into());
    let mut index = Index::new();
    index.register_type("Timer".to_string());
    assert!(index.associate_type("Timer", representation));
    assert!(index.associate_callable_implementation("Timer", implementation));
    let entry = index.find_type("Timer").unwrap();
    assert_eq!(entry.get_name(), "Timer");
    assert_eq!(entry.get_type(), Some(representation));
    assert_eq!(entry.get_implementation(), Some(implementation));

    let other = artifacts.add_type(context.i64_type().into());
    assert_ne!(other, representation);
    assert!(index.associate_type("Timer", other));
    let entry = index.find_type("Timer").unwrap();
    assert_eq!(entry.get_type(), Some(other));
    assert_eq!(entry.get_implementation(), Some(implementation));
}

#[test]
fn an_association_attaches_the_handle() {
    let context = Context::create();
    let module = context.create_module("main");
    let builder = context.create_builder();
    function(&context, &module, &builder, "body");
    let mut artifacts = Artifacts::new();
    let first = artifacts.add_reference(storage(&context, &builder, "first"));
    let second = artifacts.add_reference(storage(&context, &builder, "second"));
    assert_ne!(first, second);
    let mut index = Index::new();
    index.register_global_variable("X".to_string(), "Int".to_string());
    index.register_global_variable("Y".to_string(), "Int".to_string());
    assert!(index.associate_global_variable("X", first));
    let entry = index.find_global_variable("X").unwrap();
    assert_eq!(entry.get_generated_reference(), Some(first));
    assert_eq!(entry.get_name(), "X");
    assert_eq!(entry.get_variable_type(), VariableType::Global);
    assert_eq!(entry.get_type_name(), "Int");
    assert_eq!(entry.get_qualifier(), None);
    assert!(index.find_global_variable("Y").unwrap().get_generated_reference().is_none());

    assert!(index.associate_global_variable("X", second));
    assert_eq!(index.find_global_variable("X").unwrap().get_generated_reference(), Some(second));
}

#[test]
fn an_association_without_registration_is_ignored() {
    let context = Context::create();
    let module = context.create_module("main");
    let builder = context.create_builder();
    let mut artifacts = Artifacts::new();
    let implementation =
        artifacts.add_implementation(function(&context, &module, &builder, "body"));
    let pointer = artifacts.add_reference(storage(&context, &builder, "x"));
    let representation = artifacts.add_type(context.i32_type().into());
    let mut index = Index::new();
    index.register_global_variable("X".to_string(), "Int".to_string());
    index.register_local_variable(
        "U".to_string(),
        "V".to_string(),
        VariableType::Local,
        "Int".to_string(),
    );

    assert!(!index.associate_global_variable("Y", pointer));
    assert!(!index.associate_global_variable("V", pointer));
    assert!(!index.associate_local_variable("U", "X", pointer));
    assert!(!index.associate_local_variable("W", "V", pointer));
    assert!(!index.associate_type("Timer", representation));
    assert!(!index.associate_callable_implementation("Timer", implementation));

    assert!(index.find_global_variable("Y").is_none());
    assert!(index.find_global_variable("V").is_none());
    assert!(index.find_member("U", "X").is_none());
    assert!(index.find_member("W", "V").is_none());
    assert!(index.find_type("Timer").is_none());
    assert!(index.find_global_variable("X").unwrap().get_generated_reference().is_none());
    assert!(index.find_member("U", "V").unwrap().get_generated_reference().is_none());
    for name in ["Int", "Bool"] {
        assert!(index.find_type(name).unwrap().get_type().is_none());
        assert!(index.find_type(name).unwrap().get_implementation().is_none());
    }
}

#[test]
fn a_type_registered_again_loses_what_was_attached() {
    let context = Context::create();
    let mut artifacts = Artifacts::new();
    let representation = artifacts.add_type(context.i32_type().into());
    let mut index = Index::new();
    assert!(index.associate_type("Int", representation));
    index.register_type("Int".to_string());
    assert!(index.find_type("Int").unwrap().get_type().is_none());
}

#[test]
fn type_information_keeps_its_kind() {
    for kind in [
        DataTypeType::Scalar,
        DataTypeType::Struct,
        DataTypeType::FunctionBlock,
        DataTypeType::AliasType,
    ] {
        assert_eq!(DataTypeInformation::new(kind).get_kind(), kind);
    }
}

#[test]
fn a_handle_resolves_to_what_it_was_given_for() {
    let context = Context::create();
    let module = context.create_module("main");
    let builder = context.create_builder();
    let body = function(&context, &module, &builder, "body");
    let other = function(&context, &module, &builder, "other");
    let pointers: Vec<PointerValue> =
        ["a", "b", "c"].iter().map(|name| storage(&context, &builder, name)).collect();
    let types: Vec<BasicTypeEnum> =
        vec![context.i32_type().into(), context.bool_type().into(), context.f64_type().into()];
    let functions: Vec<FunctionValue> = vec![body, other];

    let mut artifacts = Artifacts::new();
    let pointer_handles: Vec<_> =
        pointers.iter().map(|pointer| artifacts.add_reference(*pointer)).collect();
    let type_handles: Vec<_> = types.iter().map(|ty| artifacts.add_type(*ty)).collect();
    let function_handles: Vec<_> =
        functions.iter().map(|function| artifacts.add_implementation(*function)).collect();

    for (handle, pointer) in pointer_handles.iter().zip(&pointers) {
        assert_eq!(artifacts.reference(*handle), Some(*pointer));
    }
    for (handle, ty) in type_handles.iter().zip(&types) {
        assert_eq!(artifacts.data_type(*handle), Some(*ty));
    }
    for (handle, function) in function_handles.iter().zip(&functions) {
        assert_eq!(artifacts.implementation(*handle), Some(*function));
    }
    assert_ne!(pointer_handles[0], pointer_handles[1]);
    assert_ne!(pointer_handles[1], pointer_handles[2]);
}

#[test]
fn a_handle_of_another_session_may_resolve_to_nothing() {
    let context = Context::create();
    let module = context.create_module("main");
    let builder = context.create_builder();
    function(&context, &module, &builder, "body");
    let mut session = Artifacts::new();
    session.add_reference(storage(&context, &builder, "a"));
    let handle = session.add_reference(storage(&context, &builder, "b"));
    let empty = Artifacts::new();
    assert_eq!(empty.reference(handle), None);
    let mut short = Artifacts::new();
    short.add_type(context.i32_type().into());
    assert_eq!(short.reference(handle), None);
}

#[test]
fn a_variable_entry_takes_its_association() {
    let context = Context::create();
    let module = context.create_module("main");
    let builder = context.create_builder();
    function(&context, &module, &builder, "body");
    let mut artifacts = Artifacts::new();
    let first = artifacts.add_reference(storage(&context, &builder, "first"));
    let second = artifacts.add_reference(storage(&context, &builder, "second"));
    let mut entry = VariableIndexEntry::new(
        "counter".to_string(),
        VariableType::Output,
        "Int".to_string(),
        Some("Main".to_string()),
    );
    assert_eq!(entry.get_generated_reference(), None);
    entry.associate(first);
    assert_eq!(entry.get_generated_reference(), Some(first));
    entry.associate(second);
    assert_eq!(entry.get_generated_reference(), Some(second));
    assert_eq!(entry.get_name(), "counter");
    assert_eq!(entry.get_variable_type(), VariableType::Output);
    assert_eq!(entry.get_type_name(), "Int");
    assert_eq!(entry.get_qualifier(), Some("Main"));
}

#[test]
fn a_type_entry_takes_its_associations() {
    let context = Context::create();
    let module = context.create_module("main");
    let builder = context.create_builder();
    let mut artifacts = Artifacts::new();
    let implementation =
        artifacts.add_implementation(function(&context, &module, &builder, "Timer"));
    let representation = artifacts.add_type(context.i32_type().into());
    let mut entry = DataTypeIndexEntry::new("Timer".to_string());
    assert_eq!(entry.get_name(), "Timer");
    assert_eq!(entry.get_type(), None);
    assert_eq!(entry.get_implementation(), None);
    entry.associate_type(representation);
    assert_eq!(entry.get_type(), Some(representation));
    assert_eq!(entry.get_implementation(), None);
    entry.associate_implementation(implementation);
    assert_eq!(entry.get_type(), Some(representation));
    assert_eq!(entry.get_implementation(), Some(implementation));
}

#[test]
fn a_scoped_map_keeps_the_scopes_apart() {
    let mut scopes: ScopedMap<u32> = ScopedMap::new();
    assert_eq!(scopes.get("U1", "a"), None);
    scopes.insert("U1".to_string(), "a".to_string(), 1);
    scopes.insert("U2".to_string(), "a".to_string(), 2);
    scopes.insert("U1".to_string(), "b".to_string(), 3);
    scopes.insert("U3".to_string(), "c".to_string(), 4);
    assert_eq!(scopes.get("U1", "a"), Some(&1));
    assert_eq!(scopes.get("U2", "a"), Some(&2));
    assert_eq!(scopes.get("U1", "b"), Some(&3));
    assert_eq!(scopes.get("U3", "c"), Some(&4));
    assert_eq!(scopes.get("U2", "b"), None);
    assert_eq!(scopes.get("U3", "a"), None);
    assert_eq!(scopes.get("a", "U1"), None);
    scopes.insert("U1".to_string(), "a".to_string(), 5);
    assert_eq!(scopes.get("U1", "a"), Some(&5));
    assert_eq!(scopes.get("U2", "a"), Some(&2));
    assert_eq!(scopes.get("U1", "b"), Some(&3));
}
