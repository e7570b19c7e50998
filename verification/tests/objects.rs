use concorde::runtime::host::NoHost;
use concorde::runtime::object::{
    MethodBody, MethodReceiver, Object, ObjectRef, Param, Primitive, SystemMethod,
};
use concorde::runtime::stdlib::Builtin;
use concorde::runtime::table::Table;
use concorde::runtime::{Error, Runtime};
use concorde::types::{Block, Node, NodeMeta, Rule};
use std::rc::Rc;

const BUDGET: usize = 200;

fn empty_body() -> MethodBody {
    MethodBody::User(Rc::new(Node {
        meta: NodeMeta { source: String::new(), rule: Rule::Stmts, line_col: (1, 1) },
        v: Block { statements: Vec::new() },
    }))
}

fn positional(names: &[&str]) -> Vec<Param> {
    names.iter().map(|name| Param::Positional(name.to_string())).collect()
}

#[test]
fn created_objects_are_distinct() {
    let mut rt = Runtime::new();
    let class = rt.create_simple_class("Thing".to_string());
    let a = rt.create_object(class);
    let b = rt.create_object(class);
    assert_ne!(a, b);
    assert_eq!(rt.class_of(a), rt.class_of(b));
    let eq = rt.call_builtin(
        &NoHost,
        Builtin::ObjectEq,
        a,
        "__eq__".to_string(),
        vec![b],
        BUDGET,
    ).unwrap();
    assert_eq!(eq, rt.builtins().bool_false);
    let eq = rt.call_builtin(
        &NoHost,
        Builtin::ObjectEq,
        a,
        "__eq__".to_string(),
        vec![a],
        BUDGET,
    ).unwrap();
    assert_eq!(eq, rt.builtins().bool_true);
    let eq = rt.call_instance_method(&NoHost, a, "__neq__", vec![b], None, BUDGET).unwrap();
    assert_eq!(eq, rt.builtins().bool_true);
}

#[test]
fn new_object_knows_its_class_and_nothing_else() {
    let mut rt = Runtime::new();
    let class = rt.create_simple_class("Thing".to_string());
    let a = rt.create_object(class);
    assert!(rt.contains(a));
    assert_eq!(rt.class_of(a), class);
    assert_eq!(rt.get_property(a, "__class__"), Some(class));
    assert_eq!(rt.get_property(a, "x"), None);
    assert_eq!(rt.object(a).weak_self(), a);
    assert!(rt.object(a).number().is_none());
    assert!(rt.object(a).bool().is_none());
    assert!(rt.object(a).string().is_none());
    assert!(rt.object(a).array().is_none());
    assert!(rt.object(a).dictionary().is_none());
    assert!(rt.object(a).resolve_own_method("to_s").is_none());
    assert!(!rt.is_class(a));
    assert!(rt.is_class(class));
    assert_eq!(rt.display_name(class), "Thing");
    assert_eq!(rt.name_of(a), None);
    assert_eq!(rt.display_name(a), "(anonymous)");
}

#[test]
fn booleans_and_nil_are_singletons() {
    let mut rt = Runtime::new();
    let a = rt.create_bool(true);
    let class = rt.create_simple_class("Thing".to_string());
    rt.create_object(class);
    rt.create_string("abc");
    let b = rt.create_bool(true);
    assert_eq!(a, b);
    assert_eq!(a, rt.builtins().bool_true);
    assert_eq!(rt.create_bool(false), rt.builtins().bool_false);
    assert_ne!(rt.create_bool(false), rt.create_bool(true));
    assert_eq!(rt.object(a).bool(), Some(true));
    assert_eq!(rt.object(rt.builtins().bool_false).bool(), Some(false));
    assert_eq!(rt.nil(), rt.builtins().nil);
    assert_eq!(rt.class_of(rt.nil()), rt.builtins().NilClass);
    assert!(rt.is_falsy(rt.nil()));
    assert!(rt.is_falsy(rt.builtins().bool_false));
    assert!(rt.is_truthy(rt.builtins().bool_true));
    assert!(rt.is_truthy(class));
}

#[test]
fn strings_with_one_text_are_one_object() {
    let mut rt = Runtime::new();
    let a = rt.create_string("abc");
    let b = rt.create_string("abd");
    let c = rt.create_string("abc");
    assert_eq!(a, c);
    assert_ne!(a, b);
    assert_eq!(rt.object(a).string().unwrap(), "abc");
    assert_eq!(rt.class_of(a), rt.builtins().String);
    rt.set_primitive(a, Primitive::String("changed".to_string()));
    let d = rt.create_string("abc");
    assert_ne!(a, d);
    assert_eq!(rt.object(d).string().unwrap(), "abc");
    assert_eq!(rt.create_string("abc"), d);
}

#[test]
fn string_table_survives_sweeps() {
    let mut rt = Runtime::new();
    let first = rt.create_string("text 0");
    for i in 1..200 {
        rt.create_string(&format!("text {}", i));
    }
    rt.cleanup_strings();
    assert_eq!(rt.create_string("text 0"), first);
}

#[test]
fn numbers_arrays_tuples_and_dictionaries_are_fresh() {
    let mut rt = Runtime::new();
    let a = rt.create_number(7f64.to_bits());
    let b = rt.create_number(7f64.to_bits());
    assert_ne!(a, b);
    assert_eq!(rt.object(a).number(), Some(7f64.to_bits()));
    assert_eq!(rt.class_of(a), rt.builtins().Number);
    let list = rt.create_array(vec![a, b]);
    assert_eq!(rt.class_of(list), rt.builtins().Array);
    assert_eq!(rt.object(list).array().unwrap(), &vec![a, b]);
    assert_eq!(rt.array_items(list), Some(vec![a, b]));
    let pair = rt.create_tuple(vec![b, a]);
    assert_eq!(rt.class_of(pair), rt.builtins().Tuple);
    assert_eq!(rt.array_items(pair), Some(vec![b, a]));
    let dict = rt.create_dictionary(vec![
        ("x".to_string(), a),
        ("y".to_string(), b),
        ("x".to_string(), list),
    ]);
    assert_eq!(rt.class_of(dict), rt.builtins().Dictionary);
    let table = rt.object(dict).dictionary().unwrap();
    assert_eq!(table.get("x"), Some(list));
    assert_eq!(table.get("y"), Some(b));
    assert_eq!(table.get("z"), None);
    assert_eq!(table.len(), 2);
    assert_eq!(table.name_at(0), "x");
    assert_eq!(table.name_at(1), "y");
    assert_eq!(rt.array_items(a), None);
}

#[test]
fn list_operations_change_the_list_in_place() {
    let mut rt = Runtime::new();
    let a = rt.create_number(1f64.to_bits());
    let list = rt.create_array(vec![]);
    assert!(rt.array_push(list, a));
    assert!(rt.array_push(list, list));
    assert_eq!(rt.array_items(list), Some(vec![a, list]));
    assert_eq!(rt.array_pop(list), Some(list));
    assert_eq!(rt.array_pop(list), Some(a));
    assert_eq!(rt.array_pop(list), None);
    assert!(!rt.array_push(a, a));
    assert_eq!(rt.array_pop(a), None);
    let dict = rt.create_dictionary(vec![]);
    assert!(rt.dictionary_insert(dict, "k".to_string(), a));
    assert!(!rt.dictionary_insert(a, "k".to_string(), a));
    assert_eq!(rt.object(dict).dictionary().unwrap().get("k"), Some(a));
}

#[test]
fn properties_do_not_walk_superclasses() {
    let mut rt = Runtime::new();
    let parent = rt.create_simple_class("Parent".to_string());
    let child = rt.create_class("Child".to_string(), Some(parent));
    let value = rt.create_string("v");
    rt.set_property(parent, "shared".to_string(), value);
    assert_eq!(rt.get_property(parent, "shared"), Some(value));
    assert_eq!(rt.get_property(child, "shared"), None);
    let instance = rt.create_object(child);
    assert_eq!(rt.get_property(instance, "shared"), None);
    let other = rt.create_string("w");
    rt.set_property(parent, "shared".to_string(), other);
    assert_eq!(rt.get_property(parent, "shared"), Some(other));
}

#[test]
fn methods_are_inherited_and_shadowed() {
    let mut rt = Runtime::new();
    let parent = rt.create_simple_class("Parent".to_string());
    let child = rt.create_class("Child".to_string(), Some(parent));
    rt.define_method(
        parent,
        MethodReceiver::Instance,
        "to_s".to_string(),
        positional(&[]),
        empty_body(),
    )
        .unwrap();
    let inherited = rt.resolve_method(child, "to_s").unwrap();
    assert_eq!(inherited.class, parent);
    assert!(rt.object(child).resolve_own_method("to_s").is_none());
    rt.define_method(
        child,
        MethodReceiver::Instance,
        "to_s".to_string(),
        positional(&["a"]),
        empty_body(),
    )
    .unwrap();
    let shadowing = rt.resolve_method(child, "to_s").unwrap();
    assert_eq!(shadowing.class, child);
    assert_eq!(shadowing.params.len(), 1);
    let kept = rt.resolve_method(parent, "to_s").unwrap();
    assert_eq!(kept.class, parent);
    assert_eq!(kept.params.len(), 0);
    assert!(Rc::ptr_eq(&kept, &inherited));
    let object = rt.resolve_method(child, "__eq__").unwrap();
    assert_eq!(object.class, rt.builtins().Object);
    assert!(rt.resolve_method(child, "missing").is_none());
}

#[test]
fn redefinition_on_one_object_fails() {
    let mut rt = Runtime::new();
    let class = rt.create_simple_class("Thing".to_string());
    rt.define_method(
        class,
        MethodReceiver::Instance,
        "m".to_string(),
        positional(&[]),
        empty_body(),
    )
        .unwrap();
    let r = rt.define_method(
        class,
        MethodReceiver::Class,
        "m".to_string(),
        positional(&["a"]),
        empty_body(),
    );
    match r {
        Err(Error::DuplicateMethodDefinition { class, name }) => {
            assert_eq!(class, "Thing");
            assert_eq!(name, "m");
        }
        other => panic!("unexpected {:?}", other),
    }
    let kept = rt.resolve_method(class, "m").unwrap();
    assert_eq!(kept.receiver, MethodReceiver::Instance);
    assert_eq!(kept.params.len(), 0);
}

#[test]
fn detached_object_defines_methods() {
    let this = ObjectRef { id: 3 };
    let class = ObjectRef { id: 0 };
    let mut object = Object::new_of_class(this, class);
    assert_eq!(object.weak_self(), this);
    object.set_property("p".to_string(), class);
    assert_eq!(object.get_property("p"), Some(class));
    object.set_primitive(Primitive::Boolean(true));
    assert_eq!(object.bool(), Some(true));
    object
        .define_method(MethodReceiver::Instance, "m".to_string(), positional(&["a"]), empty_body())
        .unwrap();
    let method = object.resolve_own_method("m").unwrap();
    assert_eq!(method.name, "m");
    assert_eq!(method.class, this);
    let r = object.define_method(
        MethodReceiver::Instance,
        "m".to_string(),
        positional(&[]),
        empty_body(),
    );
    assert!(matches!(r, Err(Error::DuplicateMethodDefinition { .. })));
    object.set_primitive(Primitive::Array(vec![class]));
    object.array_mut().unwrap().push(this);
    assert_eq!(object.array().unwrap(), &vec![class, this]);
    assert!(object.dictionary_mut().is_none());
    let dummy = Object::new_dummy(this);
    assert!(dummy.class.is_none());
    assert!(dummy.get_property("__class__").is_none());
}

#[test]
fn constructor_of_a_class_without_one_does_nothing() {
    let mut rt = Runtime::new();
    let class = rt.create_simple_class("Thing".to_string());
    let init = rt.get_init_method(class);
    assert_eq!(init.name, "init");
    assert_eq!(init.class, class);
    assert!(matches!(init.body, MethodBody::System(SystemMethod::DefaultInit)));
    let instance = rt.create_object(class);
    let extra = rt.create_string("ignored");
    let r = rt.call_method(&NoHost, instance, init, vec![extra], BUDGET).unwrap();
    assert_eq!(r, instance);
    let nil_init = rt.get_init_method(rt.builtins().NilClass);
    assert!(matches!(nil_init.body, MethodBody::System(SystemMethod::Builtin(Builtin::NilInit))));
}

#[test]
fn call_method_checks_the_kind_of_receiver() {
    let mut rt = Runtime::new();
    let class = rt.create_simple_class("Thing".to_string());
    rt.define_method(
        class,
        MethodReceiver::Instance,
        "m".to_string(),
        positional(&[]),
        empty_body(),
    )
        .unwrap();
    rt.define_method(class, MethodReceiver::Class, "c".to_string(), positional(&[]), empty_body())
        .unwrap();
    let m = rt.resolve_method(class, "m").unwrap();
    let c = rt.resolve_method(class, "c").unwrap();
    let instance = rt.create_object(class);
    let r = rt.call_method(&NoHost, class, m.clone(), vec![], BUDGET);
    assert!(matches!(r, Err(Error::NotAClassMethod { .. })));
    let r = rt.call_method(&NoHost, instance, c.clone(), vec![], BUDGET);
    assert!(matches!(r, Err(Error::NotAClassMethod { .. })));
    assert_eq!(rt.call_method(&NoHost, instance, m, vec![], BUDGET).unwrap(), rt.nil());
    assert_eq!(rt.call_method(&NoHost, class, c, vec![], BUDGET).unwrap(), rt.nil());
    let r = rt.call_instance_method(&NoHost, instance, "c", vec![], None, BUDGET);
    match r {
        Err(Error::NoSuchMethod { search, .. }) => assert_eq!(search, "Thing.c"),
        other => panic!("unexpected {:?}", other),
    }
}

#[test]
fn host_without_functions_refuses_host_methods() {
    let mut rt = Runtime::new();
    let a = rt.create_number(1f64.to_bits());
    let b = rt.create_number(2f64.to_bits());
    let r = rt.call_instance_method(&NoHost, a, "__add__", vec![b], None, BUDGET);
    match r {
        Err(Error::NoSuchMethod { search, .. }) => assert_eq!(search, "__add__"),
        other => panic!("unexpected {:?}", other),
    }
}

#[test]
fn variables_are_found_or_created() {
    let mut rt = Runtime::new();
    let a = rt.create_string("a");
    let b = rt.create_string("b");
    assert_eq!(rt.resolve_variable("x"), None);
    rt.assign_variable("x".to_string(), a);
    assert_eq!(rt.resolve_variable("x"), Some(a));
    rt.assign_variable("x".to_string(), b);
    assert_eq!(rt.resolve_variable("x"), Some(b));
    rt.assign_global("g".to_string(), a);
    assert_eq!(rt.resolve_variable("g"), Some(a));
    rt.define_variable("d".to_string(), b);
    assert_eq!(rt.resolve_variable("d"), Some(b));
    assert_eq!(rt.resolve_variable("self"), None);
    assert_eq!(rt.resolve_variable("String"), Some(rt.builtins().String));
}

#[test]
fn method_of_the_current_class_resolves_to_a_method_object() {
    let mut rt = Runtime::new();
    let main = rt.builtins().Main;
    rt.define_method(main, MethodReceiver::Class, "f".to_string(), positional(&[]), empty_body())
        .unwrap();
    let object = rt.resolve_variable("f").unwrap();
    assert_eq!(rt.class_of(object), rt.builtins().Method);
    assert_eq!(rt.get_property(object, "__receiver__"), Some(main));
    assert_eq!(rt.name_of(object), Some("f".to_string()));
    let again = rt.resolve_variable("f").unwrap();
    assert_ne!(object, again);
    let method = rt.resolve_method(main, "f").unwrap();
    let made = rt.create_method_object(method);
    assert_eq!(rt.class_of(made), rt.builtins().Method);
    assert_eq!(rt.call_closure(&NoHost, made, vec![], BUDGET).is_err(), true);
    let callable = rt.resolve_callable(made).unwrap();
    assert_eq!(rt.call_method(&NoHost, made, callable, vec![], BUDGET).unwrap(), rt.nil());
}

#[test]
fn open_classes_answer_calls_without_receiver() {
    let rt = Runtime::new();
    assert!(rt.open_method("println").is_none());
    let method = rt.resolve_method(rt.builtins().IO, "println").unwrap();
    assert_eq!(method.name, "println");
    assert_eq!(method.receiver, MethodReceiver::Class);
    assert!(matches!(method.params[0], Param::Vararg(_)));
    assert_eq!(method.params[0].name(), "args");
}

#[test]
fn copy_takes_plain_properties_only() {
    let mut rt = Runtime::new();
    let class = rt.create_simple_class("Thing".to_string());
    let inner = rt.create_object(class);
    let text = rt.create_string("t");
    rt.set_property(inner, "text".to_string(), text);
    let outer = rt.create_object(class);
    rt.set_property(outer, "inner".to_string(), inner);
    rt.set_property(outer, "me".to_string(), outer);
    rt.set_property(outer, "__hidden__".to_string(), text);
    rt.set_primitive(outer, Primitive::Array(vec![inner]));
    let copy = rt.clone_object(outer, BUDGET).unwrap();
    assert_ne!(copy, outer);
    assert_eq!(rt.class_of(copy), class);
    assert_eq!(rt.object(copy).weak_self(), copy);
    assert_eq!(rt.get_property(copy, "me"), None);
    assert_eq!(rt.get_property(copy, "__hidden__"), None);
    assert_eq!(rt.get_property(copy, "__class__"), None);
    assert_eq!(rt.array_items(copy), Some(vec![inner]));
    let inner_copy = rt.get_property(copy, "inner").unwrap();
    assert_ne!(inner_copy, inner);
    let text_copy = rt.get_property(inner_copy, "text").unwrap();
    assert_ne!(text_copy, text);
    assert_eq!(rt.object(text_copy).string().unwrap(), "t");
    assert_eq!(rt.get_property(outer, "inner"), Some(inner));
    let names: Vec<String> =
        rt.property_entries(copy).into_iter().map(|(name, _)| name).collect();
    assert_eq!(names, vec!["inner".to_string()]);
}

#[test]
fn copy_of_a_class_shares_its_methods() {
    let mut rt = Runtime::new();
    let class = rt.create_simple_class("Thing".to_string());
    rt.define_method(
        class,
        MethodReceiver::Instance,
        "m".to_string(),
        positional(&[]),
        empty_body(),
    )
        .unwrap();
    let copy = rt.clone_object(class, BUDGET).unwrap();
    let shared = rt.resolve_method(class, "m").unwrap();
    let copied = rt.object(copy).resolve_own_method("m").unwrap();
    assert!(Rc::ptr_eq(&shared, &copied));
    assert_eq!(rt.object(copy).superclass, Some(rt.builtins().Object));
    assert_eq!(rt.name_of(copy), None);
}

#[test]
fn copy_of_a_ring_exhausts_the_budget() {
    let mut rt = Runtime::new();
    let class = rt.create_simple_class("Thing".to_string());
    let a = rt.create_object(class);
    let b = rt.create_object(class);
    rt.set_property(a, "next".to_string(), b);
    rt.set_property(b, "next".to_string(), a);
    let before = rt.get_property(a, "next");
    let r = rt.clone_object(a, 50);
    assert!(matches!(r, Err(Error::BudgetExhausted)));
    assert_eq!(rt.get_property(a, "next"), before);
    assert!(matches!(rt.clone_object(a, 0), Err(Error::BudgetExhausted)));
}

#[test]
fn table_keeps_the_order_of_first_entry() {
    let mut table = Table::new();
    let a = ObjectRef { id: 1 };
    let b = ObjectRef { id: 2 };
    table.insert("z".to_string(), a);
    table.insert("a".to_string(), b);
    table.insert("z".to_string(), b);
    assert_eq!(table.len(), 2);
    assert_eq!(table.name_at(0), "z");
    assert_eq!(table.name_at(1), "a");
    assert_eq!(table.get("z"), Some(b));
    assert!(table.contains_key("a"));
    assert!(!table.contains_key("b"));
    let copy = table.copy();
    assert_eq!(copy.len(), 2);
    assert_eq!(copy.name_at(0), "z");
    assert_eq!(copy.get("a"), Some(b));
}

#[test]
fn builtins_check_arity_and_payload() {
    let mut rt = Runtime::new();
    let list = rt.create_array(vec![]);
    let r = rt.call_instance_method(&NoHost, list, "push", vec![], None, BUDGET);
    match r {
        Err(Error::ArityMismatch { class_name, method_name, expected, actual }) => {
            assert_eq!(class_name, "Array");
            assert_eq!(method_name, "push");
            assert_eq!((expected, actual), (1, 0));
        }
        other => panic!("unexpected {:?}", other),
    }
    let bare = rt.create_object(rt.builtins().Array);
    let r = rt.call_instance_method(&NoHost, bare, "pop", vec![], None, BUDGET);
    match r {
        Err(Error::TypeMismatch { expected, class }) => {
            assert_eq!(expected, "Array");
            assert_eq!(class, "Array");
        }
        other => panic!("unexpected {:?}", other),
    }
    let init = rt.call_instance_method(&NoHost, bare, "init", vec![], None, BUDGET).unwrap();
    assert_eq!(init, bare);
    assert_eq!(rt.array_items(bare), Some(vec![]));
    let r = rt.call_instance_method(&NoHost, list, "__add__", vec![bare], None, BUDGET).unwrap();
    assert_eq!(rt.array_items(r), Some(vec![]));
    assert_ne!(r, list);
    let text = rt.create_string("t");
    let r = rt.call_instance_method(&NoHost, list, "__add__", vec![text], None, BUDGET);
    assert!(matches!(r, Err(Error::TypeMismatch { .. })));
}

#[test]
fn debug_text_names_class_and_place() {
    let mut rt = Runtime::new();
    let class = rt.create_simple_class("Thing".to_string());
    let a = rt.create_object(class);
    assert_eq!(rt.debug_text(a), format!("#<Thing {}>", a.id));
    let shown = rt.call_instance_method(&NoHost, a, "__debug__", vec![], None, BUDGET).unwrap();
    assert_eq!(rt.object(shown).string().unwrap(), &format!("#<Thing {}>", a.id));
}

#[test]
fn dictionary_shows_its_entries_in_order() {
    let mut rt = Runtime::new();
    let a = rt.create_string("one");
    let b = rt.nil();
    let dict = rt.create_dictionary(vec![("b".to_string(), a), ("a".to_string(), b)]);
    let shown = rt.call_instance_method(&NoHost, dict, "to_s", vec![], None, BUDGET).unwrap();
    assert_eq!(rt.object(shown).string().unwrap(), "[\n    b: one,\n    a: nil,\n]");
    let empty = rt.create_dictionary(vec![]);
    let shown = rt.call_instance_method(&NoHost, empty, "to_s", vec![], None, BUDGET).unwrap();
    assert_eq!(rt.object(shown).string().unwrap(), "[:]");
    assert_eq!(
        rt.dictionary_entries(dict).unwrap(),
        vec![("b".to_string(), Some(a)), ("a".to_string(), Some(b))]
    );
}
