//! Laws of the runtime: what holds of every state and every call.

use crate::runtime::builtin;
use crate::runtime::error::{ErrorModel, Outcome};
use crate::runtime::host::SystemHost;
use crate::runtime::model::{object_ok, FrameModel, RuntimeModel};
use crate::runtime::object::{
    MethodBody, MethodModel, MethodReceiver, ObjectRef, ParamModel, PrimitiveModel,
};
use crate::runtime::semantics;
use crate::runtime::stdlib::{builtin_call, Builtin};
use crate::types::{Binary, ForIn, Node, Operator};
use vstd::prelude::*;

verus! {

/// Identity is not equality of content: two objects that two calls of
/// `create_object` make are different objects, also where they are of one
/// class and hold the same, and `Object.__eq__` tells them apart.
pub proof fn lemma_created_objects_differ<H: SystemHost>(
    h: H,
    s: RuntimeModel,
    class: ObjectRef,
    name: Seq<char>,
    budget: nat,
)
    requires
        s.wf(),
        s.contains(class),
        s.heap.len() + 2 <= usize::MAX,
    ensures
        ({
            let (s1, a) = s.create_object(class);
            let (s2, b) = s1.create_object(class);
            &&& a != b
            &&& s2.object(a).class == s2.object(b).class
            &&& s2.object(a).properties == s2.object(b).properties
            &&& builtin_call(h, s2, Builtin::ObjectEq, a, name, seq![b], budget) == (
                s2,
                Ok::<ObjectRef, ErrorModel>(s2.builtins.bool_false),
            )
            &&& builtin_call(h, s2, Builtin::ObjectEq, a, name, seq![a], budget) == (
                s2,
                Ok::<ObjectRef, ErrorModel>(s2.builtins.bool_true),
            )
        }),
{
}

/// The booleans and `nil` are single objects: in every state that a state
/// grows to, `create_bool` yields the object that it yielded before, and
/// `nil` is the object that it was.
pub proof fn lemma_singletons_stay(s: RuntimeModel, t: RuntimeModel, value: bool)
    requires
        s.grows_to(t),
    ensures
        s.create_bool(value) == t.create_bool(value),
        s.builtins.nil == t.builtins.nil,
{
}

/// Strings are interned: a second call of `create_string` with the same
/// text yields the object that the first call yielded, and changes
/// nothing.
pub proof fn lemma_strings_are_interned(s: RuntimeModel, text: Seq<char>)
    requires
        s.wf(),
        s.heap.len() + 1 <= usize::MAX,
    ensures
        ({
            let (s1, a) = s.create_string(text);
            &&& s1.interned(text) == Some(a)
            &&& s1.create_string(text) == (s1, a)
        }),
{
    let (s1, a) = s.create_string(text);
    if s.interned(text) is None {
        let (s0, r) = s.create_with_primitive(
            s.builtins.String,
            PrimitiveModel::String(text),
        );
        assert(r.id == s.heap.len());
        assert(s0.object(r).string() == Some(text));
    }
}

/// As long as the string table holds an object for a text and that object
/// holds the text, `create_string` yields that object and changes nothing.
pub proof fn lemma_interned_string_is_found(s: RuntimeModel, text: Seq<char>, r: ObjectRef)
    requires
        s.interned(text) == Some(r),
    ensures
        s.create_string(text) == (s, r),
{
}

/// Arity is enforced: a call of a user method on a receiver of its kind
/// with another number of arguments than it has parameters fails with
/// `ArityMismatch`, which tells both numbers, and changes nothing.
pub proof fn lemma_arity_is_enforced<H: SystemHost>(
    h: H,
    s: RuntimeModel,
    receiver: ObjectRef,
    method: MethodModel,
    arguments: Seq<ObjectRef>,
    budget: nat,
)
    requires
        budget > 0,
        method.body is User,
        semantics::receiver_kind(s, receiver) == method.receiver,
        arguments.len() != method.params.len(),
    ensures
        semantics::call_method(h, s, receiver, method, arguments, budget) == (
            s,
            Err::<ObjectRef, ErrorModel>(
                ErrorModel::ArityMismatch {
                    class_name: s.display_name(method.class),
                    method_name: method.name,
                    expected: method.params.len() as usize,
                    actual: arguments.len() as usize,
                },
            ),
        ),
{
}

/// A constructor yields the instance: a call of a user method named `init`
/// whose body ends normally, with whatever value, or by a `return` without
/// a value, yields the receiver.
pub proof fn lemma_constructor_yields_the_instance<H: SystemHost>(
    h: H,
    s: RuntimeModel,
    receiver: ObjectRef,
    method: MethodModel,
    arguments: Seq<ObjectRef>,
    budget: nat,
)
    requires
        budget > 0,
        method.name == builtin::method::init@,
        method.body is User,
        semantics::receiver_kind(s, receiver) == method.receiver,
        arguments.len() == method.params.len(),
    ensures
        ({
            let frame = FrameModel::of_call(
                receiver,
                semantics::bind_params(method.params, arguments),
            );
            let body = semantics::eval_block(
                h,
                s.push_frame(frame),
                *method.body->User_0,
                (budget - 1) as nat,
            );
            let called = semantics::call_method(h, s, receiver, method, arguments, budget);
            &&& called.0 == body.0.pop_frame()
            &&& body.1 is Ok ==> called.1 == Ok::<ObjectRef, ErrorModel>(receiver)
            &&& (body.1 matches Err(ErrorModel::ReturnFromMethod { retval: None, .. })) ==> called.1
                == Ok::<ObjectRef, ErrorModel>(receiver)
            &&& (body.1 matches Err(ErrorModel::ReturnFromMethod { retval: Some(_), node })
                ==> called.1 == Err::<ObjectRef, ErrorModel>(
                ErrorModel::ReturnFromInitializer { node },
            ))
        }),
{
}

/// Method resolution walks the superclass chain: a class that has no
/// method of a name in its own table resolves the name as its superclass
/// does.
pub proof fn lemma_methods_are_inherited(
    s: RuntimeModel,
    class: ObjectRef,
    parent: ObjectRef,
    name: Seq<char>,
)
    requires
        s.wf(),
        s.contains(class),
        s.object(class).superclass == Some(parent),
        s.object(class).own_method(name) is None,
    ensures
        s.resolve_method(class, name) == s.resolve_method(parent, name),
{
    assert(object_ok(s.heap[class.id as int], class.id as int, s.heap.len()));
}

/// A method in a class's own table shadows the superclass's: after a
/// definition succeeds the class resolves the name to the new method, and
/// every other object, the superclass too, is as it was.
pub proof fn lemma_override_shadows(
    s: RuntimeModel,
    class: ObjectRef,
    other: ObjectRef,
    receiver: MethodReceiver,
    name: Seq<char>,
    params: Seq<ParamModel>,
    body: MethodBody,
)
    requires
        s.contains(class),
        s.contains(other),
        other != class,
        s.object(class).own_method(name) is None,
    ensures
        ({
            let (s1, r) = s.define_method(class, receiver, name, params, body);
            &&& r is Ok
            &&& s1.resolve_method(class, name) == Some(
                MethodModel { name, class, params, body, receiver },
            )
            &&& s1.object(other) == s.object(other)
            &&& s1.heap.len() == s.heap.len()
        }),
{
}

/// A definition of a name that the object's own table has already fails
/// and changes nothing, whatever the superclass has.
pub proof fn lemma_redefinition_fails(
    s: RuntimeModel,
    class: ObjectRef,
    receiver: MethodReceiver,
    name: Seq<char>,
    params: Seq<ParamModel>,
    body: MethodBody,
)
    requires
        s.object(class).own_method(name) is Some,
    ensures
        s.define_method(class, receiver, name, params, body) == (
            s,
            Err::<(), ErrorModel>(
                ErrorModel::DuplicateMethodDefinition { class: s.display_name(class), name },
            ),
        ),
{
}

/// A captured value stays: an assignment to a variable changes no object,
/// so what a closure copied into its own properties when it was made is
/// what it holds afterwards.
pub proof fn lemma_assignment_keeps_objects(s: RuntimeModel, name: Seq<char>, value: ObjectRef)
    ensures
        s.assign_variable(name, value).heap == s.heap,
        s.define_variable(name, value).heap == s.heap,
{
}

/// The falsy objects are `false` and `nil` and no others: a conditional
/// runs its `else` branch, or yields `nil` without one, exactly when its
/// condition is one of the two.
pub proof fn lemma_falsy_is_false_or_nil(s: RuntimeModel, r: ObjectRef)
    ensures
        s.is_falsy(r) <==> (r == s.builtins.bool_false || r == s.builtins.nil),
        s.is_truthy(r) <==> !s.is_falsy(r),
{
}

/// Property access does not walk superclasses: what an object yields for a
/// property depends on its own properties alone.
pub proof fn lemma_property_is_own(s: RuntimeModel, t: RuntimeModel, r: ObjectRef, name: Seq<char>)
    requires
        s.object(r).properties == t.object(r).properties,
    ensures
        s.object(r).get_property(name) == t.object(r).get_property(name),
{
}

/// A property that was set is the property that is got, and no other
/// property of the object changes.
pub proof fn lemma_set_then_get(
    s: RuntimeModel,
    r: ObjectRef,
    name: Seq<char>,
    other: Seq<char>,
    value: ObjectRef,
)
    requires
        s.contains(r),
        other != name,
    ensures
        s.set_property(r, name, value).object(r).get_property(name) == Some(value),
        s.set_property(r, name, value).object(r).get_property(other) == s.object(r).get_property(
            other,
        ),
{
}

/// An assignment finds or creates: where some frame has the variable, the
/// innermost such frame gets the value and no frame gets a new variable;
/// where none has it, the innermost frame gets it.
pub proof fn lemma_assignment_finds_or_creates(s: RuntimeModel, name: Seq<char>, value: ObjectRef)
    requires
        s.stack.len() >= 1,
    ensures
        ({
            let t = s.assign_variable(name, value);
            let top = s.stack.len() - 1;
            &&& t.stack.len() == s.stack.len()
            &&& match s.frame_holding(name, top) {
                Some(i) => 0 <= i <= top && s.stack[i].variables.contains_key(name)
                    && t.stack[i].variables == s.stack[i].variables.insert(name, value)
                    && forall|j: int|
                    0 <= j <= top && j != i ==> #[trigger] t.stack[j] == s.stack[j],
                None => t.stack[top].variables == s.stack[top].variables.insert(name, value)
                    && forall|j: int| 0 <= j < top ==> #[trigger] t.stack[j] == s.stack[j],
            }
        }),
{
    lemma_frame_holding(s, name, s.stack.len() - 1);
}

/// The frame that `frame_holding` finds has the variable, and no frame
/// further in has it.
pub proof fn lemma_frame_holding(s: RuntimeModel, name: Seq<char>, i: int)
    requires
        i < s.stack.len(),
    ensures
        match s.frame_holding(name, i) {
            Some(k) => 0 <= k <= i && s.stack[k].variables.contains_key(name) && forall|j: int|
                k < j <= i ==> !(#[trigger] s.stack[j]).variables.contains_key(name),
            None => forall|j: int| 0 <= j <= i ==> !(#[trigger] s.stack[j]).variables.contains_key(name),
        },
    decreases i + 1,
{
    if i >= 0 && !s.stack[i].variables.contains_key(name) {
        lemma_frame_holding(s, name, i - 1);
    }
}

/// Capture is by value at creation: a captured variable that resolves is
/// copied into the closure object's own properties, and a later assignment
/// to the variable leaves the copy as it is.
pub proof fn lemma_capture_is_by_value(
    s: RuntimeModel,
    closure: ObjectRef,
    name: Seq<char>,
    later: ObjectRef,
)
    requires
        s.resolve_variable(name).0.contains(closure),
        s.resolve_variable(name).1 is Some,
    ensures
        ({
            let (resolved, value) = s.resolve_variable(name);
            let captured = s.capture(closure, seq![name], 0);
            &&& captured == resolved.set_property(closure, name, value.unwrap())
            &&& captured.object(closure).get_property(name) == value
            &&& captured.assign_variable(name, later).object(closure).get_property(name) == value
        }),
{
    let (resolved, value) = s.resolve_variable(name);
    let entered = resolved.set_property(closure, name, value.unwrap());
    assert(entered.capture(closure, seq![name], 1) == entered);
}

/// `&&` and `||` are lazy: where the left operand of `&&` is falsy, or the
/// left operand of `||` is truthy, the operation is the evaluation of the
/// left operand, and nothing of the right operand is evaluated.
pub proof fn lemma_short_circuit<H: SystemHost>(
    h: H,
    s: RuntimeModel,
    binary: Node<Binary>,
    budget: nat,
)
    requires
        binary.v.op.v == Operator::LogicalAnd || binary.v.op.v == Operator::LogicalOr,
    ensures
        ({
            let left = semantics::eval(h, s, *binary.v.lhs, budget);
            let whole = semantics::eval_binary(h, s, binary, budget);
            match left.1 {
                Err(_) => whole == left,
                Ok(value) => {
                    let decided = if binary.v.op.v == Operator::LogicalAnd {
                        left.0.is_falsy(value)
                    } else {
                        left.0.is_truthy(value)
                    };
                    &&& decided ==> whole == left
                    &&& !decided ==> whole == semantics::eval(h, left.0, *binary.v.rhs, budget)
                },
            }
        }),
{
}

/// A `for` loop ends at `nil`: where `next` yields `nil`, the loop ends
/// without an error and without a round of its body.
pub proof fn lemma_for_in_ends_at_nil<H: SystemHost>(
    h: H,
    s: RuntimeModel,
    for_in: Node<ForIn>,
    iterator: ObjectRef,
    next: MethodModel,
    rounds: nat,
    budget: nat,
)
    requires
        rounds > 0,
        ({
            let (after, item) = semantics::call_method(h, s, iterator, next, Seq::empty(), budget);
            item == Ok::<ObjectRef, ErrorModel>(after.builtins.nil)
        }),
    ensures
        semantics::for_rounds(h, s, for_in, iterator, next, rounds, budget) == (
            semantics::call_method(h, s, iterator, next, Seq::empty(), budget).0,
            Ok::<(), ErrorModel>(()),
        ),
{
}

/// The iterator of an empty list is exhausted at once: `next` yields `nil`
/// and changes nothing.
pub proof fn lemma_empty_list_has_no_items<H: SystemHost>(
    h: H,
    s: RuntimeModel,
    list: ObjectRef,
    name: Seq<char>,
    budget: nat,
)
    requires
        s.object(list).array() == Some(Seq::<ObjectRef>::empty()),
        s.heap.len() < usize::MAX,
    ensures
        ({
            let (made, iterator) = builtin_call(h, s, Builtin::ArrayIter, list, name, Seq::empty(), budget);
            &&& iterator == Ok::<ObjectRef, ErrorModel>(s.next_ref())
            &&& builtin_call(h, made, Builtin::ArrayIterNext, s.next_ref(), name, Seq::empty(), budget)
                == (made, Ok::<ObjectRef, ErrorModel>(s.builtins.nil))
        }),
{
    let (made, iterator) = builtin_call(h, s, Builtin::ArrayIter, list, name, Seq::empty(), budget);
    assert(Seq::<ObjectRef>::empty().reverse() =~= Seq::<ObjectRef>::empty());
    assert(s.next_ref().id == s.heap.len());
}

} // verus!
