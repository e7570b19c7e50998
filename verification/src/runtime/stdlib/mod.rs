//! The standard library: the methods of the built-in classes.
//!
//! The library implements the methods that work on objects, texts and
//! lists. The methods that compute with numbers or print are the host's:
//! they are registered under the numbers in [`function`].

use crate::runtime::builtin;
use crate::runtime::closure::{lemma_names_push, names_view};
use crate::runtime::error::{Error, ErrorModel, Outcome};
use crate::runtime::host::{error_ok, outcome, outcome_ok, SystemHost};
use crate::runtime::model::RuntimeModel;
use crate::runtime::object::{ObjectRef, Primitive, PrimitiveModel};
use crate::runtime::semantics;
use crate::runtime::table::{Table, TableModel};
use crate::runtime::Runtime;
use crate::text::{join3, trim};
use vstd::prelude::*;
use vstd::string::StringExecFns;

pub mod function;
pub mod register;

verus! {

/// A method of the standard library that the library implements.
#[derive(Debug, Copy, Clone, PartialEq, Eq, Structural)]
pub enum Builtin {
    ObjectDebug,
    ObjectEq,
    ObjectNeq,
    ObjectToS,
    ClassToS,
    NilInit,
    NilToS,
    BoolNot,
    BoolInit,
    BoolToS,
    StringInit,
    StringTrim,
    StringEq,
    StringNeq,
    StringAdd,
    StringToS,
    ArrayInit,
    ArrayPush,
    ArrayPop,
    ArrayAdd,
    ArrayToS,
    ArrayIter,
    ArrayIterNext,
    TupleToS,
    DictionaryInit,
    DictionaryIndex,
    DictionarySetIndex,
    DictionaryToS,
}

impl Builtin {
    /// The number of arguments that the method takes.
    pub open spec fn arity_spec(self) -> nat {
        match self {
            Builtin::ObjectEq => 1,
            Builtin::ObjectNeq => 1,
            Builtin::StringEq => 1,
            Builtin::StringNeq => 1,
            Builtin::StringAdd => 1,
            Builtin::ArrayPush => 1,
            Builtin::ArrayAdd => 1,
            Builtin::DictionaryIndex => 1,
            Builtin::DictionarySetIndex => 2,
            _ => 0,
        }
    }

    /// The number of arguments that the method takes.
    pub fn arity(self) -> (n: usize)
        ensures
            n == self.arity_spec(),
    {
        match self {
            Builtin::ObjectEq => 1,
            Builtin::ObjectNeq => 1,
            Builtin::StringEq => 1,
            Builtin::StringNeq => 1,
            Builtin::StringAdd => 1,
            Builtin::ArrayPush => 1,
            Builtin::ArrayAdd => 1,
            Builtin::DictionaryIndex => 1,
            Builtin::DictionarySetIndex => 2,
            _ => 0,
        }
    }
}

/// The error of `pop` on an empty list.
pub const POP_FROM_EMPTY: &'static str = "pop from empty list";

/// What `to_s` yields for an object of a class without its own `to_s`.
pub const OBJECT_TEXT: &'static str = "Object()";

/// What `to_s` yields for `nil`.
pub const NIL_TEXT: &'static str = "nil";

/// What `to_s` yields for `true`.
pub const TRUE_TEXT: &'static str = "true";

/// What `to_s` yields for `false`.
pub const FALSE_TEXT: &'static str = "false";

/// The error of a method that got an object of the wrong class.
pub open spec fn type_mismatch(s: RuntimeModel, expected: Seq<char>, object: ObjectRef) -> ErrorModel {
    ErrorModel::TypeMismatch { expected, class: s.display_name(s.class_of(object)) }
}

/// The error of a method that got the wrong number of arguments.
pub open spec fn arity_mismatch(
    s: RuntimeModel,
    this: ObjectRef,
    name: Seq<char>,
    expected: nat,
    actual: nat,
) -> ErrorModel {
    ErrorModel::ArityMismatch {
        class_name: s.display_name(s.class_of(this)),
        method_name: name,
        expected: expected as usize,
        actual: actual as usize,
    }
}

/// The texts joined, with the separator between each two.
pub open spec fn join(texts: Seq<Seq<char>>, separator: Seq<char>) -> Seq<char>
    decreases texts.len(),
{
    if texts.len() == 0 {
        Seq::empty()
    } else if texts.len() == 1 {
        texts[0]
    } else {
        join(texts.drop_last(), separator) + separator + texts.last()
    }
}

/// The texts that `to_s` yields for the objects from place `i` on, added
/// to `done`. An object whose `to_s` yields no string is an error.
pub open spec fn texts_of<H: SystemHost>(
    h: H,
    s: RuntimeModel,
    objects: Seq<ObjectRef>,
    i: nat,
    done: Seq<Seq<char>>,
    budget: nat,
) -> (RuntimeModel, Result<Seq<Seq<char>>, ErrorModel>)
    decreases budget, 2nat, objects.len() - i,
{
    if i >= objects.len() {
        (s, Ok(done))
    } else {
        let (s, r) = semantics::call_instance_method(
            h,
            s,
            objects[i as int],
            builtin::method::to_s@,
            Seq::empty(),
            None,
            budget,
        );
        match r {
            Err(error) => (s, Err(error)),
            Ok(text) => match s.object(text).string() {
                Some(value) => texts_of(h, s, objects, i + 1, done.push(value), budget),
                None => (s, Err(type_mismatch(s, builtin::class::String@, text))),
            },
        }
    }
}

/// The text that shows the objects: what `to_s` yields for each, with the
/// separator between each two.
pub open spec fn objects_to_text<H: SystemHost>(
    h: H,
    s: RuntimeModel,
    objects: Seq<ObjectRef>,
    separator: Seq<char>,
    budget: nat,
) -> (RuntimeModel, Result<Seq<char>, ErrorModel>)
    decreases budget, 3nat, 0nat,
{
    let (s, r) = texts_of(h, s, objects, 0, Seq::empty(), budget);
    match r {
        Ok(texts) => (s, Ok(join(texts, separator))),
        Err(error) => (s, Err(error)),
    }
}

/// The string object for a text.
pub open spec fn text_object(s: RuntimeModel, text: Seq<char>) -> (RuntimeModel, Outcome) {
    let (s, r) = s.create_string(text);
    (s, Ok(r))
}

/// `Array.to_s` and `Tuple.to_s`: the items between brackets, separated by
/// commas. A tuple of one item shows a comma after it.
pub open spec fn list_to_s<H: SystemHost>(
    h: H,
    s: RuntimeModel,
    this: ObjectRef,
    tuple: bool,
    budget: nat,
) -> (RuntimeModel, Outcome)
    decreases budget, 4nat, 0nat,
{
    match s.object(this).array() {
        None => (
            s,
            Err(
                type_mismatch(
                    s,
                    if tuple {
                        builtin::class::Tuple@
                    } else {
                        builtin::class::Array@
                    },
                    this,
                ),
            ),
        ),
        Some(items) => {
            let (s, r) = objects_to_text(h, s, items, ", "@, budget);
            match r {
                Err(error) => (s, Err(error)),
                Ok(inner) => if tuple {
                    text_object(
                        s,
                        "("@ + inner + (if items.len() == 1 {
                            ","@
                        } else {
                            ""@
                        }) + ")"@,
                    )
                } else {
                    text_object(s, "["@ + inner + "]"@)
                },
            }
        },
    }
}

/// `String.__eq__`: whether the argument is of the receiver's class and
/// holds the same text.
pub open spec fn string_eq(s: RuntimeModel, this: ObjectRef, other: ObjectRef) -> Result<bool, ErrorModel> {
    if s.class_of(other) != s.class_of(this) {
        Ok(false)
    } else {
        match (s.object(this).string(), s.object(other).string()) {
            (Some(a), Some(b)) => Ok(a == b),
            (None, _) => Err(type_mismatch(s, builtin::class::String@, this)),
            (_, None) => Err(type_mismatch(s, builtin::class::String@, other)),
        }
    }
}

/// `String.__add__`: the receiver's text followed by what `to_s` yields
/// for the argument.
pub open spec fn string_add<H: SystemHost>(
    h: H,
    s: RuntimeModel,
    this: ObjectRef,
    other: ObjectRef,
    budget: nat,
) -> (RuntimeModel, Outcome)
    decreases budget, 4nat, 0nat,
{
    let (s, r) = semantics::call_instance_method(
        h,
        s,
        other,
        builtin::method::to_s@,
        Seq::empty(),
        None,
        budget,
    );
    match r {
        Err(error) => (s, Err(error)),
        Ok(text) => match (s.object(this).string(), s.object(text).string()) {
            (Some(a), Some(b)) => text_object(s, a + b),
            (None, _) => (s, Err(type_mismatch(s, builtin::class::String@, this))),
            (_, None) => (s, Err(type_mismatch(s, builtin::class::String@, text))),
        },
    }
}

/// `Array.__add__`: a new list of the receiver's items followed by the
/// argument's.
pub open spec fn array_add(s: RuntimeModel, this: ObjectRef, other: ObjectRef) -> (RuntimeModel, Outcome) {
    if s.class_of(other) != s.builtins.Array {
        (s, Err(type_mismatch(s, builtin::class::Array@, other)))
    } else {
        match (s.object(this).array(), s.object(other).array()) {
            (Some(a), Some(b)) => {
                let (s, r) = s.create_array(a + b);
                (s, Ok(r))
            },
            (None, _) => (s, Err(type_mismatch(s, builtin::class::Array@, this))),
            (_, None) => (s, Err(type_mismatch(s, builtin::class::Array@, other))),
        }
    }
}

/// `Array.iter`: a new iterator that holds the receiver's items.
pub open spec fn array_iter(s: RuntimeModel, this: ObjectRef) -> (RuntimeModel, Outcome) {
    match s.object(this).array() {
        Some(items) => {
            let (s, r) = s.create_with_primitive(
                s.builtins.ArrayIter,
                PrimitiveModel::Array(items.reverse()),
            );
            (s, Ok(r))
        },
        None => (s, Err(type_mismatch(s, builtin::class::Array@, this))),
    }
}

/// `ArrayIter.next`: the next item, or `nil` when there is none left.
pub open spec fn array_iter_next(s: RuntimeModel, this: ObjectRef) -> (RuntimeModel, Outcome) {
    match s.object(this).array() {
        Some(_) => {
            let (s, r) = s.array_pop(this);
            match r {
                Some(item) => (s, Ok(item)),
                None => (s, Ok(s.builtins.nil)),
            }
        },
        None => (s, Err(type_mismatch(s, builtin::class::ArrayIter@, this))),
    }
}

/// `Dictionary.__index__`: the value under the key, or `nil`.
pub open spec fn dictionary_index(s: RuntimeModel, this: ObjectRef, key: ObjectRef) -> (
    RuntimeModel,
    Outcome,
) {
    if s.class_of(key) != s.builtins.String {
        (s, Err(type_mismatch(s, builtin::class::String@, key)))
    } else {
        match (s.object(key).string(), s.object(this).dictionary()) {
            (Some(text), Some(table)) => match table.get(text) {
                Some(value) => (s, Ok(value)),
                None => (s, Ok(s.builtins.nil)),
            },
            (None, _) => (s, Err(type_mismatch(s, builtin::class::String@, key))),
            (_, None) => (s, Err(type_mismatch(s, builtin::class::Dictionary@, this))),
        }
    }
}

/// `Dictionary.__set_index__`: stores the value under the key and yields
/// `nil`.
pub open spec fn dictionary_set_index(s: RuntimeModel, this: ObjectRef, key: ObjectRef, value: ObjectRef) -> (
    RuntimeModel,
    Outcome,
) {
    if s.class_of(key) != s.builtins.String {
        (s, Err(type_mismatch(s, builtin::class::String@, key)))
    } else {
        match (s.object(key).string(), s.object(this).dictionary()) {
            (Some(text), Some(_)) => (s.dictionary_insert(this, text, value).0, Ok(s.builtins.nil)),
            (None, _) => (s, Err(type_mismatch(s, builtin::class::String@, key))),
            (_, None) => (s, Err(type_mismatch(s, builtin::class::Dictionary@, this))),
        }
    }
}

/// The line that shows one entry of a dictionary.
pub open spec fn entry_line(name: Seq<char>, value: Seq<char>) -> Seq<char> {
    "    "@ + name + ": "@ + value + ","@
}

/// The lines that show the entries of a dictionary from place `i` on,
/// added to `done`: for each name, in the order in which the names came,
/// the name and what `to_s` yields for the value.
pub open spec fn dictionary_lines<H: SystemHost>(
    h: H,
    s: RuntimeModel,
    table: TableModel,
    i: nat,
    done: Seq<Seq<char>>,
    budget: nat,
) -> (RuntimeModel, Result<Seq<Seq<char>>, ErrorModel>)
    decreases budget, 2nat, table.names.len() - i,
{
    if i >= table.names.len() {
        (s, Ok(done))
    } else {
        match table.get(table.names[i as int]) {
            None => dictionary_lines(h, s, table, i + 1, done, budget),
            Some(value) => {
                let (s, r) = semantics::call_instance_method(
                    h,
                    s,
                    value,
                    builtin::method::to_s@,
                    Seq::empty(),
                    None,
                    budget,
                );
                match r {
                    Err(error) => (s, Err(error)),
                    Ok(text) => match s.object(text).string() {
                        Some(shown) => dictionary_lines(
                            h,
                            s,
                            table,
                            i + 1,
                            done.push(entry_line(table.names[i as int], shown)),
                            budget,
                        ),
                        None => (s, Err(type_mismatch(s, builtin::class::String@, text))),
                    },
                }
            },
        }
    }
}

/// `Dictionary.to_s`: the entries between brackets, one to a line; an empty
/// dictionary shows a colon between the brackets.
pub open spec fn dictionary_to_s<H: SystemHost>(h: H, s: RuntimeModel, this: ObjectRef, budget: nat) -> (
    RuntimeModel,
    Outcome,
)
    decreases budget, 4nat, 0nat,
{
    match s.object(this).dictionary() {
        None => (s, Err(type_mismatch(s, builtin::class::Dictionary@, this))),
        Some(table) => {
            let (s, r) = dictionary_lines(h, s, table, 0, Seq::empty(), budget);
            match r {
                Err(error) => (s, Err(error)),
                Ok(lines) => if lines.len() == 0 {
                    text_object(s, "[:]"@)
                } else {
                    text_object(s, "[\n"@ + join(lines, "\n"@) + "\n]"@)
                },
            }
        },
    }
}

/// What a method of the standard library does. A call with the wrong
/// number of arguments is an `ArityMismatch`; a receiver or an argument
/// that does not hold what the method works on is a `TypeMismatch`.
pub open spec fn builtin_call<H: SystemHost>(
    h: H,
    s: RuntimeModel,
    function: Builtin,
    this: ObjectRef,
    name: Seq<char>,
    arguments: Seq<ObjectRef>,
    budget: nat,
) -> (RuntimeModel, Outcome)
    decreases budget, 5nat, 0nat,
{
    if arguments.len() != function.arity_spec() {
        (s, Err(arity_mismatch(s, this, name, function.arity_spec(), arguments.len())))
    } else {
        match function {
            Builtin::ObjectDebug => text_object(s, semantics::debug_text(s, this)),
            Builtin::ObjectEq => (s, Ok(s.create_bool(this == arguments[0]))),
            Builtin::ObjectNeq => (s, Ok(s.create_bool(this != arguments[0]))),
            Builtin::ObjectToS => text_object(s, OBJECT_TEXT@),
            Builtin::ClassToS => text_object(s, s.display_name(this)),
            Builtin::NilInit => (
                s,
                Err(ErrorModel::IllegalConstructorCall { class: s.display_name(s.class_of(this)) }),
            ),
            Builtin::NilToS => text_object(s, NIL_TEXT@),
            Builtin::BoolNot => (s, Ok(s.create_bool(this == s.builtins.bool_false))),
            Builtin::BoolInit => (s.set_primitive(this, PrimitiveModel::Boolean(false)), Ok(this)),
            Builtin::BoolToS => match s.object(this).boolean() {
                Some(value) => text_object(
                    s,
                    if value {
                        TRUE_TEXT@
                    } else {
                        FALSE_TEXT@
                    },
                ),
                None => (s, Err(type_mismatch(s, builtin::class::Bool@, this))),
            },
            Builtin::StringInit => (
                s.set_primitive(this, PrimitiveModel::String(Seq::empty())),
                Ok(this),
            ),
            Builtin::StringTrim => match s.object(this).string() {
                Some(text) => text_object(s, crate::text::trimmed(text)),
                None => (s, Err(type_mismatch(s, builtin::class::String@, this))),
            },
            Builtin::StringEq => match string_eq(s, this, arguments[0]) {
                Ok(same) => (s, Ok(s.create_bool(same))),
                Err(error) => (s, Err(error)),
            },
            Builtin::StringNeq => match string_eq(s, this, arguments[0]) {
                Ok(same) => (s, Ok(s.create_bool(!same))),
                Err(error) => (s, Err(error)),
            },
            Builtin::StringAdd => string_add(h, s, this, arguments[0], budget),
            Builtin::StringToS => (s, Ok(this)),
            Builtin::ArrayInit => (
                s.set_primitive(this, PrimitiveModel::Array(Seq::empty())),
                Ok(this),
            ),
            Builtin::ArrayPush => {
                let (s1, done) = s.array_push(this, arguments[0]);
                if done {
                    (s1, Ok(s.builtins.nil))
                } else {
                    (s, Err(type_mismatch(s, builtin::class::Array@, this)))
                }
            },
            Builtin::ArrayPop => match s.object(this).array() {
                Some(_) => {
                    let (s, r) = s.array_pop(this);
                    match r {
                        Some(item) => (s, Ok(item)),
                        None => (s, Err(ErrorModel::Index { error: POP_FROM_EMPTY@ })),
                    }
                },
                None => (s, Err(type_mismatch(s, builtin::class::Array@, this))),
            },
            Builtin::ArrayAdd => array_add(s, this, arguments[0]),
            Builtin::ArrayToS => list_to_s(h, s, this, false, budget),
            Builtin::ArrayIter => array_iter(s, this),
            Builtin::ArrayIterNext => array_iter_next(s, this),
            Builtin::TupleToS => list_to_s(h, s, this, true, budget),
            Builtin::DictionaryInit => (
                s.set_primitive(this, PrimitiveModel::Dictionary(TableModel::empty())),
                Ok(this),
            ),
            Builtin::DictionaryIndex => dictionary_index(s, this, arguments[0]),
            Builtin::DictionarySetIndex => dictionary_set_index(
                s,
                this,
                arguments[0],
                arguments[1],
            ),
            Builtin::DictionaryToS => dictionary_to_s(h, s, this, budget),
        }
    }
}

} // verus!

verus! {

/// The texts joined, with the separator between each two.
pub fn join_texts(texts: &Vec<String>, separator: &str) -> (r: String)
    ensures
        r@ == join(names_view(texts@), separator@),
{
    let ghost views = names_view(texts@);
    let mut r = String::new();
    let mut i: usize = 0;
    while i < texts.len()
        invariant
            i <= texts.len(),
            views == names_view(texts@),
            r@ == join(views.take(i as int), separator@),
        decreases texts.len() - i,
    {
        proof {
            assert(views.take(i + 1).drop_last() =~= views.take(i as int));
            assert(views.take(i + 1).last() == texts@[i as int]@);
            if i == 0 {
                assert(views.take(1)[0] == texts@[0]@);
                assert(Seq::<char>::empty() + texts@[0]@ =~= texts@[0]@);
            }
        }
        if i > 0 {
            r.append(separator);
        }
        r.append(texts[i].as_str());
        i = i + 1;
    }
    proof {
        assert(views.take(i as int) =~= views);
    }
    r
}

impl Runtime {
    /// The error of a method that got an object of the wrong class.
    fn type_mismatch(&self, expected: &str, object: ObjectRef) -> (e: Error)
        requires
            self.wf(),
            self@.contains(object),
        ensures
            e@ == type_mismatch(self@, expected@, object),
    {
        Error::TypeMismatch {
            expected: expected.to_owned(),
            class: self.display_name(self.class_of(object)),
        }
    }

    /// The string object for a text.
    fn text_object(&mut self, text: &str) -> (r: Result<ObjectRef, Error>)
        requires
            old(self).wf(),
        ensures
            final(self).wf(),
            old(self)@.grows_to(final(self)@),
            outcome_ok(final(self)@, outcome(r)),
            (final(self)@, outcome(r)) == text_object(old(self)@, text@),
    {
        Ok(self.create_string(text))
    }

    /// The text of `object` if it holds one.
    pub fn string_of(&self, object: ObjectRef) -> (r: Option<String>)
        requires
            self@.contains(object),
        ensures
            r is Some == self@.object(object).string() is Some,
            r is Some ==> r.unwrap()@ == self@.object(object).string().unwrap(),
    {
        match self.object(object).string() {
            Some(text) => Some(text.clone()),
            None => None,
        }
    }

    /// The text that shows the objects: what `to_s` yields for each, with
    /// the separator between each two. An object whose `to_s` yields no
    /// string is a `TypeMismatch`.
    pub fn objects_to_text<H: SystemHost>(
        &mut self,
        host: &H,
        objects: &Vec<ObjectRef>,
        separator: &str,
        budget: usize,
    ) -> (r: Result<String, Error>)
        requires
            old(self).wf(),
            old(self)@.contains_all(objects@),
        ensures
            final(self).wf(),
            old(self)@.grows_to(final(self)@),
            match r {
                Ok(text) => objects_to_text(*host, old(self)@, objects@, separator@, budget as nat) == (
                    final(self)@,
                    Ok::<Seq<char>, ErrorModel>(text@),
                ),
                Err(error) => error_ok(final(self)@, error@) && objects_to_text(
                    *host,
                    old(self)@,
                    objects@,
                    separator@,
                    budget as nat,
                ) == (final(self)@, Err::<Seq<char>, ErrorModel>(error@)),
            },
        decreases budget, 3nat, 0nat,
    {
        let mut texts: Vec<String> = Vec::new();
        let mut i: usize = 0;
        proof {
            assert(names_view(texts@) =~= Seq::<Seq<char>>::empty());
        }
        while i < objects.len()
            invariant
                self.wf(),
                i <= objects.len(),
                old(self)@.grows_to(self@),
                old(self)@.contains_all(objects@),
                texts_of(
                    *host,
                    self@,
                    objects@,
                    i as nat,
                    names_view(texts@),
                    budget as nat,
                ) == texts_of(*host, old(self)@, objects@, 0, Seq::empty(), budget as nat),
            decreases objects.len() - i,
        {
            let text = match self.call_instance_method(
                host,
                objects[i],
                builtin::method::to_s,
                Vec::new(),
                None,
                budget,
            ) {
                Ok(text) => text,
                Err(error) => {
                    return Err(error);
                },
            };
            match self.string_of(text) {
                Some(value) => {
                    proof {
                        lemma_names_push(texts@, value);
                        assert(names_view(texts@) + seq![value@]
                            =~= names_view(texts@).push(value@));
                    }
                    texts.push(value);
                },
                None => {
                    return Err(self.type_mismatch(builtin::class::String, text));
                },
            }
            i = i + 1;
        }
        Ok(join_texts(&texts, separator))
    }

    /// `Array.to_s` and `Tuple.to_s`.
    fn list_to_s<H: SystemHost>(&mut self, host: &H, this: ObjectRef, tuple: bool, budget: usize) -> (r:
        Result<ObjectRef, Error>)
        requires
            old(self).wf(),
            old(self)@.contains(this),
        ensures
            final(self).wf(),
            old(self)@.grows_to(final(self)@),
            outcome_ok(final(self)@, outcome(r)),
            (final(self)@, outcome(r)) == list_to_s(*host, old(self)@, this, tuple, budget as nat),
        decreases budget, 4nat, 0nat,
    {
        let items = match self.array_items(this) {
            Some(items) => items,
            None => {
                return Err(
                    self.type_mismatch(
                        if tuple {
                            builtin::class::Tuple
                        } else {
                            builtin::class::Array
                        },
                        this,
                    ),
                );
            },
        };
        let inner = match self.objects_to_text(host, &items, ", ", budget) {
            Ok(inner) => inner,
            Err(error) => {
                return Err(error);
            },
        };
        if tuple {
            let mut text = "(".to_owned();
            text.append(inner.as_str());
            text.append(
                if items.len() == 1 {
                    ","
                } else {
                    ""
                },
            );
            text.append(")");
            self.text_object(text.as_str())
        } else {
            let text = join3("[", inner.as_str(), "]");
            self.text_object(text.as_str())
        }
    }

    /// `String.__eq__`.
    fn string_eq(&self, this: ObjectRef, other: ObjectRef) -> (r: Result<bool, Error>)
        requires
            self.wf(),
            self@.contains(this),
            self@.contains(other),
        ensures
            match r {
                Ok(same) => string_eq(self@, this, other) == Ok::<bool, ErrorModel>(same),
                Err(error) => string_eq(self@, this, other) == Err::<bool, ErrorModel>(error@),
            },
    {
        if self.class_of(other) != self.class_of(this) {
            return Ok(false);
        }
        match (self.object(this).string(), self.object(other).string()) {
            (Some(a), Some(b)) => Ok(*a == *b),
            (None, _) => Err(self.type_mismatch(builtin::class::String, this)),
            (_, None) => Err(self.type_mismatch(builtin::class::String, other)),
        }
    }

    /// `String.__add__`.
    fn string_add<H: SystemHost>(&mut self, host: &H, this: ObjectRef, other: ObjectRef, budget: usize) -> (r:
        Result<ObjectRef, Error>)
        requires
            old(self).wf(),
            old(self)@.contains(this),
            old(self)@.contains(other),
        ensures
            final(self).wf(),
            old(self)@.grows_to(final(self)@),
            outcome_ok(final(self)@, outcome(r)),
            (final(self)@, outcome(r)) == string_add(*host, old(self)@, this, other, budget as nat),
        decreases budget, 4nat, 0nat,
    {
        let text = match self.call_instance_method(
            host,
            other,
            builtin::method::to_s,
            Vec::new(),
            None,
            budget,
        ) {
            Ok(text) => text,
            Err(error) => {
                return Err(error);
            },
        };
        match (self.string_of(this), self.string_of(text)) {
            (Some(a), Some(b)) => {
                let mut joined = a;
                joined.append(b.as_str());
                self.text_object(joined.as_str())
            },
            (None, _) => Err(self.type_mismatch(builtin::class::String, this)),
            (_, None) => Err(self.type_mismatch(builtin::class::String, text)),
        }
    }

    /// `Array.__add__`.
    fn array_add(&mut self, this: ObjectRef, other: ObjectRef) -> (r: Result<ObjectRef, Error>)
        requires
            old(self).wf(),
            old(self)@.contains(this),
            old(self)@.contains(other),
        ensures
            final(self).wf(),
            old(self)@.grows_to(final(self)@),
            outcome_ok(final(self)@, outcome(r)),
            (final(self)@, outcome(r)) == array_add(old(self)@, this, other),
    {
        if self.class_of(other) != self.builtins().Array {
            return Err(self.type_mismatch(builtin::class::Array, other));
        }
        match (self.array_items(this), self.array_items(other)) {
            (Some(a), Some(b)) => {
                let mut items = a;
                let mut i: usize = 0;
                while i < b.len()
                    invariant
                        i <= b.len(),
                        items@ == a@ + b@.take(i as int),
                        self@.contains_all(a@),
                        self@.contains_all(b@),
                    decreases b.len() - i,
                {
                    items.push(b[i]);
                    proof {
                        assert(items@ =~= a@ + b@.take(i + 1));
                    }
                    i = i + 1;
                }
                proof {
                    assert(b@.take(i as int) =~= b@);
                }
                Ok(self.create_array(items))
            },
            (None, _) => Err(self.type_mismatch(builtin::class::Array, this)),
            (_, None) => Err(self.type_mismatch(builtin::class::Array, other)),
        }
    }

    /// `Array.iter`.
    fn array_iter(&mut self, this: ObjectRef) -> (r: Result<ObjectRef, Error>)
        requires
            old(self).wf(),
            old(self)@.contains(this),
        ensures
            final(self).wf(),
            old(self)@.grows_to(final(self)@),
            outcome_ok(final(self)@, outcome(r)),
            (final(self)@, outcome(r)) == array_iter(old(self)@, this),
    {
        match self.array_items(this) {
            Some(items) => {
                let mut reversed: Vec<ObjectRef> = Vec::new();
                let mut i: usize = items.len();
                while i > 0
                    invariant
                        i <= items.len(),
                        reversed.len() == items.len() - i,
                        forall|k: int|
                            0 <= k < reversed.len() ==> reversed@[k] == items@[items.len() - 1 - k],
                    decreases i,
                {
                    i = i - 1;
                    reversed.push(items[i]);
                }
                proof {
                    assert(reversed@ =~= items@.reverse());
                }
                let iterator = self.create_object(self.builtins().ArrayIter);
                self.set_primitive(iterator, Primitive::Array(reversed));
                Ok(iterator)
            },
            None => Err(self.type_mismatch(builtin::class::Array, this)),
        }
    }

    /// `ArrayIter.next`.
    fn array_iter_next(&mut self, this: ObjectRef) -> (r: Result<ObjectRef, Error>)
        requires
            old(self).wf(),
            old(self)@.contains(this),
        ensures
            final(self).wf(),
            old(self)@.grows_to(final(self)@),
            outcome_ok(final(self)@, outcome(r)),
            (final(self)@, outcome(r)) == array_iter_next(old(self)@, this),
    {
        if self.object(this).array().is_none() {
            return Err(self.type_mismatch(builtin::class::ArrayIter, this));
        }
        match self.array_pop(this) {
            Some(item) => Ok(item),
            None => Ok(self.nil()),
        }
    }

    /// `Dictionary.__index__`.
    fn dictionary_index(&mut self, this: ObjectRef, key: ObjectRef) -> (r: Result<ObjectRef, Error>)
        requires
            old(self).wf(),
            old(self)@.contains(this),
            old(self)@.contains(key),
        ensures
            final(self).wf(),
            old(self)@.grows_to(final(self)@),
            outcome_ok(final(self)@, outcome(r)),
            (final(self)@, outcome(r)) == dictionary_index(old(self)@, this, key),
    {
        if self.class_of(key) != self.builtins().String {
            return Err(self.type_mismatch(builtin::class::String, key));
        }
        proof {
            self@.lemma_object_ok(this);
        }
        match (self.object(key).string(), self.object(this).dictionary()) {
            (Some(text), Some(table)) => match table.get(text.as_str()) {
                Some(value) => Ok(value),
                None => Ok(self.nil()),
            },
            (None, _) => Err(self.type_mismatch(builtin::class::String, key)),
            (_, None) => Err(self.type_mismatch(builtin::class::Dictionary, this)),
        }
    }

    /// `Dictionary.__set_index__`.
    fn dictionary_set_index(&mut self, this: ObjectRef, key: ObjectRef, value: ObjectRef) -> (r: Result<
        ObjectRef,
        Error,
    >)
        requires
            old(self).wf(),
            old(self)@.contains(this),
            old(self)@.contains(key),
            old(self)@.contains(value),
        ensures
            final(self).wf(),
            old(self)@.grows_to(final(self)@),
            outcome_ok(final(self)@, outcome(r)),
            (final(self)@, outcome(r)) == dictionary_set_index(old(self)@, this, key, value),
    {
        if self.class_of(key) != self.builtins().String {
            return Err(self.type_mismatch(builtin::class::String, key));
        }
        match self.string_of(key) {
            None => Err(self.type_mismatch(builtin::class::String, key)),
            Some(text) => {
                if self.dictionary_insert(this, text, value) {
                    Ok(self.nil())
                } else {
                    Err(self.type_mismatch(builtin::class::Dictionary, this))
                }
            },
        }
    }

    /// `Dictionary.to_s`.
    fn dictionary_to_s<H: SystemHost>(&mut self, host: &H, this: ObjectRef, budget: usize) -> (r: Result<
        ObjectRef,
        Error,
    >)
        requires
            old(self).wf(),
            old(self)@.contains(this),
        ensures
            final(self).wf(),
            old(self)@.grows_to(final(self)@),
            outcome_ok(final(self)@, outcome(r)),
            (final(self)@, outcome(r)) == dictionary_to_s(*host, old(self)@, this, budget as nat),
        decreases budget, 4nat, 0nat,
    {
        let entries = match self.dictionary_entries(this) {
            Some(entries) => entries,
            None => {
                return Err(self.type_mismatch(builtin::class::Dictionary, this));
            },
        };
        let ghost table = self@.object(this).dictionary().unwrap();
        let mut lines: Vec<String> = Vec::new();
        let mut i: usize = 0;
        proof {
            assert(names_view(lines@) =~= Seq::<Seq<char>>::empty());
        }
        while i < entries.len()
            invariant
                self.wf(),
                i <= entries.len(),
                old(self)@.grows_to(self@),
                old(self)@.object(this).dictionary() == Some(table),
                entries.len() == table.names.len(),
                forall|k: int|
                    0 <= k < entries.len() ==> (#[trigger] entries@[k]).0@ == table.names[k]
                        && table.get(table.names[k]) == entries@[k].1 && (entries@[k].1 matches Some(
                        value,
                    ) ==> old(self)@.contains(value)),
                dictionary_lines(
                    *host,
                    self@,
                    table,
                    i as nat,
                    names_view(lines@),
                    budget as nat,
                ) == dictionary_lines(*host, old(self)@, table, 0, Seq::empty(), budget as nat),
            decreases entries.len() - i,
        {
            if let Some(value) = entries[i].1 {
                let text = match self.call_instance_method(
                    host,
                    value,
                    builtin::method::to_s,
                    Vec::new(),
                    None,
                    budget,
                ) {
                    Ok(text) => text,
                    Err(error) => {
                        return Err(error);
                    },
                };
                match self.string_of(text) {
                    Some(shown) => {
                        let mut line = join3("    ", entries[i].0.as_str(), ": ");
                        line.append(shown.as_str());
                        line.append(",");
                        proof {
                            lemma_names_push(lines@, line);
                            assert(names_view(lines@) + seq![line@]
                                =~= names_view(lines@).push(line@));
                        }
                        lines.push(line);
                    },
                    None => {
                        return Err(self.type_mismatch(builtin::class::String, text));
                    },
                }
            }
            i = i + 1;
        }
        if lines.len() == 0 {
            self.text_object("[:]")
        } else {
            let text = join3("[\n", join_texts(&lines, "\n").as_str(), "\n]");
            self.text_object(text.as_str())
        }
    }

    /// Runs a method of the standard library.
    pub fn call_builtin<H: SystemHost>(
        &mut self,
        host: &H,
        function: Builtin,
        this: ObjectRef,
        method_name: String,
        arguments: Vec<ObjectRef>,
        budget: usize,
    ) -> (r: Result<ObjectRef, Error>)
        requires
            old(self).wf(),
            old(self)@.contains(this),
            old(self)@.contains_all(arguments@),
        ensures
            final(self).wf(),
            old(self)@.grows_to(final(self)@),
            outcome_ok(final(self)@, outcome(r)),
            (final(self)@, outcome(r)) == builtin_call(
                *host,
                old(self)@,
                function,
                this,
                method_name@,
                arguments@,
                budget as nat,
            ),
        decreases budget, 5nat, 0nat,
    {
        if arguments.len() != function.arity() {
            return Err(
                Error::ArityMismatch {
                    class_name: self.display_name(self.class_of(this)),
                    method_name,
                    expected: function.arity(),
                    actual: arguments.len(),
                },
            );
        }
        match function {
            Builtin::ObjectDebug => {
                let text = self.debug_text(this);
                self.text_object(text.as_str())
            },
            Builtin::ObjectEq => Ok(self.create_bool(this == arguments[0])),
            Builtin::ObjectNeq => Ok(self.create_bool(this != arguments[0])),
            Builtin::ObjectToS => self.text_object(OBJECT_TEXT),
            Builtin::ClassToS => {
                let text = self.display_name(this);
                self.text_object(text.as_str())
            },
            Builtin::NilInit => Err(
                Error::IllegalConstructorCall { class: self.display_name(self.class_of(this)) },
            ),
            Builtin::NilToS => self.text_object(NIL_TEXT),
            Builtin::BoolNot => Ok(self.create_bool(this == self.builtins().bool_false)),
            Builtin::BoolInit => {
                self.set_primitive(this, Primitive::Boolean(false));
                Ok(this)
            },
            Builtin::BoolToS => match self.object(this).bool() {
                Some(value) => self.text_object(
                    if value {
                        TRUE_TEXT
                    } else {
                        FALSE_TEXT
                    },
                ),
                None => Err(self.type_mismatch(builtin::class::Bool, this)),
            },
            Builtin::StringInit => {
                self.set_primitive(this, Primitive::String(String::new()));
                Ok(this)
            },
            Builtin::StringTrim => match self.string_of(this) {
                Some(text) => {
                    let trimmed = trim(text.as_str());
                    self.text_object(trimmed.as_str())
                },
                None => Err(self.type_mismatch(builtin::class::String, this)),
            },
            Builtin::StringEq => match self.string_eq(this, arguments[0]) {
                Ok(same) => Ok(self.create_bool(same)),
                Err(error) => Err(error),
            },
            Builtin::StringNeq => match self.string_eq(this, arguments[0]) {
                Ok(same) => Ok(self.create_bool(!same)),
                Err(error) => Err(error),
            },
            Builtin::StringAdd => self.string_add(host, this, arguments[0], budget),
            Builtin::StringToS => Ok(this),
            Builtin::ArrayInit => {
                self.set_primitive(this, Primitive::Array(Vec::new()));
                Ok(this)
            },
            Builtin::ArrayPush => {
                if self.array_push(this, arguments[0]) {
                    Ok(self.nil())
                } else {
                    Err(self.type_mismatch(builtin::class::Array, this))
                }
            },
            Builtin::ArrayPop => {
                if self.object(this).array().is_none() {
                    return Err(self.type_mismatch(builtin::class::Array, this));
                }
                match self.array_pop(this) {
                    Some(item) => Ok(item),
                    None => Err(Error::Index { error: POP_FROM_EMPTY }),
                }
            },
            Builtin::ArrayAdd => self.array_add(this, arguments[0]),
            Builtin::ArrayToS => self.list_to_s(host, this, false, budget),
            Builtin::ArrayIter => self.array_iter(this),
            Builtin::ArrayIterNext => self.array_iter_next(this),
            Builtin::TupleToS => self.list_to_s(host, this, true, budget),
            Builtin::DictionaryInit => {
                self.set_primitive(this, Primitive::Dictionary(Table::new()));
                Ok(this)
            },
            Builtin::DictionaryIndex => self.dictionary_index(this, arguments[0]),
            Builtin::DictionarySetIndex => self.dictionary_set_index(
                this,
                arguments[0],
                arguments[1],
            ),
            Builtin::DictionaryToS => self.dictionary_to_s(host, this, budget),
        }
    }
}

} // verus!
