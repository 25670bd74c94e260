use crate::eval::builtin::builtin::{builtin_functions, spec_builtin_functions, table_view, BuiltinFunc};
use crate::eval::value::{bindings_view, clone_bindings, share, BuiltinFuncArgs, SpecValue, Value};
use crate::text::{
    lemma_text_less_irreflexive, lemma_text_less_total, lemma_text_less_transitive, text_less, text_order,
    TextOrder,
};
use std::rc::Rc;
use vstd::prelude::*;

verus! {

/// The first index at or after `from` whose name is `name` or comes after it in dictionary order:
/// the place where `name` stands or would stand.
pub open spec fn slot(bindings: Seq<(Seq<char>, SpecValue)>, name: Seq<char>, from: int) -> int
    decreases bindings.len() - from,
{
    if from < 0 || from >= bindings.len() {
        from
    } else if bindings[from].0 == name || text_less(name, bindings[from].0) {
        from
    } else {
        slot(bindings, name, from + 1)
    }
}

/// The value that `name` is bound to among `bindings`, if it is.
pub open spec fn bindings_get(bindings: Seq<(Seq<char>, SpecValue)>, name: Seq<char>) -> Option<SpecValue> {
    let i = slot(bindings, name, 0);
    if 0 <= i < bindings.len() && bindings[i].0 == name {
        Some(bindings[i].1)
    } else {
        None
    }
}

/// `bindings` with `name` bound to `value`: in place of its earlier value, or at its place in
/// dictionary order.
pub open spec fn bindings_put(
    bindings: Seq<(Seq<char>, SpecValue)>,
    name: Seq<char>,
    value: SpecValue,
) -> Seq<(Seq<char>, SpecValue)> {
    let i = slot(bindings, name, 0);
    if 0 <= i < bindings.len() && bindings[i].0 == name {
        bindings.update(i, (name, value))
    } else {
        bindings.insert(i, (name, value))
    }
}

/// The place where a name stands or would stand is within the bindings; what stands there
/// is the name, or comes after it.
pub proof fn lemma_slot_bounds(bindings: Seq<(Seq<char>, SpecValue)>, name: Seq<char>, from: int)
    requires
        0 <= from <= bindings.len(),
    ensures
        from <= slot(bindings, name, from) <= bindings.len(),
        slot(bindings, name, from) < bindings.len() ==> bindings[slot(bindings, name, from)].0 == name
            || text_less(name, bindings[slot(bindings, name, from)].0),
    decreases bindings.len() - from,
{
    if from < bindings.len() && !(bindings[from].0 == name || text_less(name, bindings[from].0)) {
        lemma_slot_bounds(bindings, name, from + 1);
    }
}

/// Whether bindings stand in dictionary order of their names, each name once.
pub open spec fn ordered(bindings: Seq<(Seq<char>, SpecValue)>) -> bool {
    forall|i: int, j: int|
        0 <= i < j < bindings.len() ==> text_less((#[trigger] bindings[i]).0, (#[trigger] bindings[j]).0)
}

/// Before the place where a name stands or would stand, every name comes before it.
proof fn lemma_before_slot(bindings: Seq<(Seq<char>, SpecValue)>, name: Seq<char>, from: int, i: int)
    requires
        0 <= from <= i < slot(bindings, name, from),
        from <= bindings.len(),
    ensures
        text_less(bindings[i].0, name),
    decreases bindings.len() - from,
{
    lemma_slot_bounds(bindings, name, from);
    if from < i {
        lemma_before_slot(bindings, name, from + 1, i);
    } else {
        assert(bindings[i].0.subrange(0, 0) =~= name.subrange(0, 0));
        lemma_text_less_total(bindings[i].0, name, 0);
    }
}

/// Binding keeps the order: bindings that stand in dictionary order, each name once, still
/// do after a name was bound among them.
pub proof fn lemma_put_keeps_order(bindings: Seq<(Seq<char>, SpecValue)>, name: Seq<char>, value: SpecValue)
    requires
        ordered(bindings),
    ensures
        ordered(bindings_put(bindings, name, value)),
{
    lemma_slot_bounds(bindings, name, 0);
    let place = slot(bindings, name, 0);
    let after = bindings_put(bindings, name, value);
    assert forall|i: int, j: int| 0 <= i < j < after.len() implies text_less(
        (#[trigger] after[i]).0,
        (#[trigger] after[j]).0,
    ) by {
        if place < bindings.len() && bindings[place].0 == name {
            assert(after[i].0 == bindings[i].0);
            assert(after[j].0 == bindings[j].0);
        } else {
            if j < place {
                assert(after[i] == bindings[i] && after[j] == bindings[j]);
            } else if j == place {
                assert(after[i] == bindings[i]);
                lemma_before_slot(bindings, name, 0, i);
            } else if i < place {
                assert(after[i] == bindings[i] && after[j] == bindings[j - 1]);
            } else if i == place {
                assert(after[j] == bindings[j - 1]);
                if place < j - 1 {
                    lemma_text_less_transitive(name, bindings[place].0, bindings[j - 1].0, 0);
                }
            } else {
                assert(after[i] == bindings[i - 1] && after[j] == bindings[j - 1]);
            }
        }
    }
}

/// After `name` was bound, it stands where it stood or would have stood before.
pub proof fn lemma_slot_after_put(
    bindings: Seq<(Seq<char>, SpecValue)>,
    name: Seq<char>,
    value: SpecValue,
    from: int,
)
    requires
        0 <= from <= slot(bindings, name, 0),
        slot(bindings, name, from) == slot(bindings, name, 0),
    ensures
        slot(bindings_put(bindings, name, value), name, from) == slot(bindings, name, 0),
        slot(bindings, name, 0) < bindings_put(bindings, name, value).len(),
        bindings_put(bindings, name, value)[slot(bindings, name, 0)] == (name, value),
    decreases slot(bindings, name, 0) - from,
{
    lemma_slot_bounds(bindings, name, 0);
    let place = slot(bindings, name, 0);
    let after = bindings_put(bindings, name, value);
    assert(place < after.len());
    assert(after[place] == (name, value));
    if from < place {
        lemma_slot_bounds(bindings, name, from);
        assert(after[from] == bindings[from]);
        assert(slot(bindings, name, from + 1) == slot(bindings, name, from));
        lemma_slot_after_put(bindings, name, value, from + 1);
    }
}

/// Binding is idempotent: to bind a name to a value once more changes nothing.
pub proof fn lemma_put_twice(bindings: Seq<(Seq<char>, SpecValue)>, name: Seq<char>, value: SpecValue)
    ensures
        bindings_put(bindings_put(bindings, name, value), name, value) == bindings_put(
            bindings,
            name,
            value,
        ),
{
    lemma_slot_bounds(bindings, name, 0);
    lemma_slot_after_put(bindings, name, value, 0);
    let once = bindings_put(bindings, name, value);
    assert(bindings_put(once, name, value) =~= once);
}

/// What was bound is found: a name stands for the value it was last bound to.
pub proof fn lemma_get_after_put(bindings: Seq<(Seq<char>, SpecValue)>, name: Seq<char>, value: SpecValue)
    ensures
        bindings_get(bindings_put(bindings, name, value), name) == Some(value),
{
    lemma_slot_bounds(bindings, name, 0);
    lemma_slot_after_put(bindings, name, value, 0);
}

/// The place of `other` from index `from` on, among bindings with one more at index `place`:
/// where it was, moved by one.
proof fn lemma_slot_shifted(
    bindings: Seq<(Seq<char>, SpecValue)>,
    entry: (Seq<char>, SpecValue),
    place: int,
    other: Seq<char>,
    from: int,
)
    requires
        0 <= place <= from <= bindings.len(),
    ensures
        slot(bindings.insert(place, entry), other, from + 1) == slot(bindings, other, from) + 1,
    decreases bindings.len() - from,
{
    let after = bindings.insert(place, entry);
    if from < bindings.len() {
        assert(after[from + 1] == bindings[from]);
        if !(bindings[from].0 == other || text_less(other, bindings[from].0)) {
            lemma_slot_shifted(bindings, entry, place, other, from + 1);
        }
    }
}

/// The place of `other` from index `from` on, among bindings of which the one at index
/// `place` was given another value: where it was.
proof fn lemma_slot_updated(
    bindings: Seq<(Seq<char>, SpecValue)>,
    value: SpecValue,
    place: int,
    other: Seq<char>,
    from: int,
)
    requires
        0 <= place < bindings.len(),
        0 <= from <= bindings.len(),
    ensures
        slot(bindings.update(place, (bindings[place].0, value)), other, from) == slot(bindings, other, from),
    decreases bindings.len() - from,
{
    let after = bindings.update(place, (bindings[place].0, value));
    if from < bindings.len() {
        assert(after[from].0 == bindings[from].0);
        if !(bindings[from].0 == other || text_less(other, bindings[from].0)) {
            lemma_slot_updated(bindings, value, place, other, from + 1);
        }
    }
}

/// To bind a name leaves what every other name is bound to as it was.
pub proof fn lemma_get_other_after_put(
    bindings: Seq<(Seq<char>, SpecValue)>,
    name: Seq<char>,
    value: SpecValue,
    other: Seq<char>,
)
    requires
        other != name,
    ensures
        bindings_get(bindings_put(bindings, name, value), other) == bindings_get(bindings, other),
{
    lemma_slot_bounds(bindings, name, 0);
    lemma_slot_bounds(bindings, other, 0);
    let place = slot(bindings, name, 0);
    let after = bindings_put(bindings, name, value);
    if place < bindings.len() && bindings[place].0 == name {
        lemma_slot_updated(bindings, value, place, other, 0);
        let q = slot(bindings, other, 0);
        if q < bindings.len() {
            assert(after[q].0 == bindings[q].0);
            if q != place {
                assert(after[q] == bindings[q]);
            }
        }
    } else {
        lemma_get_other_after_insert(bindings, name, value, other, 0);
    }
}

/// The same, where the name was not bound before: from index `from` on, which lies at or
/// before the place of the new binding.
proof fn lemma_get_other_after_insert(
    bindings: Seq<(Seq<char>, SpecValue)>,
    name: Seq<char>,
    value: SpecValue,
    other: Seq<char>,
    from: int,
)
    requires
        other != name,
        0 <= from <= slot(bindings, name, 0) <= bindings.len(),
        slot(bindings, name, from) == slot(bindings, name, 0),
        !(slot(bindings, name, 0) < bindings.len() && bindings[slot(bindings, name, 0)].0 == name),
    ensures
        ({
            let after = bindings.insert(slot(bindings, name, 0), (name, value));
            let found = slot(after, other, from);
            let before = slot(bindings, other, from);
            &&& 0 <= found <= after.len()
            &&& 0 <= before <= bindings.len()
            &&& (found < after.len() && after[found].0 == other) == (before < bindings.len()
                && bindings[before].0 == other)
            &&& found < after.len() && after[found].0 == other ==> after[found] == bindings[before]
        }),
    decreases slot(bindings, name, 0) - from,
{
    let place = slot(bindings, name, 0);
    let after = bindings.insert(place, (name, value));
    lemma_slot_bounds(bindings, name, 0);
    lemma_slot_bounds(bindings, other, from);
    lemma_slot_bounds(after, other, from);
    if from < place {
        assert(after[from] == bindings[from]);
        if !(bindings[from].0 == other || text_less(other, bindings[from].0)) {
            lemma_slot_bounds(bindings, name, from);
            assert(slot(bindings, name, from + 1) == slot(bindings, name, from));
            lemma_get_other_after_insert(bindings, name, value, other, from + 1);
        }
    } else {
        assert(after[place] == (name, value));
        if text_less(other, name) {
            if place < bindings.len() {
                assert(text_less(name, bindings[place].0));
                lemma_text_less_transitive(other, name, bindings[place].0, 0);
                if bindings[place].0 == other {
                    lemma_text_less_irreflexive(other, 0);
                }
            }
        } else {
            lemma_slot_shifted(bindings, (name, value), place, other, place);
            let before = slot(bindings, other, place);
            lemma_slot_bounds(bindings, other, place);
            if before < bindings.len() {
                assert(after[before + 1] == bindings[before]);
            }
        }
    }
}

/// Where `name` stands or would stand among `bindings`, and whether it stands there.
pub fn find_slot(bindings: &Vec<(String, Value)>, name: &str) -> (r: (usize, bool))
    ensures
        r.0 == slot(bindings_view(bindings@), name@, 0),
        r.0 <= bindings.len(),
        r.1 == (r.0 < bindings.len() && bindings@[r.0 as int].0@ == name@),
{
    let mut i: usize = 0;
    while i < bindings.len()
        invariant
            i <= bindings.len(),
            slot(bindings_view(bindings@), name@, i as int) == slot(bindings_view(bindings@), name@, 0),
        decreases bindings.len() - i,
    {
        match text_order(name, bindings[i].0.as_str()) {
            TextOrder::Same => {
                return (i, true);
            },
            TextOrder::Before => {
                return (i, false);
            },
            TextOrder::After => {},
        }
        i += 1;
    }
    (i, false)
}

/// The value that `name` is bound to among `bindings`, if it is.
pub fn get_binding<'a>(bindings: &'a Vec<(String, Value)>, name: &str) -> (r: Option<&'a Value>)
    ensures
        match r {
            Some(v) => bindings_get(bindings_view(bindings@), name@) == Some(v@),
            None => bindings_get(bindings_view(bindings@), name@) is None,
        },
{
    let (i, found) = find_slot(bindings, name);
    if found {
        Some(&bindings[i].1)
    } else {
        None
    }
}

/// Binds `name` to `value` among `bindings`.
pub fn put_binding(bindings: &mut Vec<(String, Value)>, name: String, value: Value)
    ensures
        bindings_view(final(bindings)@) == bindings_put(bindings_view(old(bindings)@), name@, value@),
{
    let (i, found) = find_slot(bindings, name.as_str());
    let ghost before = bindings_view(bindings@);
    let ghost n = name@;
    let ghost v = value@;
    if found {
        bindings[i] = (name, value);
        assert(bindings_view(bindings@) =~= before.update(i as int, (n, v)));
    } else {
        bindings.insert(i, (name, value));
        assert(bindings_view(bindings@) =~= before.insert(i as int, (n, v)));
    }
}

/// The bindings of the first `count` entries of a table of builtin functions, each name bound
/// to its function with no argument given yet.
pub open spec fn registered(table: Seq<(Seq<char>, nat)>, count: nat) -> Seq<(Seq<char>, SpecValue)>
    decreases count,
{
    if count == 0 {
        Seq::empty()
    } else {
        bindings_put(
            registered(table, (count - 1) as nat),
            table[count - 1].0,
            SpecValue::BuiltinFunc {
                name: table[count - 1].0,
                length: table[count - 1].1,
                curried: Seq::empty(),
            },
        )
    }
}

/// The bindings of builtin functions stand in dictionary order, each name once.
pub proof fn lemma_registered_ordered(table: Seq<(Seq<char>, nat)>, count: nat)
    ensures
        ordered(registered(table, count)),
    decreases count,
{
    if count > 0 {
        lemma_registered_ordered(table, (count - 1) as nat);
        lemma_put_keeps_order(
            registered(table, (count - 1) as nat),
            table[count - 1].0,
            SpecValue::BuiltinFunc {
                name: table[count - 1].0,
                length: table[count - 1].1,
                curried: Seq::empty(),
            },
        );
    }
}

/// The bindings that a root frame begins with: every builtin function under its name.
pub open spec fn root_bindings() -> Seq<(Seq<char>, SpecValue)> {
    registered(spec_builtin_functions(), spec_builtin_functions().len())
}

/// A frame of the environment: its own bindings, and the frame around it, if any.
///
/// [`Env::new`] and [`Env::set`] keep the bindings in dictionary order of their names, each
/// name once.
#[derive(Debug, PartialEq)]
pub struct Env {
    pub variables: Vec<(String, Value)>,
    pub parent: Option<Rc<Env>>,
}

/// The mathematical value of an [`Env`].
pub struct SpecEnv {
    pub variables: Seq<(Seq<char>, SpecValue)>,
    pub parent: Option<Box<SpecEnv>>,
}

/// The value that `name` stands for in `env`: that of the innermost frame that binds it.
pub open spec fn lookup(env: SpecEnv, name: Seq<char>) -> Option<SpecValue>
    decreases env,
{
    match bindings_get(env.variables, name) {
        Some(v) => Some(v),
        None => match env.parent {
            Some(p) => lookup(*p, name),
            None => None,
        },
    }
}

/// `env` with `name` bound to `value` in its innermost frame; this is what [`Env::set`] does.
pub open spec fn bind(env: SpecEnv, name: Seq<char>, value: SpecValue) -> SpecEnv {
    SpecEnv { variables: bindings_put(env.variables, name, value), parent: env.parent }
}

/// The value of an optional frame.
pub open spec fn parent_view(parent: Option<Rc<Env>>) -> Option<Box<SpecEnv>>
    decreases parent,
{
    match parent {
        Some(p) => Some(Box::new((*p).view())),
        None => None,
    }
}

impl Env {
    pub open spec fn view(&self) -> SpecEnv
        decreases self,
    {
        SpecEnv { variables: bindings_view(self.variables@), parent: parent_view(self.parent) }
    }

    /// A new frame inside `parent`. Without a parent it is a root frame, and holds every builtin
    /// function under its name; with one it holds nothing.
    pub fn new(parent: Option<Rc<Env>>) -> (env: Env)
        ensures
            env@.parent == parent_view(parent),
            env@.variables == if parent is None {
                root_bindings()
            } else {
                Seq::<(Seq<char>, SpecValue)>::empty()
            },
            ordered(env@.variables),
    {
        let mut variables: Vec<(String, Value)> = Vec::new();
        assert(bindings_view(variables@) =~= Seq::empty());
        if parent.is_none() {
            let table = builtin_functions();
            let mut i: usize = 0;
            while i < table.len()
                invariant
                    i <= table.len(),
                    table_view(table@) == spec_builtin_functions(),
                    bindings_view(variables@) == registered(spec_builtin_functions(), i as nat),
                decreases table.len() - i,
            {
                let curried: Vec<Value> = Vec::new();
                let func = Value::BuiltinFunc {
                    name: table[i].name.clone(),
                    args: BuiltinFuncArgs { length: table[i].args_len, curried },
                };
                assert(func@ == SpecValue::BuiltinFunc {
                    name: table@[i as int].name@,
                    length: table@[i as int].args_len as nat,
                    curried: Seq::empty(),
                }) by {
                    assert(func@->BuiltinFunc_curried =~= Seq::empty());
                }
                assert(table_view(table@)[i as int] == table@[i as int]@);
                put_binding(&mut variables, table[i].name.clone(), func);
                i += 1;
            }
            assert(table_view(table@).len() == table.len());
            proof {
                lemma_registered_ordered(spec_builtin_functions(), spec_builtin_functions().len());
            }
        }
        Env { variables, parent }
    }

    /// Binds `name` to `value` in this frame, in place of what it was bound to here before.
    /// The frames around are left as they are.
    pub fn set(&mut self, name: String, value: Value)
        ensures
            final(self)@ == bind(old(self)@, name@, value@),
            ordered(old(self)@.variables) ==> ordered(final(self)@.variables),
    {
        proof {
            if ordered(self@.variables) {
                lemma_put_keeps_order(self@.variables, name@, value@);
            }
        }
        put_binding(&mut self.variables, name, value);
    }

    /// The value that `name` stands for: that of the innermost frame that binds it.
    pub fn get(&self, name: &str) -> (r: Option<&Value>)
        ensures
            match r {
                Some(v) => lookup(self@, name@) == Some(v@),
                None => lookup(self@, name@) is None,
            },
        decreases self,
    {
        match get_binding(&self.variables, name) {
            Some(v) => Some(v),
            None => match &self.parent {
                Some(p) => p.get(name),
                None => None,
            },
        }
    }
}

/// A binding is seen, and nothing else changes: after `name` was bound to `value` in the
/// innermost frame, `name` stands for `value`, and every other name for what it stood for.
pub proof fn lemma_lookup_after_set(env: SpecEnv, name: Seq<char>, value: SpecValue, other: Seq<char>)
    ensures
        lookup(bind(env, name, value), other) == if other == name {
            Some(value)
        } else {
            lookup(env, other)
        },
{
    if other == name {
        lemma_get_after_put(env.variables, name, value);
    } else {
        lemma_get_other_after_put(env.variables, name, value, other);
    }
}

/// To execute the same `let` again, with the same value, leaves the frame as it is.
pub proof fn lemma_set_twice(env: SpecEnv, name: Seq<char>, value: SpecValue)
    ensures
        bind(bind(env, name, value), name, value) == bind(env, name, value),
        lookup(bind(env, name, value), name) == Some(value),
{
    lemma_put_twice(env.variables, name, value);
    lemma_get_after_put(env.variables, name, value);
}

impl Clone for Env {
    fn clone(&self) -> (r: Self)
        ensures
            r@ == self@,
    {
        let parent = match &self.parent {
            Some(p) => Some(share(p)),
            None => None,
        };
        Env { variables: clone_bindings(&self.variables), parent }
    }
}

} // verus!
