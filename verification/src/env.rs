use vstd::prelude::*;

use crate::ast::Expr;
use crate::ast::view_names;
use crate::spec_ast::ExprV;
use crate::value::Value;

verus! {

/// A registered function: its parameter names in declaration order and its
/// body. Created during registration and never mutated afterwards.
pub struct FunctionInfo {
    pub parameter_names: Vec<String>,
    pub body: Expr,
}

/// The mathematical form of a registered function.
pub ghost struct FunctionInfoV {
    pub parameter_names: Seq<Seq<char>>,
    pub body: ExprV,
}

impl View for FunctionInfo {
    type V = FunctionInfoV;

    open spec fn view(&self) -> FunctionInfoV {
        FunctionInfoV {
            parameter_names: view_names(self.parameter_names@),
            body: self.body@,
        }
    }
}

/// One name of the variable environment together with its stack of live
/// bindings; the last pushed value is the visible one.
pub struct VarEntry {
    pub name: String,
    pub stack: Vec<Value>,
}

/// The variable environment: for each name, a stack of currently bound
/// values, pushed on function entry and popped on exit. Shadowing is
/// dynamic, by nested calls, not lexical.
///
/// Its mathematical form is a map from name to the non-empty stack of
/// bindings; a name whose stack has been fully popped is absent from the
/// map.
pub struct VariableMap {
    entries: Vec<VarEntry>,
}

/// The map described by a sequence of entries with pairwise-distinct
/// names; entries whose stack is empty are absent.
pub open spec fn vm_entries_map(s: Seq<VarEntry>) -> Map<Seq<char>, Seq<Value>>
    decreases s,
{
    if s.len() == 0 {
        Map::empty()
    } else {
        let m = vm_entries_map(s.drop_last());
        let e = s.last();
        if e.stack@.len() == 0 {
            m
        } else {
            m.insert(e.name@, e.stack@)
        }
    }
}

/// Entry names are pairwise distinct.
pub open spec fn vm_wf_entries(s: Seq<VarEntry>) -> bool {
    forall|i: int, j: int| 0 <= i < j < s.len() ==> s[i].name@ != s[j].name@
}

impl View for VariableMap {
    type V = Map<Seq<char>, Seq<Value>>;

    closed spec fn view(&self) -> Map<Seq<char>, Seq<Value>> {
        vm_entries_map(self.entries@)
    }
}

/// Pushing a binding: the new value goes on top of the name's stack, which
/// starts empty if the name is unbound.
pub open spec fn env_push(
    env: Map<Seq<char>, Seq<Value>>,
    name: Seq<char>,
    value: Value,
) -> Map<Seq<char>, Seq<Value>> {
    if env.contains_key(name) {
        env.insert(name, env[name].push(value))
    } else {
        env.insert(name, seq![value])
    }
}

/// Popping a binding exactly undoes the corresponding push: the top of the
/// name's stack goes away, and a stack popped to nothing leaves the map.
pub open spec fn env_pop(env: Map<Seq<char>, Seq<Value>>, name: Seq<char>) -> Map<
    Seq<char>,
    Seq<Value>,
> {
    if env.contains_key(name) {
        let rest = env[name].drop_last();
        if rest.len() == 0 {
            env.remove(name)
        } else {
            env.insert(name, rest)
        }
    } else {
        env
    }
}

/// No name maps to an empty stack: a fully popped name leaves the map.
/// Every environment that a `VariableMap` describes has this shape, and
/// pushing and popping keep it.
pub open spec fn env_ok(env: Map<Seq<char>, Seq<Value>>) -> bool {
    forall|k: Seq<char>| #[trigger] env.contains_key(k) ==> env[k].len() > 0
}

/// The currently visible binding of a name: the top of its stack.
pub open spec fn env_lookup(env: Map<Seq<char>, Seq<Value>>, name: Seq<char>) -> Option<Value> {
    if env.contains_key(name) {
        Some(env[name].last())
    } else {
        None
    }
}

proof fn lemma_vm_map_absent(s: Seq<VarEntry>, k: Seq<char>)
    requires
        forall|i: int| 0 <= i < s.len() ==> s[i].name@ != k,
    ensures
        !vm_entries_map(s).contains_key(k),
    decreases s,
{
    if s.len() > 0 {
        lemma_vm_map_absent(s.drop_last(), k);
    }
}

proof fn lemma_vm_map_index(s: Seq<VarEntry>, i: int)
    requires
        vm_wf_entries(s),
        0 <= i < s.len(),
    ensures
        s[i].stack@.len() > 0 ==> vm_entries_map(s).contains_key(s[i].name@)
            && vm_entries_map(s)[s[i].name@] == s[i].stack@,
        s[i].stack@.len() == 0 ==> !vm_entries_map(s).contains_key(s[i].name@),
    decreases s,
{
    if i == s.len() - 1 {
        if s[i].stack@.len() == 0 {
            assert forall|j: int| 0 <= j < s.drop_last().len() implies s.drop_last()[j].name@
                != s[i].name@ by {
                assert(s.drop_last()[j] == s[j]);
            }
            lemma_vm_map_absent(s.drop_last(), s[i].name@);
        }
    } else {
        lemma_vm_map_index(s.drop_last(), i);
        assert(s.drop_last()[i] == s[i]);
        assert(s.last().name@ != s[i].name@);
    }
}

proof fn lemma_vm_map_update(s: Seq<VarEntry>, i: int, e2: VarEntry)
    requires
        vm_wf_entries(s),
        0 <= i < s.len(),
        e2.name@ == s[i].name@,
    ensures
        e2.stack@.len() > 0 ==> vm_entries_map(s.update(i, e2)) == vm_entries_map(s).insert(
            e2.name@,
            e2.stack@,
        ),
        e2.stack@.len() == 0 ==> vm_entries_map(s.update(i, e2)) == vm_entries_map(s).remove(
            e2.name@,
        ),
    decreases s,
{
    let s2 = s.update(i, e2);
    if i == s.len() - 1 {
        assert(s2.drop_last() =~= s.drop_last());
        assert(s2.last() == e2);
        lemma_vm_map_index(s, i);
        assert forall|j: int| 0 <= j < s.drop_last().len() implies s.drop_last()[j].name@
            != e2.name@ by {
            assert(s.drop_last()[j] == s[j]);
        }
        lemma_vm_map_absent(s.drop_last(), e2.name@);
        if e2.stack@.len() > 0 {
            if s[i].stack@.len() > 0 {
                assert(vm_entries_map(s2) =~= vm_entries_map(s).insert(e2.name@, e2.stack@));
            } else {
                assert(vm_entries_map(s2) =~= vm_entries_map(s).insert(e2.name@, e2.stack@));
            }
        } else {
            if s[i].stack@.len() > 0 {
                assert(vm_entries_map(s2) =~= vm_entries_map(s).remove(e2.name@));
            } else {
                assert(vm_entries_map(s2) =~= vm_entries_map(s).remove(e2.name@));
            }
        }
    } else {
        assert(s2.drop_last() =~= s.drop_last().update(i, e2));
        assert(s2.last() == s.last());
        assert(s.drop_last()[i] == s[i]);
        lemma_vm_map_update(s.drop_last(), i, e2);
        assert(s.last().name@ != e2.name@);
        let m = vm_entries_map(s.drop_last());
        let last = s.last();
        if last.stack@.len() == 0 {
            if e2.stack@.len() > 0 {
                assert(vm_entries_map(s2) =~= vm_entries_map(s).insert(e2.name@, e2.stack@));
            } else {
                assert(vm_entries_map(s2) =~= vm_entries_map(s).remove(e2.name@));
            }
        } else {
            if e2.stack@.len() > 0 {
                assert(vm_entries_map(s2) =~= vm_entries_map(s).insert(e2.name@, e2.stack@));
            } else {
                assert(vm_entries_map(s2) =~= vm_entries_map(s).remove(e2.name@));
            }
        }
    }
}

proof fn lemma_vm_map_push(s: Seq<VarEntry>, e: VarEntry)
    ensures
        e.stack@.len() > 0 ==> vm_entries_map(s.push(e)) == vm_entries_map(s).insert(
            e.name@,
            e.stack@,
        ),
        e.stack@.len() == 0 ==> vm_entries_map(s.push(e)) == vm_entries_map(s),
{
    assert(s.push(e).drop_last() =~= s);
    assert(s.push(e).last() == e);
}

proof fn lemma_vm_map_ok(s: Seq<VarEntry>)
    ensures
        env_ok(vm_entries_map(s)),
    decreases s,
{
    if s.len() > 0 {
        lemma_vm_map_ok(s.drop_last());
    }
}

impl VariableMap {
    /// The names of the entries are pairwise distinct.
    pub closed spec fn wf(&self) -> bool {
        vm_wf_entries(self.entries@)
    }

    /// The environment a `VariableMap` describes holds no empty stack.
    pub proof fn lemma_env_ok(&self)
        ensures
            env_ok(self@),
    {
        lemma_vm_map_ok(self.entries@);
    }

    /// An empty environment: no name is bound.
    pub fn new() -> (r: VariableMap)
        ensures
            r@ == Map::<Seq<char>, Seq<Value>>::empty(),
            r.wf(),
    {
        VariableMap { entries: Vec::new() }
    }

    fn find_entry(&self, name: &String) -> (r: Option<usize>)
        ensures
            match r {
                Some(i) => i < self.entries@.len() && self.entries@[i as int].name@ == name@,
                None => forall|j: int|
                    0 <= j < self.entries@.len() ==> self.entries@[j].name@ != name@,
            },
    {
        let mut i: usize = 0;
        while i < self.entries.len()
            invariant
                i <= self.entries@.len(),
                forall|j: int| 0 <= j < i ==> self.entries@[j].name@ != name@,
            decreases self.entries@.len() - i,
        {
            if self.entries[i].name == *name {
                return Some(i);
            }
            i = i + 1;
        }
        None
    }

    /// The visible binding of a name, if the name is bound.
    pub fn get_top(&self, name: &String) -> (r: Option<&Value>)
        requires
            self.wf(),
        ensures
            match r {
                Some(v) => self@.contains_key(name@) && *v == self@[name@].last(),
                None => !self@.contains_key(name@),
            },
    {
        match self.find_entry(name) {
            Some(i) => {
                proof {
                    lemma_vm_map_index(self.entries@, i as int);
                }
                let entry = &self.entries[i];
                if entry.stack.len() > 0 {
                    Some(&entry.stack[entry.stack.len() - 1])
                } else {
                    None
                }
            },
            None => {
                proof {
                    lemma_vm_map_absent(self.entries@, name@);
                }
                None
            },
        }
    }

    /// Push a value on top of a name's binding stack.
    pub fn push_binding(&mut self, name: &String, value: Value)
        requires
            old(self).wf(),
        ensures
            final(self).wf(),
            final(self)@ == env_push(old(self)@, name@, value),
    {
        let ghost s0 = self.entries@;
        match self.find_entry(name) {
            Some(i) => {
                proof {
                    lemma_vm_map_index(s0, i as int);
                }
                self.entries[i].stack.push(value);
                proof {
                    let e2 = self.entries@[i as int];
                    assert(self.entries@ =~= s0.update(i as int, e2));
                    assert(e2.stack@ =~= s0[i as int].stack@.push(value));
                    lemma_vm_map_update(s0, i as int, e2);
                    if s0[i as int].stack@.len() == 0 {
                        assert(e2.stack@ =~= seq![value]);
                    }
                }
            },
            None => {
                proof {
                    lemma_vm_map_absent(s0, name@);
                }
                let mut stack: Vec<Value> = Vec::new();
                stack.push(value);
                let entry = VarEntry { name: name.clone(), stack };
                proof {
                    lemma_vm_map_push(s0, entry);
                    assert(entry.stack@ =~= seq![value]);
                }
                self.entries.push(entry);
            },
        }
    }

    /// Pop the top value of a name's binding stack, exactly undoing the
    /// corresponding push. A name with no live binding is left as it is.
    pub fn pop_binding(&mut self, name: &String)
        requires
            old(self).wf(),
        ensures
            final(self).wf(),
            final(self)@ == env_pop(old(self)@, name@),
    {
        let ghost s0 = self.entries@;
        match self.find_entry(name) {
            Some(i) => {
                proof {
                    lemma_vm_map_index(s0, i as int);
                }
                if self.entries[i].stack.len() > 0 {
                    self.entries[i].stack.pop();
                    proof {
                        let e2 = self.entries@[i as int];
                        assert(self.entries@ =~= s0.update(i as int, e2));
                        assert(e2.stack@ =~= s0[i as int].stack@.drop_last());
                        lemma_vm_map_update(s0, i as int, e2);
                    }
                }
            },
            None => {
                proof {
                    lemma_vm_map_absent(s0, name@);
                }
            },
        }
    }
}

/// One registered function of the function table.
pub struct FunEntry {
    pub name: String,
    pub info: FunctionInfo,
}

/// The function table: a mapping from function name to its registered
/// definition. Built once by the registration pass and read-only during
/// evaluation; registering a name twice keeps the later definition.
pub struct FunctionMap {
    entries: Vec<FunEntry>,
}

/// The map described by a sequence of registrations, later ones shadowing
/// earlier ones.
pub open spec fn fm_entries_map(s: Seq<FunEntry>) -> Map<Seq<char>, FunctionInfoV>
    decreases s,
{
    if s.len() == 0 {
        Map::empty()
    } else {
        fm_entries_map(s.drop_last()).insert(s.last().name@, s.last().info@)
    }
}

impl View for FunctionMap {
    type V = Map<Seq<char>, FunctionInfoV>;

    closed spec fn view(&self) -> Map<Seq<char>, FunctionInfoV> {
        fm_entries_map(self.entries@)
    }
}

proof fn lemma_fm_map_absent(s: Seq<FunEntry>, k: Seq<char>)
    requires
        forall|i: int| 0 <= i < s.len() ==> s[i].name@ != k,
    ensures
        !fm_entries_map(s).contains_key(k),
    decreases s,
{
    if s.len() > 0 {
        lemma_fm_map_absent(s.drop_last(), k);
    }
}

proof fn lemma_fm_map_found(s: Seq<FunEntry>, i: int)
    requires
        0 <= i < s.len(),
        forall|j: int| i < j < s.len() ==> s[j].name@ != s[i].name@,
    ensures
        fm_entries_map(s).contains_key(s[i].name@),
        fm_entries_map(s)[s[i].name@] == s[i].info@,
    decreases s,
{
    if i < s.len() - 1 {
        assert forall|j: int| i < j < s.drop_last().len() implies s.drop_last()[j].name@
            != s.drop_last()[i].name@ by {
            assert(s.drop_last()[j] == s[j]);
        }
        lemma_fm_map_found(s.drop_last(), i);
        assert(s.drop_last()[i] == s[i]);
        assert(s.last().name@ != s[i].name@);
    }
}

impl FunctionMap {
    /// An empty table: no function is registered.
    pub fn new() -> (r: FunctionMap)
        ensures
            r@ == Map::<Seq<char>, FunctionInfoV>::empty(),
    {
        FunctionMap { entries: Vec::new() }
    }

    /// The registered definition of a name, if there is one; of several
    /// registrations of one name, the latest.
    pub fn get(&self, name: &String) -> (r: Option<&FunctionInfo>)
        ensures
            match r {
                Some(f) => self@.contains_key(name@) && f@ == self@[name@],
                None => !self@.contains_key(name@),
            },
    {
        let n = self.entries.len();
        let mut i: usize = n;
        while i > 0
            invariant
                i <= self.entries@.len(),
                n == self.entries@.len(),
                forall|j: int| i <= j < self.entries@.len() ==> self.entries@[j].name@ != name@,
            decreases i,
        {
            i = i - 1;
            if self.entries[i].name == *name {
                proof {
                    lemma_fm_map_found(self.entries@, i as int);
                }
                return Some(&self.entries[i].info);
            }
        }
        proof {
            lemma_fm_map_absent(self.entries@, name@);
        }
        None
    }

    /// Register a function under a name; a later registration of the same
    /// name wins.
    pub fn insert(&mut self, name: String, info: FunctionInfo)
        ensures
            final(self)@ == old(self)@.insert(name@, info@),
    {
        let ghost s0 = self.entries@;
        let entry = FunEntry { name, info };
        self.entries.push(entry);
        proof {
            assert(self.entries@.drop_last() =~= s0);
        }
    }
}

/// The runtime environment of one program: its variable bindings and its
/// registered functions.
pub struct Environment {
    pub variable_map: VariableMap,
    pub functions: FunctionMap,
}

} // verus!
