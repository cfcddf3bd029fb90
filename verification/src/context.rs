//! Typing contexts and evaluation environments.
//!
//! Both are persistent lists of bindings in which a later binding of a name
//! hides the earlier ones; what they mean is a map from names.
use vstd::prelude::*;
use crate::model::{env_of, Sem, SemCtx, SemEnv};
use crate::value::Value;
use crate::{Name, Type};

verus! {

/// The map that a list of environment entries stands for. An entry without a
/// value unbinds its name.
pub open spec fn env_entries(s: Seq<(Name, Option<Value>)>) -> SemEnv
    decreases s.len(),
{
    if s.len() == 0 {
        Map::empty()
    } else {
        let (name, value) = s.last();
        match value {
            Some(v) => env_entries(s.drop_last()).insert(name@, v@),
            None => env_entries(s.drop_last()).remove(name@),
        }
    }
}

/// What a context records of a name.
pub open spec fn binding_view(b: (Name, Type, Option<Value>)) -> (Sem, Option<Sem>) {
    (
        b.1@,
        match b.2 {
            Some(v) => Some(v@),
            None => None,
        },
    )
}

/// The map that a list of context entries stands for.
pub open spec fn ctx_entries(s: Seq<(Name, Type, Option<Value>)>) -> SemCtx
    decreases s.len(),
{
    if s.len() == 0 {
        Map::empty()
    } else {
        ctx_entries(s.drop_last()).insert(s.last().0@, binding_view(s.last()))
    }
}

/// An evaluation environment: a map from names to values.
pub struct Env {
    entries: Vec<(Name, Option<Value>)>,
}

/// A typing context: a map from names to a type and, for a defined name, its
/// value.
pub struct Context {
    entries: Vec<(Name, Type, Option<Value>)>,
}

impl View for Env {
    type V = SemEnv;

    closed spec fn view(&self) -> SemEnv {
        env_entries(self.entries@)
    }
}

impl View for Context {
    type V = SemCtx;

    closed spec fn view(&self) -> SemCtx {
        ctx_entries(self.entries@)
    }
}

impl Env {
    /// The environment that binds no name.
    pub fn new() -> (env: Env)
        ensures
            env@ == Map::<Seq<char>, Sem>::empty(),
    {
        Env { entries: Vec::new() }
    }

    /// Binds `name` to `value`, in place of what it was bound to.
    pub fn insert(&mut self, name: Name, value: Value)
        ensures
            final(self)@ == old(self)@.insert(name@, value@),
    {
        self.entries.push((name, Some(value)));
        assert(self.entries@.drop_last() == old(self).entries@);
    }

    /// The value that `name` is bound to, if any.
    pub fn get(&self, name: &Name) -> (r: Option<&Value>)
        ensures
            r is Some <==> self@.contains_key(name@),
            r matches Some(v) ==> v@ == self@[name@],
    {
        let mut found: Option<&Value> = None;
        let mut i: usize = 0;
        while i < self.entries.len()
            invariant
                i <= self.entries.len(),
                found is Some <==> env_entries(self.entries@.take(i as int)).contains_key(name@),
                found matches Some(v) ==> v@ == env_entries(self.entries@.take(i as int))[name@],
            decreases self.entries.len() - i,
        {
            proof {
                assert(self.entries@.take(i + 1).drop_last() == self.entries@.take(i as int));
            }
            if self.entries[i].0 == *name {
                found = self.entries[i].1.as_ref();
            }
            i = i + 1;
        }
        proof {
            assert(self.entries@.take(i as int) == self.entries@);
        }
        found
    }
}

impl Context {
    /// The context that binds no name.
    pub fn new() -> (ctx: Context)
        ensures
            ctx@ == Map::<Seq<char>, (Sem, Option<Sem>)>::empty(),
    {
        Context { entries: Vec::new() }
    }

    /// Records the type of `name` and, where it is defined, its value, in
    /// place of what was recorded of it.
    pub fn insert(&mut self, name: Name, ty: Type, value: Option<Value>)
        ensures
            final(self)@ == old(self)@.insert(name@, binding_view((name, ty, value))),
    {
        self.entries.push((name, ty, value));
        assert(self.entries@.drop_last() == old(self).entries@);
    }

    /// The type recorded of `name`, if the context binds it.
    pub fn get(&self, name: &Name) -> (r: Option<&Type>)
        ensures
            r is Some <==> self@.contains_key(name@),
            r matches Some(t) ==> t@ == self@[name@].0,
    {
        let mut found: Option<&Type> = None;
        let mut i: usize = 0;
        while i < self.entries.len()
            invariant
                i <= self.entries.len(),
                found is Some <==> ctx_entries(self.entries@.take(i as int)).contains_key(name@),
                found matches Some(t) ==> t@ == ctx_entries(self.entries@.take(i as int))[name@].0,
            decreases self.entries.len() - i,
        {
            proof {
                assert(self.entries@.take(i + 1).drop_last() == self.entries@.take(i as int));
            }
            if self.entries[i].0 == *name {
                found = Some(&self.entries[i].1);
            }
            i = i + 1;
        }
        proof {
            assert(self.entries@.take(i as int) == self.entries@);
        }
        found
    }

    /// The environment of the context: its defined names with their values.
    pub fn env(&self) -> (env: Env)
        ensures
            env@ == env_of(self@),
    {
        let mut entries: Vec<(Name, Option<Value>)> = Vec::new();
        let mut i: usize = 0;
        proof {
            assert(env_of(ctx_entries(self.entries@.take(0))) =~= env_entries(entries@));
        }
        while i < self.entries.len()
            invariant
                i <= self.entries.len(),
                entries@.len() == i,
                env_entries(entries@) == env_of(ctx_entries(self.entries@.take(i as int))),
            decreases self.entries.len() - i,
        {
            let name = self.entries[i].0.clone();
            let value = match &self.entries[i].2 {
                Some(v) => Some(v.clone()),
                None => None,
            };
            proof {
                let before = ctx_entries(self.entries@.take(i as int));
                let after = ctx_entries(self.entries@.take(i + 1));
                assert(self.entries@.take(i + 1).drop_last() == self.entries@.take(i as int));
                assert(after == before.insert(name@, binding_view(self.entries@[i as int])));
                assert(env_entries(entries@.push((name, value))) =~= env_of(after)) by {
                    assert(entries@.push((name, value)).drop_last() == entries@);
                }
            }
            entries.push((name, value));
            i = i + 1;
        }
        proof {
            assert(self.entries@.take(i as int) == self.entries@);
        }
        Env { entries }
    }
}

} // verus!
