//! Lexical scopes: which variables a block can see, and their types.

use vstd::prelude::*;
use crate::analyzer::symbols::{assoc_map, assoc_map_of, lemma_assoc_map_push};
use crate::analyzer::types::{lemma_type_named_views_push, Type, TypeView};

verus! {

/// What a scope denotes: the variables in sight, an inner definition
/// hiding an outer one of the same name.
pub type ScopeView = Map<Seq<char>, TypeView>;

/// One frame of variables with the frame around it.
#[derive(Debug)]
pub struct Scope {
    variables: Vec<(String, Type)>,
    parent: Option<Box<Scope>>,
}

impl Scope {
    pub closed spec fn spec_view(self) -> ScopeView
        decreases self,
    {
        match self.parent {
            None => assoc_map_of(Type::named_views(self.variables@)),
            Some(p) => (*p).spec_view().union_prefer_right(assoc_map_of(Type::named_views(self.variables@))),
        }
    }

    /// A scope without variables.
    pub fn new() -> (s: Self)
        ensures
            s@ == Map::<Seq<char>, TypeView>::empty(),
    {
        let s = Self { variables: Vec::new(), parent: None };
        assert(Type::named_views(s.variables@) =~= Seq::empty());
        s
    }

    /// A fresh frame inside `parent`: it sees what `parent` sees.
    pub fn with_parent(parent: Scope) -> (s: Self)
        ensures
            s@ == parent@,
    {
        let s = Self { variables: Vec::new(), parent: Some(Box::new(parent)) };
        assert(Type::named_views(s.variables@) =~= Seq::empty());
        assert(s.spec_view() =~= parent.spec_view());
        s
    }

    /// Defines `name` in this frame, hiding any earlier definition.
    pub fn define(&mut self, name: String, typ: Type)
        ensures
            final(self)@ == old(self)@.insert(name@, typ@),
    {
        broadcast use lemma_type_named_views_push;

        let ghost before = Type::named_views(self.variables@);
        self.variables.push((name, typ));
        proof {
            lemma_assoc_map_push(before, name@, typ@);
            assert(final(self).spec_view() =~= old(self).spec_view().insert(name@, typ@));
        }
    }

    /// The type of `name`, looked for from the innermost frame outward.
    pub fn lookup(&self, name: &str) -> (r: Option<&Type>)
        ensures
            r is Some == self@.contains_key(name@),
            r is Some ==> r->0@ == self@[name@],
        decreases self,
    {
        let key = name.to_owned();
        let ghost entries = Type::named_views(self.variables@);
        let mut i: usize = self.variables.len();
        while i > 0
            invariant
                i <= self.variables.len(),
                key@ == name@,
                entries == Type::named_views(self.variables@),
                assoc_map_of(entries).contains_key(name@) == assoc_map(entries, i as nat).contains_key(name@),
                assoc_map(entries, i as nat).contains_key(name@) ==> assoc_map_of(entries)[name@] == assoc_map(
                    entries,
                    i as nat,
                )[name@],
            decreases i,
        {
            i = i - 1;
            if self.variables[i].0 == key {
                return Some(&self.variables[i].1);
            }
        }
        match &self.parent {
            Some(p) => p.lookup(name),
            None => None,
        }
    }

    /// A copy that sees the same variables.
    pub fn duplicate(&self) -> (s: Self)
        ensures
            s@ == self@,
        decreases self,
    {
        broadcast use lemma_type_named_views_push;

        let mut variables: Vec<(String, Type)> = Vec::new();
        let mut i: usize = 0;
        while i < self.variables.len()
            invariant
                i <= self.variables.len(),
                Type::named_views(variables@) == Type::named_views(self.variables@).take(i as int),
            decreases self.variables.len() - i,
        {
            let name = self.variables[i].0.clone();
            let typ = self.variables[i].1.duplicate();
            variables.push((name, typ));
            assert(Type::named_views(self.variables@).take(i as int + 1) =~= Type::named_views(
                self.variables@,
            ).take(i as int).push((self.variables@[i as int].0@, self.variables@[i as int].1.spec_view())));
            i = i + 1;
        }
        assert(Type::named_views(self.variables@).take(self.variables@.len() as int) =~= Type::named_views(
            self.variables@,
        ));
        let parent = match &self.parent {
            Some(p) => Some(Box::new(p.duplicate())),
            None => None,
        };
        Self { variables, parent }
    }
}

impl View for Scope {
    type V = ScopeView;

    open spec fn view(&self) -> ScopeView {
        (*self).spec_view()
    }
}

} // verus!
