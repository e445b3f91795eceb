//! The symbol table: what a compilation unit declares.

use vstd::prelude::*;
use crate::analyzer::types::{Type, TypeView};

verus! {

/// A declared component.
#[derive(Debug, Clone)]
pub struct ComponentInfo {
    pub name: String,
    /// Field names with their types; of two entries with one name the later
    /// one counts.
    pub fields: Vec<(String, Type)>,
}

/// A declared or built-in function.
#[derive(Debug, Clone)]
pub struct FunctionInfo {
    pub name: String,
    pub params: Vec<(String, Type)>,
    pub return_type: Type,
}

/// A tracker binding.
#[derive(Debug, Clone)]
pub struct TrackerInfo {
    pub component: String,
    pub event: String,
}

/// What a [`ComponentInfo`] denotes: a name and a map from field names to
/// types.
pub struct ComponentInfoView {
    pub name: Seq<char>,
    pub fields: Map<Seq<char>, TypeView>,
}

/// What a [`FunctionInfo`] denotes.
pub struct FunctionInfoView {
    pub name: Seq<char>,
    pub params: Seq<(Seq<char>, TypeView)>,
    pub return_type: TypeView,
}

/// What a [`TrackerInfo`] denotes.
pub struct TrackerInfoView {
    pub component: Seq<char>,
    pub event: Seq<char>,
}

/// The map that the first `n` entries of an association list build, a later
/// entry replacing an earlier one with the same key.
pub open spec fn assoc_map<V>(entries: Seq<(Seq<char>, V)>, n: nat) -> Map<Seq<char>, V>
    decreases n,
{
    if n == 0 || n > entries.len() {
        Map::empty()
    } else {
        assoc_map(entries, (n - 1) as nat).insert(entries[n - 1].0, entries[n - 1].1)
    }
}

/// The map of a whole association list.
pub open spec fn assoc_map_of<V>(entries: Seq<(Seq<char>, V)>) -> Map<Seq<char>, V> {
    assoc_map(entries, entries.len())
}

/// The first `n` entries decide `assoc_map(.., n)`.
pub proof fn lemma_assoc_map_prefix<V>(a: Seq<(Seq<char>, V)>, b: Seq<(Seq<char>, V)>, n: nat)
    requires
        n <= a.len(),
        n <= b.len(),
        forall|i: int| 0 <= i < n ==> a[i] == b[i],
    ensures
        assoc_map(a, n) == assoc_map(b, n),
    decreases n,
{
    if n > 0 {
        lemma_assoc_map_prefix(a, b, (n - 1) as nat);
    }
}

/// Appending an entry inserts it into the map.
pub proof fn lemma_assoc_map_push<V>(entries: Seq<(Seq<char>, V)>, key: Seq<char>, value: V)
    ensures
        assoc_map_of(entries.push((key, value))) == assoc_map_of(entries).insert(key, value),
{
    lemma_assoc_map_prefix(entries.push((key, value)), entries, entries.len());
}

impl ComponentInfo {
    pub open spec fn spec_view(self) -> ComponentInfoView {
        ComponentInfoView { name: self.name@, fields: assoc_map_of(Type::named_views(self.fields@)) }
    }

    /// The list of (name, component) pairs of a list of components.
    pub open spec fn keyed(s: Seq<ComponentInfo>) -> Seq<(Seq<char>, ComponentInfoView)> {
        Seq::new(s.len(), |i: int| (s[i].name@, s[i].spec_view()))
    }
}

impl View for ComponentInfo {
    type V = ComponentInfoView;

    open spec fn view(&self) -> ComponentInfoView {
        (*self).spec_view()
    }
}

impl FunctionInfo {
    pub open spec fn spec_view(self) -> FunctionInfoView {
        FunctionInfoView {
            name: self.name@,
            params: Type::named_views(self.params@),
            return_type: self.return_type.spec_view(),
        }
    }

    /// The list of (name, function) pairs of a list of functions.
    pub open spec fn keyed(s: Seq<FunctionInfo>) -> Seq<(Seq<char>, FunctionInfoView)> {
        Seq::new(s.len(), |i: int| (s[i].name@, s[i].spec_view()))
    }
}

impl View for FunctionInfo {
    type V = FunctionInfoView;

    open spec fn view(&self) -> FunctionInfoView {
        (*self).spec_view()
    }
}

impl TrackerInfo {
    pub open spec fn spec_view(self) -> TrackerInfoView {
        TrackerInfoView { component: self.component@, event: self.event@ }
    }

    pub open spec fn views(s: Seq<TrackerInfo>) -> Seq<TrackerInfoView> {
        Seq::new(s.len(), |i: int| s[i].spec_view())
    }
}

impl View for TrackerInfo {
    type V = TrackerInfoView;

    open spec fn view(&self) -> TrackerInfoView {
        (*self).spec_view()
    }
}

/// The definitions of a compilation unit. The three parts are independent:
/// components by name, functions by name, and the tracker bindings in the
/// order they were added.
#[derive(Debug, Clone)]
pub struct SymbolTable {
    components: Vec<ComponentInfo>,
    functions: Vec<FunctionInfo>,
    trackers: Vec<TrackerInfo>,
}

/// What a [`SymbolTable`] denotes.
pub struct SymbolTableView {
    pub components: Map<Seq<char>, ComponentInfoView>,
    pub functions: Map<Seq<char>, FunctionInfoView>,
    pub trackers: Seq<TrackerInfoView>,
}

impl SymbolTableView {
    /// The table with one more component; a component of the same name is
    /// replaced.
    pub open spec fn with_component(self, name: Seq<char>, fields: Seq<(Seq<char>, TypeView)>) -> SymbolTableView {
        SymbolTableView {
            components: self.components.insert(
                name,
                ComponentInfoView { name: name, fields: assoc_map_of(fields) },
            ),
            ..self
        }
    }

    /// The table with one more function; a function of the same name is
    /// replaced.
    pub open spec fn with_function(
        self,
        name: Seq<char>,
        params: Seq<(Seq<char>, TypeView)>,
        return_type: TypeView,
    ) -> SymbolTableView {
        SymbolTableView {
            functions: self.functions.insert(
                name,
                FunctionInfoView { name: name, params: params, return_type: return_type },
            ),
            ..self
        }
    }

    /// The table with one more tracker binding, last.
    pub open spec fn with_tracker(self, component: Seq<char>, event: Seq<char>) -> SymbolTableView {
        SymbolTableView {
            trackers: self.trackers.push(TrackerInfoView { component: component, event: event }),
            ..self
        }
    }

    /// The table without any definition.
    pub open spec fn empty() -> SymbolTableView {
        SymbolTableView { components: Map::empty(), functions: Map::empty(), trackers: Seq::empty() }
    }
}

impl View for SymbolTable {
    type V = SymbolTableView;

    closed spec fn view(&self) -> SymbolTableView {
        SymbolTableView {
            components: assoc_map_of(ComponentInfo::keyed(self.components@)),
            functions: assoc_map_of(FunctionInfo::keyed(self.functions@)),
            trackers: TrackerInfo::views(self.trackers@),
        }
    }
}

impl SymbolTable {
    pub open spec fn spec_view(self) -> SymbolTableView {
        self@
    }

    pub fn new() -> (t: Self)
        ensures
            t@ == SymbolTableView::empty(),
    {
        let t = Self { components: Vec::new(), functions: Vec::new(), trackers: Vec::new() };
        assert(TrackerInfo::views(t.trackers@) =~= Seq::empty());
        t
    }

    pub fn add_component(&mut self, name: String, fields: Vec<(String, Type)>)
        ensures
            final(self)@ == old(self)@.with_component(name@, Type::named_views(fields@)),
    {
        let ghost before = ComponentInfo::keyed(self.components@);
        let info = ComponentInfo { name, fields };
        self.components.push(info);
        assert(ComponentInfo::keyed(self.components@) =~= before.push((info.name@, info.spec_view())));
        proof {
            lemma_assoc_map_push(before, info.name@, info.spec_view());
        }
    }

    pub fn get_component(&self, name: &str) -> (r: Option<&ComponentInfo>)
        ensures
            r is Some == self@.components.contains_key(name@),
            r is Some ==> r->0@ == self@.components[name@],
    {
        let key = name.to_owned();
        let ghost entries = ComponentInfo::keyed(self.components@);
        let mut i: usize = self.components.len();
        while i > 0
            invariant
                i <= self.components.len(),
                key@ == name@,
                entries == ComponentInfo::keyed(self.components@),
                assoc_map_of(entries).contains_key(name@) == assoc_map(entries, i as nat).contains_key(name@),
                assoc_map(entries, i as nat).contains_key(name@) ==> assoc_map_of(entries)[name@] == assoc_map(
                    entries,
                    i as nat,
                )[name@],
            decreases i,
        {
            i = i - 1;
            if self.components[i].name == key {
                return Some(&self.components[i]);
            }
        }
        None
    }

    pub fn add_function(&mut self, name: String, params: Vec<(String, Type)>, return_type: Type)
        ensures
            final(self)@ == old(self)@.with_function(name@, Type::named_views(params@), return_type@),
    {
        let ghost before = FunctionInfo::keyed(self.functions@);
        let info = FunctionInfo { name, params, return_type };
        self.functions.push(info);
        assert(FunctionInfo::keyed(self.functions@) =~= before.push((info.name@, info.spec_view())));
        proof {
            lemma_assoc_map_push(before, info.name@, info.spec_view());
        }
    }

    pub fn get_function(&self, name: &str) -> (r: Option<&FunctionInfo>)
        ensures
            r is Some == self@.functions.contains_key(name@),
            r is Some ==> r->0@ == self@.functions[name@],
    {
        let key = name.to_owned();
        let ghost entries = FunctionInfo::keyed(self.functions@);
        let mut i: usize = self.functions.len();
        while i > 0
            invariant
                i <= self.functions.len(),
                key@ == name@,
                entries == FunctionInfo::keyed(self.functions@),
                assoc_map_of(entries).contains_key(name@) == assoc_map(entries, i as nat).contains_key(name@),
                assoc_map(entries, i as nat).contains_key(name@) ==> assoc_map_of(entries)[name@] == assoc_map(
                    entries,
                    i as nat,
                )[name@],
            decreases i,
        {
            i = i - 1;
            if self.functions[i].name == key {
                return Some(&self.functions[i]);
            }
        }
        None
    }

    pub fn add_tracker(&mut self, component: String, event: String)
        ensures
            final(self)@ == old(self)@.with_tracker(component@, event@),
    {
        let ghost before = TrackerInfo::views(self.trackers@);
        let info = TrackerInfo { component, event };
        self.trackers.push(info);
        assert(TrackerInfo::views(self.trackers@) =~= before.push(info.spec_view()));
    }

    /// The tracker bindings, in the order they were added.
    pub fn trackers(&self) -> (r: &Vec<TrackerInfo>)
        ensures
            TrackerInfo::views(r@) == self@.trackers,
    {
        &self.trackers
    }
}

impl Default for SymbolTable {
    fn default() -> (t: Self)
        ensures
            t@ == SymbolTableView::empty(),
    {
        Self::new()
    }
}

} // verus!
