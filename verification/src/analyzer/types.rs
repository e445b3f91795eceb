//! The type lattice of the analyzer.

use vstd::prelude::*;

verus! {

/// The type of an expression or a declaration.
#[derive(Debug, PartialEq)]
pub enum Type {
    String,
    Boolean,
    Integer,
    Float,
    Decimal,
    EntityId,
    Component(String),
    List(Box<Type>),
    Optional(Box<Type>),
    /// An entity that has every one of these component types.
    Composite(Vec<Type>),
    Void,
    /// What could not be resolved; analysis goes on with it.
    Unknown,
}

/// The value of [`Type`]: text as `Seq<char>`, lists as `Seq`.
pub enum TypeView {
    String,
    Boolean,
    Integer,
    Float,
    Decimal,
    EntityId,
    Component(Seq<char>),
    List(Box<TypeView>),
    Optional(Box<TypeView>),
    Composite(Seq<TypeView>),
    Void,
    Unknown,
}

impl Type {
    /// What this value denotes.
    pub open spec fn spec_view(self) -> TypeView
        decreases self,
    {
        match self {
            Type::String => TypeView::String,
            Type::Boolean => TypeView::Boolean,
            Type::Integer => TypeView::Integer,
            Type::Float => TypeView::Float,
            Type::Decimal => TypeView::Decimal,
            Type::EntityId => TypeView::EntityId,
            Type::Component(a) => TypeView::Component(a@),
            Type::List(a) => TypeView::List(Box::new((*a).spec_view())),
            Type::Optional(a) => TypeView::Optional(Box::new((*a).spec_view())),
            Type::Composite(a) => TypeView::Composite(Type::views(a@)),
            Type::Void => TypeView::Void,
            Type::Unknown => TypeView::Unknown,
        }
    }

    /// The values of a list, element by element.
    pub open spec fn views(s: Seq<Type>) -> Seq<TypeView>
        decreases s,
    {
        Seq::new(s.len(), |i: int| if 0 <= i < s.len() { s[i].spec_view() } else { arbitrary() })
    }

    /// The values of a list of named entries, entry by entry.
    pub open spec fn named_views(s: Seq<(String, Type)>) -> Seq<(Seq<char>, TypeView)>
        decreases s,
    {
        Seq::new(s.len(), |i: int| if 0 <= i < s.len() { (s[i].0@, s[i].1.spec_view()) } else { arbitrary() })
    }
}

impl View for Type {
    type V = TypeView;

    open spec fn view(&self) -> TypeView {
        (*self).spec_view()
    }
}

/// Viewing commutes with appending one element.
pub broadcast proof fn lemma_type_views_push(s: Seq<Type>, x: Type)
    ensures
        #[trigger] Type::views(s.push(x)) == Type::views(s).push(x.spec_view()),
{
    assert(Type::views(s.push(x)) =~= Type::views(s).push(x.spec_view()));
}

/// Viewing commutes with appending one element.
pub broadcast proof fn lemma_type_named_views_push(s: Seq<(String, Type)>, x: (String, Type))
    ensures
        #[trigger] Type::named_views(s.push(x)) == Type::named_views(s).push((x.0@, x.1.spec_view())),
{
    assert(Type::named_views(s.push(x)) =~= Type::named_views(s).push((x.0@, x.1.spec_view())));
}

pub broadcast group group_type_views {
    lemma_type_views_push,
    lemma_type_named_views_push,
}

impl Type {
    /// A copy with the same value.
    pub fn duplicate(&self) -> (r: Self)
        ensures
            r@ == self@,
        decreases self,
    {
        match self {
            Type::String => Type::String,
            Type::Boolean => Type::Boolean,
            Type::Integer => Type::Integer,
            Type::Float => Type::Float,
            Type::Decimal => Type::Decimal,
            Type::EntityId => Type::EntityId,
            Type::Component(name) => Type::Component(name.clone()),
            Type::List(inner) => Type::List(Box::new(inner.duplicate())),
            Type::Optional(inner) => Type::Optional(Box::new(inner.duplicate())),
            Type::Composite(members) => {
                let mut out: Vec<Type> = Vec::new();
                let mut i: usize = 0;
                while i < members.len()
                    invariant
                        i <= members.len(),
                        decreases_to!(self => members),
                        Type::views(out@) == Type::views(members@).take(i as int),
                    decreases members.len() - i,
                {
                    broadcast use lemma_type_views_push;

                    let member = members[i].duplicate();
                    out.push(member);
                    assert(Type::views(members@).take(i as int + 1) =~= Type::views(members@).take(i as int).push(
                        members@[i as int].spec_view(),
                    ));
                    i = i + 1;
                }
                assert(Type::views(members@).take(members@.len() as int) =~= Type::views(members@));
                Type::Composite(out)
            },
            Type::Void => Type::Void,
            Type::Unknown => Type::Unknown,
        }
    }
}

impl Clone for Type {
    fn clone(&self) -> (r: Self)
        ensures
            r@ == self@,
    {
        self.duplicate()
    }
}

} // verus!
