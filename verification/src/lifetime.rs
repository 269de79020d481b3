//! Collecting the lifetimes of a type and naming those left out.

use crate::decimal::decimal;
use crate::decimal::lemma_numbered_names_differ;
use crate::decimal::numbered_name;
use crate::sig::Receiver;
use crate::sig::ReceiverView;
use crate::token::opt_view;
use crate::token::seq_view;
use crate::token::Lifetime;
use crate::token::LifetimeView;
use crate::token::Span;
use crate::ty::arguments_view;
use crate::ty::bounds_view;
use crate::ty::segments_view;
use crate::ty::types_view;
use crate::ty::GenericArgument;
use crate::ty::GenericArgumentView;
use crate::ty::Path;
use crate::ty::PathSegment;
use crate::ty::PathSegmentView;
use crate::ty::PathView;
use crate::ty::Type;
use crate::ty::TypeParamBound;
use crate::ty::TypeParamBoundView;
use crate::ty::TypeView;
use vstd::prelude::*;
use vstd::string::StringExecFns;

verus! {

/// Walks over types and records their lifetimes.
///
/// A lifetime that is written out is recorded in `explicit`, once for each
/// name. A reference without a lifetime, or the lifetime `'_`, gets a new
/// name made of `name` and the count of names given so far; the new lifetime
/// is written into the type and recorded in `elided`.
#[derive(Debug, PartialEq, Eq)]
pub struct CollectLifetimes {
    pub elided: Vec<Lifetime>,
    pub explicit: Vec<Lifetime>,
    pub name: String,
}

/// What has been collected so far.
pub struct LifetimeFacts {
    pub elided: Seq<LifetimeView>,
    pub explicit: Seq<LifetimeView>,
    pub name: Seq<char>,
}

impl View for CollectLifetimes {
    type V = LifetimeFacts;

    open spec fn view(&self) -> LifetimeFacts {
        LifetimeFacts {
            elided: seq_view(self.elided@),
            explicit: seq_view(self.explicit@),
            name: self.name@,
        }
    }
}

/// Whether one of `ls` is spelled `name`.
pub open spec fn has_name(ls: Seq<LifetimeView>, name: Seq<char>) -> bool {
    exists|i: int| 0 <= i < ls.len() && (#[trigger] ls[i]).name == name
}

impl LifetimeFacts {
    /// Nothing collected yet.
    pub open spec fn empty(name: Seq<char>) -> LifetimeFacts {
        LifetimeFacts { elided: Seq::empty(), explicit: Seq::empty(), name }
    }

    /// The lifetime that the next open position gets.
    pub open spec fn fresh(self) -> LifetimeView {
        LifetimeView { name: self.name + decimal(self.elided.len()), span: Span::call_site() }
    }

    /// The facts after one more open position has been named.
    pub open spec fn with_fresh(self) -> LifetimeFacts {
        LifetimeFacts { elided: self.elided.push(self.fresh()), ..self }
    }

    /// The facts after the written lifetime `l` has been seen.
    pub open spec fn with_explicit(self, l: LifetimeView) -> LifetimeFacts {
        if has_name(self.explicit, l.name) {
            self
        } else {
            LifetimeFacts { explicit: self.explicit.push(l), ..self }
        }
    }

    /// Every name given so far is the prefix and the number of its place,
    /// and no written lifetime is recorded twice.
    pub open spec fn wf(self) -> bool {
        &&& forall|i: int|
            0 <= i < self.elided.len() ==> (#[trigger] self.elided[i]).name == self.name
                + decimal(i as nat)
        &&& forall|i: int, j: int|
            0 <= i < j < self.explicit.len() ==> (#[trigger] self.explicit[i]).name != (
            #[trigger] self.explicit[j]).name
    }
}

/// A lifetime position after the visit, and the facts after it.
pub open spec fn visit_lifetime(c: LifetimeFacts, l: LifetimeView) -> (
    LifetimeView,
    LifetimeFacts,
) {
    if l.name == "_"@ {
        (c.fresh(), c.with_fresh())
    } else {
        (l, c.with_explicit(l))
    }
}

/// The lifetime of a reference after the visit, and the facts after it.
pub open spec fn visit_opt_lifetime(c: LifetimeFacts, l: Option<LifetimeView>) -> (
    Option<LifetimeView>,
    LifetimeFacts,
) {
    match l {
        None => (Some(c.fresh()), c.with_fresh()),
        Some(l) => (Some(visit_lifetime(c, l).0), visit_lifetime(c, l).1),
    }
}

/// A type after the visit, and the facts after it. The positions are
/// visited in the order in which they are written.
pub open spec fn visit_type(c: LifetimeFacts, t: TypeView) -> (TypeView, LifetimeFacts)
    decreases t,
{
    match t {
        TypeView::Reference { lifetime, mutable, elem } => {
            let (l, c1) = visit_opt_lifetime(c, lifetime);
            let (e, c2) = visit_type(c1, *elem);
            (TypeView::Reference { lifetime: l, mutable, elem: Box::new(e) }, c2)
        },
        TypeView::Path(path) => {
            let (p, c1) = visit_path(c, path);
            (TypeView::Path(p), c1)
        },
        TypeView::Tuple { elems } => {
            let (es, c1) = visit_types(c, elems);
            (TypeView::Tuple { elems: es }, c1)
        },
        TypeView::Slice { elem } => {
            let (e, c1) = visit_type(c, *elem);
            (TypeView::Slice { elem: Box::new(e) }, c1)
        },
        TypeView::Array { elem, len } => {
            let (e, c1) = visit_type(c, *elem);
            (TypeView::Array { elem: Box::new(e), len }, c1)
        },
        TypeView::Ptr { mutable, elem } => {
            let (e, c1) = visit_type(c, *elem);
            (TypeView::Ptr { mutable, elem: Box::new(e) }, c1)
        },
        TypeView::Paren { elem } => {
            let (e, c1) = visit_type(c, *elem);
            (TypeView::Paren { elem: Box::new(e) }, c1)
        },
        TypeView::TraitObject { bounds } => {
            let (bs, c1) = visit_bounds(c, bounds);
            (TypeView::TraitObject { bounds: bs }, c1)
        },
        TypeView::ImplTrait { bounds } => {
            let (bs, c1) = visit_bounds(c, bounds);
            (TypeView::ImplTrait { bounds: bs }, c1)
        },
        TypeView::Verbatim { .. } => (t, c),
    }
}

/// Types after the visit from left to right, and the facts after the last.
pub open spec fn visit_types(c: LifetimeFacts, ts: Seq<TypeView>) -> (Seq<TypeView>, LifetimeFacts)
    decreases ts,
{
    if ts.len() == 0 {
        (ts, c)
    } else {
        let (init, c1) = visit_types(c, ts.drop_last());
        let (last, c2) = visit_type(c1, ts.last());
        (init.push(last), c2)
    }
}

/// A path after the visit, and the facts after it.
pub open spec fn visit_path(c: LifetimeFacts, p: PathView) -> (PathView, LifetimeFacts)
    decreases p,
{
    let (ss, c1) = visit_segments(c, p.segments);
    (PathView { leading_colon: p.leading_colon, segments: ss }, c1)
}

/// Path segments after the visit from left to right, and the facts after the last.
pub open spec fn visit_segments(c: LifetimeFacts, ss: Seq<PathSegmentView>) -> (
    Seq<PathSegmentView>,
    LifetimeFacts,
)
    decreases ss,
{
    if ss.len() == 0 {
        (ss, c)
    } else {
        let (init, c1) = visit_segments(c, ss.drop_last());
        let (last, c2) = visit_segment(c1, ss.last());
        (init.push(last), c2)
    }
}

/// A path segment after the visit of its arguments, and the facts after it.
pub open spec fn visit_segment(c: LifetimeFacts, s: PathSegmentView) -> (
    PathSegmentView,
    LifetimeFacts,
)
    decreases s,
{
    let (args, c1) = visit_arguments(c, s.arguments);
    (PathSegmentView { ident: s.ident, arguments: args }, c1)
}

/// Arguments after the visit from left to right, and the facts after the last.
pub open spec fn visit_arguments(c: LifetimeFacts, args: Seq<GenericArgumentView>) -> (
    Seq<GenericArgumentView>,
    LifetimeFacts,
)
    decreases args,
{
    if args.len() == 0 {
        (args, c)
    } else {
        let (init, c1) = visit_arguments(c, args.drop_last());
        let (last, c2) = visit_argument(c1, args.last());
        (init.push(last), c2)
    }
}

/// An argument after the visit, and the facts after it.
pub open spec fn visit_argument(c: LifetimeFacts, a: GenericArgumentView) -> (
    GenericArgumentView,
    LifetimeFacts,
)
    decreases a,
{
    match a {
        GenericArgumentView::Lifetime(l) => {
            let (l1, c1) = visit_lifetime(c, l);
            (GenericArgumentView::Lifetime(l1), c1)
        },
        GenericArgumentView::Type(t) => {
            let (t1, c1) = visit_type(c, t);
            (GenericArgumentView::Type(t1), c1)
        },
        GenericArgumentView::Binding { ident, ty } => {
            let (t1, c1) = visit_type(c, ty);
            (GenericArgumentView::Binding { ident, ty: t1 }, c1)
        },
        GenericArgumentView::Verbatim { .. } => (a, c),
    }
}

/// Bounds after the visit from left to right, and the facts after the last.
pub open spec fn visit_bounds(c: LifetimeFacts, bs: Seq<TypeParamBoundView>) -> (
    Seq<TypeParamBoundView>,
    LifetimeFacts,
)
    decreases bs,
{
    if bs.len() == 0 {
        (bs, c)
    } else {
        let (init, c1) = visit_bounds(c, bs.drop_last());
        let (last, c2) = visit_bound(c1, bs.last());
        (init.push(last), c2)
    }
}

/// A bound after the visit, and the facts after it.
pub open spec fn visit_bound(c: LifetimeFacts, b: TypeParamBoundView) -> (
    TypeParamBoundView,
    LifetimeFacts,
)
    decreases b,
{
    match b {
        TypeParamBoundView::Trait { maybe, path } => {
            let (p, c1) = visit_path(c, path);
            (TypeParamBoundView::Trait { maybe, path: p }, c1)
        },
        TypeParamBoundView::Lifetime(l) => {
            let (l1, c1) = visit_lifetime(c, l);
            (TypeParamBoundView::Lifetime(l1), c1)
        },
        TypeParamBoundView::Verbatim { .. } => (b, c),
    }
}

/// A receiver after the visit, and the facts after it.
pub open spec fn visit_receiver(c: LifetimeFacts, r: ReceiverView) -> (
    ReceiverView,
    LifetimeFacts,
) {
    match r.reference {
        Some(l) => (
            ReceiverView { reference: Some(visit_opt_lifetime(c, l).0), ..r },
            visit_opt_lifetime(c, l).1,
        ),
        None => (r, c),
    }
}

/// Whether one of `ls` is spelled as `l` is.
pub fn contains_lifetime(ls: &Vec<Lifetime>, l: &Lifetime) -> (b: bool)
    ensures
        b == has_name(seq_view(ls@), l@.name),
{
    let mut i: usize = 0;
    while i < ls.len()
        invariant
            i <= ls.len(),
            forall|j: int| 0 <= j < i ==> (#[trigger] seq_view(ls@)[j]).name != l@.name,
        decreases ls.len() - i,
    {
        if ls[i].name == l.name {
            assert(seq_view(ls@)[i as int].name == l@.name);
            return true;
        }
        i = i + 1;
    }
    false
}

impl CollectLifetimes {
    /// A collector that has seen nothing and names what is left out with
    /// the prefix `name`.
    pub fn new(name: &str) -> (r: CollectLifetimes)
        ensures
            r@ == LifetimeFacts::empty(name@),
    {
        let r = CollectLifetimes {
            elided: Vec::new(),
            explicit: Vec::new(),
            name: String::from_str(name),
        };
        assert(r@.elided =~= Seq::empty());
        assert(r@.explicit =~= Seq::empty());
        r
    }

    fn next_lifetime(&mut self) -> (l: Lifetime)
        ensures
            l@ == old(self)@.fresh(),
            final(self)@ == old(self)@.with_fresh(),
    {
        let name = numbered_name(self.name.as_str(), self.elided.len());
        let life = Lifetime { name, span: Span::call_site() };
        self.elided.push(life.clone());
        assert(self@.elided =~= old(self)@.elided.push(life@));
        assert(self@.explicit =~= old(self)@.explicit);
        life
    }

    fn visit_lifetime(&mut self, lifetime: &mut Lifetime)
        ensures
            (final(lifetime)@, final(self)@) == visit_lifetime(old(self)@, old(lifetime)@),
    {
        if lifetime.is("_") {
            *lifetime = self.next_lifetime();
        } else if !contains_lifetime(&self.explicit, lifetime) {
            self.explicit.push(lifetime.clone());
            assert(self@.explicit =~= old(self)@.explicit.push(lifetime@));
            assert(self@.elided =~= old(self)@.elided);
        }
    }

    fn visit_opt_lifetime(&mut self, lifetime: &mut Option<Lifetime>)
        ensures
            (opt_view(*final(lifetime)), final(self)@) == visit_opt_lifetime(
                old(self)@,
                opt_view(*old(lifetime)),
            ),
    {
        match lifetime {
            None => {
                *lifetime = Some(self.next_lifetime());
            },
            Some(lifetime) => {
                self.visit_lifetime(lifetime);
            },
        }
    }

    /// Visits a receiver: records the lifetime of `&'a self`, and gives
    /// `&self` a lifetime in place.
    pub fn visit_receiver_mut(&mut self, arg: &mut Receiver)
        ensures
            (final(arg)@, final(self)@) == visit_receiver(old(self)@, old(arg)@),
    {
        match &mut arg.reference {
            Some(lifetime) => {
                self.visit_opt_lifetime(lifetime);
            },
            None => {},
        }
    }

    /// Visits a type: records its written lifetimes and names its open
    /// positions in place.
    pub fn visit_type_mut(&mut self, ty: &mut Type)
        ensures
            (final(ty)@, final(self)@) == visit_type(old(self)@, old(ty)@),
        decreases *old(ty),
    {
        match ty {
            Type::Reference { lifetime, elem, .. } => {
                self.visit_opt_lifetime(lifetime);
                self.visit_type_mut(elem);
            },
            Type::Path(path) => {
                self.visit_path_mut(path);
            },
            Type::Tuple { elems } => {
                self.visit_types(elems);
            },
            Type::Slice { elem } => {
                self.visit_type_mut(elem);
            },
            Type::Array { elem, .. } => {
                self.visit_type_mut(elem);
            },
            Type::Ptr { elem, .. } => {
                self.visit_type_mut(elem);
            },
            Type::Paren { elem } => {
                self.visit_type_mut(elem);
            },
            Type::TraitObject { bounds } => {
                self.visit_bounds(bounds);
            },
            Type::ImplTrait { bounds } => {
                self.visit_bounds(bounds);
            },
            Type::Verbatim { .. } => {},
        }
    }

    fn visit_types(&mut self, ts: &mut Vec<Type>)
        ensures
            (types_view(final(ts)@), final(self)@) == visit_types(old(self)@, types_view(old(ts)@)),
        decreases *old(ts),
    {
        let mut i: usize = 0;
        let n: usize = ts.len();
        let ghost before = types_view(old(ts)@);
        assert(before.take(0) =~= Seq::empty());
        assert(types_view(ts@).take(0) =~= Seq::empty());
        while i < n
            invariant
                i <= n,
                n == ts@.len(),
                n == old(ts)@.len(),
                before == types_view(old(ts)@),
                forall|j: int| i <= j < n ==> ts@[j] == old(ts)@[j],
                (types_view(ts@).take(i as int), self@) == visit_types(
                    old(self)@,
                    before.take(i as int),
                ),
            decreases n - i,
        {
            assert(decreases_to!(old(ts)@ => old(ts)@[i as int]));
            let ghost mid = types_view(ts@);
            self.visit_type_mut(&mut ts[i]);
            proof {
                assert(before.take(i + 1).drop_last() =~= before.take(i as int));
                assert(types_view(ts@).take(i + 1) =~= mid.take(i as int).push(
                    types_view(ts@)[i as int],
                ));
            }
            i = i + 1;
        }
        assert(before.take(n as int) =~= before);
        assert(types_view(ts@).take(n as int) =~= types_view(ts@));
    }

    /// Visits a path: records its written lifetimes and names its open
    /// positions in place.
    pub fn visit_path_mut(&mut self, path: &mut Path)
        ensures
            (final(path)@, final(self)@) == visit_path(old(self)@, old(path)@),
        decreases *old(path),
    {
        self.visit_segments(&mut path.segments);
    }

    fn visit_segments(&mut self, ss: &mut Vec<PathSegment>)
        ensures
            (segments_view(final(ss)@), final(self)@) == visit_segments(
                old(self)@,
                segments_view(old(ss)@),
            ),
        decreases *old(ss),
    {
        let mut i: usize = 0;
        let n: usize = ss.len();
        let ghost before = segments_view(old(ss)@);
        assert(before.take(0) =~= Seq::empty());
        assert(segments_view(ss@).take(0) =~= Seq::empty());
        while i < n
            invariant
                i <= n,
                n == ss@.len(),
                n == old(ss)@.len(),
                before == segments_view(old(ss)@),
                forall|j: int| i <= j < n ==> ss@[j] == old(ss)@[j],
                (segments_view(ss@).take(i as int), self@) == visit_segments(
                    old(self)@,
                    before.take(i as int),
                ),
            decreases n - i,
        {
            assert(decreases_to!(old(ss)@ => old(ss)@[i as int]));
            let ghost mid = segments_view(ss@);
            self.visit_segment(&mut ss[i]);
            proof {
                assert(before.take(i + 1).drop_last() =~= before.take(i as int));
                assert(segments_view(ss@).take(i + 1) =~= mid.take(i as int).push(
                    segments_view(ss@)[i as int],
                ));
            }
            i = i + 1;
        }
        assert(before.take(n as int) =~= before);
        assert(segments_view(ss@).take(n as int) =~= segments_view(ss@));
    }

    fn visit_segment(&mut self, s: &mut PathSegment)
        ensures
            (final(s)@, final(self)@) == visit_segment(old(self)@, old(s)@),
        decreases *old(s),
    {
        self.visit_arguments(&mut s.arguments);
    }

    fn visit_arguments(&mut self, args: &mut Vec<GenericArgument>)
        ensures
            (arguments_view(final(args)@), final(self)@) == visit_arguments(
                old(self)@,
                arguments_view(old(args)@),
            ),
        decreases *old(args),
    {
        let mut i: usize = 0;
        let n: usize = args.len();
        let ghost before = arguments_view(old(args)@);
        assert(before.take(0) =~= Seq::empty());
        assert(arguments_view(args@).take(0) =~= Seq::empty());
        while i < n
            invariant
                i <= n,
                n == args@.len(),
                n == old(args)@.len(),
                before == arguments_view(old(args)@),
                forall|j: int| i <= j < n ==> args@[j] == old(args)@[j],
                (arguments_view(args@).take(i as int), self@) == visit_arguments(
                    old(self)@,
                    before.take(i as int),
                ),
            decreases n - i,
        {
            assert(decreases_to!(old(args)@ => old(args)@[i as int]));
            let ghost mid = arguments_view(args@);
            self.visit_argument(&mut args[i]);
            proof {
                assert(before.take(i + 1).drop_last() =~= before.take(i as int));
                assert(arguments_view(args@).take(i + 1) =~= mid.take(i as int).push(
                    arguments_view(args@)[i as int],
                ));
            }
            i = i + 1;
        }
        assert(before.take(n as int) =~= before);
        assert(arguments_view(args@).take(n as int) =~= arguments_view(args@));
    }

    fn visit_argument(&mut self, a: &mut GenericArgument)
        ensures
            (final(a)@, final(self)@) == visit_argument(old(self)@, old(a)@),
        decreases *old(a),
    {
        match a {
            GenericArgument::Lifetime(l) => {
                self.visit_lifetime(l);
            },
            GenericArgument::Type(t) => {
                self.visit_type_mut(t);
            },
            GenericArgument::Binding { ty, .. } => {
                self.visit_type_mut(ty);
            },
            GenericArgument::Verbatim { .. } => {},
        }
    }

    fn visit_bounds(&mut self, bs: &mut Vec<TypeParamBound>)
        ensures
            (bounds_view(final(bs)@), final(self)@) == visit_bounds(
                old(self)@,
                bounds_view(old(bs)@),
            ),
        decreases *old(bs),
    {
        let mut i: usize = 0;
        let n: usize = bs.len();
        let ghost before = bounds_view(old(bs)@);
        assert(before.take(0) =~= Seq::empty());
        assert(bounds_view(bs@).take(0) =~= Seq::empty());
        while i < n
            invariant
                i <= n,
                n == bs@.len(),
                n == old(bs)@.len(),
                before == bounds_view(old(bs)@),
                forall|j: int| i <= j < n ==> bs@[j] == old(bs)@[j],
                (bounds_view(bs@).take(i as int), self@) == visit_bounds(
                    old(self)@,
                    before.take(i as int),
                ),
            decreases n - i,
        {
            assert(decreases_to!(old(bs)@ => old(bs)@[i as int]));
            let ghost mid = bounds_view(bs@);
            self.visit_bound(&mut bs[i]);
            proof {
                assert(before.take(i + 1).drop_last() =~= before.take(i as int));
                assert(bounds_view(bs@).take(i + 1) =~= mid.take(i as int).push(
                    bounds_view(bs@)[i as int],
                ));
            }
            i = i + 1;
        }
        assert(before.take(n as int) =~= before);
        assert(bounds_view(bs@).take(n as int) =~= bounds_view(bs@));
    }

    fn visit_bound(&mut self, b: &mut TypeParamBound)
        ensures
            (final(b)@, final(self)@) == visit_bound(old(self)@, old(b)@),
        decreases *old(b),
    {
        match b {
            TypeParamBound::Trait { path, .. } => {
                self.visit_path_mut(path);
            },
            TypeParamBound::Lifetime(l) => {
                self.visit_lifetime(l);
            },
            TypeParamBound::Verbatim { .. } => {},
        }
    }
}

/// Seeing a lifetime keeps the facts well formed and the prefix as it is.
pub proof fn lemma_visit_lifetime_wf(c: LifetimeFacts, l: LifetimeView)
    requires
        c.wf(),
    ensures
        visit_lifetime(c, l).1.wf(),
        visit_lifetime(c, l).1.name == c.name,
{
}

/// Visiting the lifetime of a reference keeps the facts well formed.
pub proof fn lemma_visit_opt_lifetime_wf(c: LifetimeFacts, l: Option<LifetimeView>)
    requires
        c.wf(),
    ensures
        visit_opt_lifetime(c, l).1.wf(),
        visit_opt_lifetime(c, l).1.name == c.name,
{
    if let Some(l) = l {
        lemma_visit_lifetime_wf(c, l);
    }
}

/// Visiting a receiver keeps the facts well formed.
pub proof fn lemma_visit_receiver_wf(c: LifetimeFacts, r: ReceiverView)
    requires
        c.wf(),
    ensures
        visit_receiver(c, r).1.wf(),
        visit_receiver(c, r).1.name == c.name,
{
    if let Some(l) = r.reference {
        lemma_visit_opt_lifetime_wf(c, l);
    }
}

/// Visiting a type keeps the facts well formed and the prefix as it is.
pub proof fn lemma_visit_type_wf(c: LifetimeFacts, t: TypeView)
    requires
        c.wf(),
    ensures
        visit_type(c, t).1.wf(),
        visit_type(c, t).1.name == c.name,
    decreases t,
{
    match t {
        TypeView::Reference { lifetime, elem, .. } => {
            lemma_visit_opt_lifetime_wf(c, lifetime);
            lemma_visit_type_wf(visit_opt_lifetime(c, lifetime).1, *elem);
        },
        TypeView::Path(path) => {
            lemma_visit_path_wf(c, path);
        },
        TypeView::Tuple { elems } => {
            lemma_visit_types_wf(c, elems);
        },
        TypeView::Slice { elem } => {
            lemma_visit_type_wf(c, *elem);
        },
        TypeView::Array { elem, .. } => {
            lemma_visit_type_wf(c, *elem);
        },
        TypeView::Ptr { elem, .. } => {
            lemma_visit_type_wf(c, *elem);
        },
        TypeView::Paren { elem } => {
            lemma_visit_type_wf(c, *elem);
        },
        TypeView::TraitObject { bounds } => {
            lemma_visit_bounds_wf(c, bounds);
        },
        TypeView::ImplTrait { bounds } => {
            lemma_visit_bounds_wf(c, bounds);
        },
        TypeView::Verbatim { .. } => {},
    }
}

/// Visiting types keeps the facts well formed.
pub proof fn lemma_visit_types_wf(c: LifetimeFacts, ts: Seq<TypeView>)
    requires
        c.wf(),
    ensures
        visit_types(c, ts).1.wf(),
        visit_types(c, ts).1.name == c.name,
    decreases ts,
{
    if ts.len() > 0 {
        lemma_visit_types_wf(c, ts.drop_last());
        lemma_visit_type_wf(visit_types(c, ts.drop_last()).1, ts.last());
    }
}

/// Visiting a path keeps the facts well formed and the prefix as it is.
pub proof fn lemma_visit_path_wf(c: LifetimeFacts, p: PathView)
    requires
        c.wf(),
    ensures
        visit_path(c, p).1.wf(),
        visit_path(c, p).1.name == c.name,
    decreases p,
{
    lemma_visit_segments_wf(c, p.segments);
}

/// Visiting path segments keeps the facts well formed.
pub proof fn lemma_visit_segments_wf(c: LifetimeFacts, ss: Seq<PathSegmentView>)
    requires
        c.wf(),
    ensures
        visit_segments(c, ss).1.wf(),
        visit_segments(c, ss).1.name == c.name,
    decreases ss,
{
    if ss.len() > 0 {
        lemma_visit_segments_wf(c, ss.drop_last());
        lemma_visit_segment_wf(visit_segments(c, ss.drop_last()).1, ss.last());
    }
}

/// Visiting a path segment keeps the facts well formed.
pub proof fn lemma_visit_segment_wf(c: LifetimeFacts, s: PathSegmentView)
    requires
        c.wf(),
    ensures
        visit_segment(c, s).1.wf(),
        visit_segment(c, s).1.name == c.name,
    decreases s,
{
    lemma_visit_arguments_wf(c, s.arguments);
}

/// Visiting arguments keeps the facts well formed.
pub proof fn lemma_visit_arguments_wf(c: LifetimeFacts, args: Seq<GenericArgumentView>)
    requires
        c.wf(),
    ensures
        visit_arguments(c, args).1.wf(),
        visit_arguments(c, args).1.name == c.name,
    decreases args,
{
    if args.len() > 0 {
        lemma_visit_arguments_wf(c, args.drop_last());
        lemma_visit_argument_wf(visit_arguments(c, args.drop_last()).1, args.last());
    }
}

/// Visiting an argument keeps the facts well formed.
pub proof fn lemma_visit_argument_wf(c: LifetimeFacts, a: GenericArgumentView)
    requires
        c.wf(),
    ensures
        visit_argument(c, a).1.wf(),
        visit_argument(c, a).1.name == c.name,
    decreases a,
{
    match a {
        GenericArgumentView::Lifetime(l) => {
            lemma_visit_lifetime_wf(c, l);
        },
        GenericArgumentView::Type(t) => {
            lemma_visit_type_wf(c, t);
        },
        GenericArgumentView::Binding { ty, .. } => {
            lemma_visit_type_wf(c, ty);
        },
        GenericArgumentView::Verbatim { .. } => {},
    }
}

/// Visiting bounds keeps the facts well formed.
pub proof fn lemma_visit_bounds_wf(c: LifetimeFacts, bs: Seq<TypeParamBoundView>)
    requires
        c.wf(),
    ensures
        visit_bounds(c, bs).1.wf(),
        visit_bounds(c, bs).1.name == c.name,
    decreases bs,
{
    if bs.len() > 0 {
        lemma_visit_bounds_wf(c, bs.drop_last());
        lemma_visit_bound_wf(visit_bounds(c, bs.drop_last()).1, bs.last());
    }
}

/// Visiting a bound keeps the facts well formed.
pub proof fn lemma_visit_bound_wf(c: LifetimeFacts, b: TypeParamBoundView)
    requires
        c.wf(),
    ensures
        visit_bound(c, b).1.wf(),
        visit_bound(c, b).1.name == c.name,
    decreases b,
{
    match b {
        TypeParamBoundView::Trait { path, .. } => {
            lemma_visit_path_wf(c, path);
        },
        TypeParamBoundView::Lifetime(l) => {
            lemma_visit_lifetime_wf(c, l);
        },
        TypeParamBoundView::Verbatim { .. } => {},
    }
}

/// No two of the names given to open positions are the same.
pub proof fn lemma_elided_names_differ(c: LifetimeFacts, i: int, j: int)
    requires
        c.wf(),
        0 <= i < c.elided.len(),
        0 <= j < c.elided.len(),
        i != j,
    ensures
        c.elided[i].name != c.elided[j].name,
{
    lemma_numbered_names_differ(c.name, i as nat, j as nat);
}

} // verus!
