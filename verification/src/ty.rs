//! Types, paths and bounds as they are written in signatures.

use crate::token::clone_trees;
use crate::token::tokens_mention_self;
use crate::token::trees_mention_self;
use crate::token::trees_view;
use crate::token::Ident;
use crate::token::IdentView;
use crate::token::Lifetime;
use crate::token::LifetimeView;
use crate::token::TokenTree;
use crate::token::TokenTreeView;
use crate::token::opt_view;
use vstd::prelude::*;

verus! {

/// A type as written in the source.
#[derive(Debug, PartialEq, Eq)]
pub enum Type {
    /// `&'a mut T`
    Reference { lifetime: Option<Lifetime>, mutable: bool, elem: Box<Type> },
    /// `a::b::C<'x, T>`
    Path(Path),
    /// `(A, B)`; without elements it is the unit type.
    Tuple { elems: Vec<Type> },
    /// `[T]`
    Slice { elem: Box<Type> },
    /// `[T; len]`
    Array { elem: Box<Type>, len: Vec<TokenTree> },
    /// `*const T` or `*mut T`
    Ptr { mutable: bool, elem: Box<Type> },
    /// `(T)`
    Paren { elem: Box<Type> },
    /// `dyn A + B + 'a`
    TraitObject { bounds: Vec<TypeParamBound> },
    /// `impl A + B + 'a`
    ImplTrait { bounds: Vec<TypeParamBound> },
    /// Any other type, kept as it was written: a function pointer, a macro,
    /// `!` or `_`. It is carried along and never looked into for lifetimes.
    Verbatim { tokens: Vec<TokenTree> },
}

/// A path such as `::core::marker::Send`.
#[derive(Debug, PartialEq, Eq)]
pub struct Path {
    pub leading_colon: bool,
    pub segments: Vec<PathSegment>,
}

/// One segment of a path with its arguments in angle brackets, if any.
#[derive(Debug, PartialEq, Eq)]
pub struct PathSegment {
    pub ident: Ident,
    pub arguments: Vec<GenericArgument>,
}

/// One argument in angle brackets.
#[derive(Debug, PartialEq, Eq)]
pub enum GenericArgument {
    Lifetime(Lifetime),
    Type(Type),
    /// `Output = T`
    Binding { ident: Ident, ty: Type },
    /// A constant expression or a constraint, kept as it was written.
    Verbatim { tokens: Vec<TokenTree> },
}

/// One bound of a type parameter, of a trait object or of a supertrait list.
#[derive(Debug, PartialEq, Eq)]
pub enum TypeParamBound {
    /// A trait; `maybe` stands for a leading `?`.
    Trait { maybe: bool, path: Path },
    Lifetime(Lifetime),
    /// A bound of another shape (`for<'a> ...`, `Fn(A) -> B`), kept as it was
    /// written.
    Verbatim { tokens: Vec<TokenTree> },
}

/// The view of [`Type`].
pub enum TypeView {
    Reference { lifetime: Option<LifetimeView>, mutable: bool, elem: Box<TypeView> },
    Path(PathView),
    Tuple { elems: Seq<TypeView> },
    Slice { elem: Box<TypeView> },
    Array { elem: Box<TypeView>, len: Seq<TokenTreeView> },
    Ptr { mutable: bool, elem: Box<TypeView> },
    Paren { elem: Box<TypeView> },
    TraitObject { bounds: Seq<TypeParamBoundView> },
    ImplTrait { bounds: Seq<TypeParamBoundView> },
    Verbatim { tokens: Seq<TokenTreeView> },
}

/// The view of [`Path`].
pub struct PathView {
    pub leading_colon: bool,
    pub segments: Seq<PathSegmentView>,
}

/// The view of [`PathSegment`].
pub struct PathSegmentView {
    pub ident: IdentView,
    pub arguments: Seq<GenericArgumentView>,
}

/// The view of [`GenericArgument`].
pub enum GenericArgumentView {
    Lifetime(LifetimeView),
    Type(TypeView),
    Binding { ident: IdentView, ty: TypeView },
    Verbatim { tokens: Seq<TokenTreeView> },
}

/// The view of [`TypeParamBound`].
pub enum TypeParamBoundView {
    Trait { maybe: bool, path: PathView },
    Lifetime(LifetimeView),
    Verbatim { tokens: Seq<TokenTreeView> },
}

/// The view of a type.
pub open spec fn type_view(t: Type) -> TypeView
    decreases t,
{
    match t {
        Type::Reference { lifetime, mutable, elem } => TypeView::Reference {
            lifetime: opt_view(lifetime),
            mutable,
            elem: Box::new(type_view(*elem)),
        },
        Type::Path(path) => TypeView::Path(path_view(path)),
        Type::Tuple { elems } => TypeView::Tuple { elems: types_view(elems@) },
        Type::Slice { elem } => TypeView::Slice { elem: Box::new(type_view(*elem)) },
        Type::Array { elem, len } => TypeView::Array {
            elem: Box::new(type_view(*elem)),
            len: trees_view(len@),
        },
        Type::Ptr { mutable, elem } => TypeView::Ptr { mutable, elem: Box::new(type_view(*elem)) },
        Type::Paren { elem } => TypeView::Paren { elem: Box::new(type_view(*elem)) },
        Type::TraitObject { bounds } => TypeView::TraitObject { bounds: bounds_view(bounds@) },
        Type::ImplTrait { bounds } => TypeView::ImplTrait { bounds: bounds_view(bounds@) },
        Type::Verbatim { tokens } => TypeView::Verbatim { tokens: trees_view(tokens@) },
    }
}

/// The views of types, in their order.
pub open spec fn types_view(ts: Seq<Type>) -> Seq<TypeView>
    decreases ts,
{
    Seq::new(
        ts.len(),
        |i: int|
            if 0 <= i < ts.len() {
                type_view(ts[i])
            } else {
                arbitrary()
            },
    )
}

/// The view of a path.
pub open spec fn path_view(p: Path) -> PathView
    decreases p,
{
    PathView { leading_colon: p.leading_colon, segments: segments_view(p.segments@) }
}

/// The views of path segments, in their order.
pub open spec fn segments_view(ss: Seq<PathSegment>) -> Seq<PathSegmentView>
    decreases ss,
{
    Seq::new(
        ss.len(),
        |i: int|
            if 0 <= i < ss.len() {
                segment_view(ss[i])
            } else {
                arbitrary()
            },
    )
}

/// The view of a path segment.
pub open spec fn segment_view(s: PathSegment) -> PathSegmentView
    decreases s,
{
    PathSegmentView { ident: s.ident@, arguments: arguments_view(s.arguments@) }
}

/// The views of arguments, in their order.
pub open spec fn arguments_view(args: Seq<GenericArgument>) -> Seq<GenericArgumentView>
    decreases args,
{
    Seq::new(
        args.len(),
        |i: int|
            if 0 <= i < args.len() {
                argument_view(args[i])
            } else {
                arbitrary()
            },
    )
}

/// The view of an argument.
pub open spec fn argument_view(a: GenericArgument) -> GenericArgumentView
    decreases a,
{
    match a {
        GenericArgument::Lifetime(l) => GenericArgumentView::Lifetime(l@),
        GenericArgument::Type(t) => GenericArgumentView::Type(type_view(t)),
        GenericArgument::Binding { ident, ty } => GenericArgumentView::Binding {
            ident: ident@,
            ty: type_view(ty),
        },
        GenericArgument::Verbatim { tokens } => GenericArgumentView::Verbatim {
            tokens: trees_view(tokens@),
        },
    }
}

/// The views of bounds, in their order.
pub open spec fn bounds_view(bs: Seq<TypeParamBound>) -> Seq<TypeParamBoundView>
    decreases bs,
{
    Seq::new(
        bs.len(),
        |i: int|
            if 0 <= i < bs.len() {
                bound_view(bs[i])
            } else {
                arbitrary()
            },
    )
}

/// The view of a bound.
pub open spec fn bound_view(b: TypeParamBound) -> TypeParamBoundView
    decreases b,
{
    match b {
        TypeParamBound::Trait { maybe, path } => TypeParamBoundView::Trait {
            maybe,
            path: path_view(path),
        },
        TypeParamBound::Lifetime(l) => TypeParamBoundView::Lifetime(l@),
        TypeParamBound::Verbatim { tokens } => TypeParamBoundView::Verbatim {
            tokens: trees_view(tokens@),
        },
    }
}

impl View for Type {
    type V = TypeView;

    open spec fn view(&self) -> TypeView {
        type_view(*self)
    }
}

impl View for Path {
    type V = PathView;

    open spec fn view(&self) -> PathView {
        path_view(*self)
    }
}

impl View for PathSegment {
    type V = PathSegmentView;

    open spec fn view(&self) -> PathSegmentView {
        segment_view(*self)
    }
}

impl View for GenericArgument {
    type V = GenericArgumentView;

    open spec fn view(&self) -> GenericArgumentView {
        argument_view(*self)
    }
}

impl View for TypeParamBound {
    type V = TypeParamBoundView;

    open spec fn view(&self) -> TypeParamBoundView {
        bound_view(*self)
    }
}

/// Whether a type names `Self`.
pub open spec fn type_mentions_self(t: TypeView) -> bool
    decreases t,
{
    match t {
        TypeView::Reference { elem, .. } => type_mentions_self(*elem),
        TypeView::Path(path) => path_mentions_self(path),
        TypeView::Tuple { elems } => types_mention_self(elems),
        TypeView::Slice { elem } => type_mentions_self(*elem),
        TypeView::Array { elem, len } => type_mentions_self(*elem) || trees_mention_self(len),
        TypeView::Ptr { elem, .. } => type_mentions_self(*elem),
        TypeView::Paren { elem } => type_mentions_self(*elem),
        TypeView::TraitObject { bounds } => bounds_mention_self(bounds),
        TypeView::ImplTrait { bounds } => bounds_mention_self(bounds),
        TypeView::Verbatim { tokens } => trees_mention_self(tokens),
    }
}

/// Whether one of the types names `Self`.
pub open spec fn types_mention_self(ts: Seq<TypeView>) -> bool
    decreases ts,
{
    exists|i: int| 0 <= i < ts.len() && type_mentions_self(#[trigger] ts[i])
}

/// Whether a path has a segment `Self`, or names `Self` in its arguments.
pub open spec fn path_mentions_self(p: PathView) -> bool
    decreases p,
{
    segments_mention_self(p.segments)
}

/// Whether one of the segments is `Self` or names `Self` in its arguments.
pub open spec fn segments_mention_self(ss: Seq<PathSegmentView>) -> bool
    decreases ss,
{
    exists|i: int| 0 <= i < ss.len() && segment_mentions_self(#[trigger] ss[i])
}

/// Whether a segment is `Self` or names `Self` in its arguments.
pub open spec fn segment_mentions_self(s: PathSegmentView) -> bool
    decreases s,
{
    s.ident.name == "Self"@ || arguments_mention_self(s.arguments)
}

/// Whether one of the arguments names `Self`.
pub open spec fn arguments_mention_self(args: Seq<GenericArgumentView>) -> bool
    decreases args,
{
    exists|i: int| 0 <= i < args.len() && argument_mentions_self(#[trigger] args[i])
}

/// Whether an argument names `Self`.
pub open spec fn argument_mentions_self(a: GenericArgumentView) -> bool
    decreases a,
{
    match a {
        GenericArgumentView::Lifetime(_) => false,
        GenericArgumentView::Type(t) => type_mentions_self(t),
        GenericArgumentView::Binding { ty, .. } => type_mentions_self(ty),
        GenericArgumentView::Verbatim { tokens } => trees_mention_self(tokens),
    }
}

/// Whether one of the bounds names `Self`.
pub open spec fn bounds_mention_self(bs: Seq<TypeParamBoundView>) -> bool
    decreases bs,
{
    exists|i: int| 0 <= i < bs.len() && bound_mentions_self(#[trigger] bs[i])
}

/// Whether a bound names `Self`.
pub open spec fn bound_mentions_self(b: TypeParamBoundView) -> bool
    decreases b,
{
    match b {
        TypeParamBoundView::Trait { path, .. } => path_mentions_self(path),
        TypeParamBoundView::Lifetime(_) => false,
        TypeParamBoundView::Verbatim { tokens } => trees_mention_self(tokens),
    }
}

/// A copy of an optional lifetime.
pub fn clone_lifetime_option(l: &Option<Lifetime>) -> (r: Option<Lifetime>)
    ensures
        opt_view(r) == opt_view(*l),
{
    match l {
        Some(l) => Some(l.clone()),
        None => None,
    }
}

impl Clone for Type {
    fn clone(&self) -> (r: Type)
        ensures
            r@ == self@,
        decreases self,
    {
        match self {
            Type::Reference { lifetime, mutable, elem } => Type::Reference {
                lifetime: clone_lifetime_option(lifetime),
                mutable: *mutable,
                elem: Box::new(Type::clone(elem)),
            },
            Type::Path(path) => Type::Path(path.clone()),
            Type::Tuple { elems } => Type::Tuple { elems: clone_types(elems) },
            Type::Slice { elem } => Type::Slice { elem: Box::new(Type::clone(elem)) },
            Type::Array { elem, len } => Type::Array {
                elem: Box::new(Type::clone(elem)),
                len: clone_trees(len),
            },
            Type::Ptr { mutable, elem } => Type::Ptr {
                mutable: *mutable,
                elem: Box::new(Type::clone(elem)),
            },
            Type::Paren { elem } => Type::Paren { elem: Box::new(Type::clone(elem)) },
            Type::TraitObject { bounds } => Type::TraitObject { bounds: clone_bounds(bounds) },
            Type::ImplTrait { bounds } => Type::ImplTrait { bounds: clone_bounds(bounds) },
            Type::Verbatim { tokens } => Type::Verbatim { tokens: clone_trees(tokens) },
        }
    }
}

/// A copy of the types.
pub fn clone_types(ts: &Vec<Type>) -> (r: Vec<Type>)
    ensures
        types_view(r@) == types_view(ts@),
    decreases ts,
{
    let mut out: Vec<Type> = Vec::new();
    let mut i: usize = 0;
    while i < ts.len()
        invariant
            i <= ts.len(),
            out@.len() == i,
            forall|j: int| 0 <= j < i ==> type_view(#[trigger] out@[j]) == type_view(ts@[j]),
        decreases ts.len() - i,
    {
        assert(decreases_to!(ts@ => ts@[i as int]));
        out.push(ts[i].clone());
        i = i + 1;
    }
    assert(types_view(out@) =~= types_view(ts@));
    out
}

impl Clone for Path {
    fn clone(&self) -> (r: Path)
        ensures
            r@ == self@,
        decreases self,
    {
        Path { leading_colon: self.leading_colon, segments: clone_segments(&self.segments) }
    }
}

/// A copy of the path segments.
pub fn clone_segments(ss: &Vec<PathSegment>) -> (r: Vec<PathSegment>)
    ensures
        segments_view(r@) == segments_view(ss@),
    decreases ss,
{
    let mut out: Vec<PathSegment> = Vec::new();
    let mut i: usize = 0;
    while i < ss.len()
        invariant
            i <= ss.len(),
            out@.len() == i,
            forall|j: int| 0 <= j < i ==> segment_view(#[trigger] out@[j]) == segment_view(ss@[j]),
        decreases ss.len() - i,
    {
        assert(decreases_to!(ss@ => ss@[i as int]));
        out.push(ss[i].clone());
        i = i + 1;
    }
    assert(segments_view(out@) =~= segments_view(ss@));
    out
}

impl Clone for PathSegment {
    fn clone(&self) -> (r: PathSegment)
        ensures
            r@ == self@,
        decreases self,
    {
        PathSegment { ident: self.ident.clone(), arguments: clone_arguments(&self.arguments) }
    }
}

/// A copy of the arguments.
pub fn clone_arguments(args: &Vec<GenericArgument>) -> (r: Vec<GenericArgument>)
    ensures
        arguments_view(r@) == arguments_view(args@),
    decreases args,
{
    let mut out: Vec<GenericArgument> = Vec::new();
    let mut i: usize = 0;
    while i < args.len()
        invariant
            i <= args.len(),
            out@.len() == i,
            forall|j: int|
                0 <= j < i ==> argument_view(#[trigger] out@[j]) == argument_view(args@[j]),
        decreases args.len() - i,
    {
        assert(decreases_to!(args@ => args@[i as int]));
        out.push(args[i].clone());
        i = i + 1;
    }
    assert(arguments_view(out@) =~= arguments_view(args@));
    out
}

impl Clone for GenericArgument {
    fn clone(&self) -> (r: GenericArgument)
        ensures
            r@ == self@,
        decreases self,
    {
        match self {
            GenericArgument::Lifetime(l) => GenericArgument::Lifetime(l.clone()),
            GenericArgument::Type(t) => GenericArgument::Type(t.clone()),
            GenericArgument::Binding { ident, ty } => GenericArgument::Binding {
                ident: ident.clone(),
                ty: ty.clone(),
            },
            GenericArgument::Verbatim { tokens } => GenericArgument::Verbatim {
                tokens: clone_trees(tokens),
            },
        }
    }
}

impl Clone for TypeParamBound {
    fn clone(&self) -> (r: TypeParamBound)
        ensures
            r@ == self@,
        decreases self,
    {
        match self {
            TypeParamBound::Trait { maybe, path } => TypeParamBound::Trait {
                maybe: *maybe,
                path: path.clone(),
            },
            TypeParamBound::Lifetime(l) => TypeParamBound::Lifetime(l.clone()),
            TypeParamBound::Verbatim { tokens } => TypeParamBound::Verbatim {
                tokens: clone_trees(tokens),
            },
        }
    }
}

/// A copy of the bounds.
pub fn clone_bounds(bs: &Vec<TypeParamBound>) -> (r: Vec<TypeParamBound>)
    ensures
        bounds_view(r@) == bounds_view(bs@),
    decreases bs,
{
    let mut out: Vec<TypeParamBound> = Vec::new();
    let mut i: usize = 0;
    while i < bs.len()
        invariant
            i <= bs.len(),
            out@.len() == i,
            forall|j: int| 0 <= j < i ==> bound_view(#[trigger] out@[j]) == bound_view(bs@[j]),
        decreases bs.len() - i,
    {
        assert(decreases_to!(bs@ => bs@[i as int]));
        out.push(bs[i].clone());
        i = i + 1;
    }
    assert(bounds_view(out@) =~= bounds_view(bs@));
    out
}

impl Type {
    /// Whether the type names `Self`.
    pub fn mentions_self(&self) -> (b: bool)
        ensures
            b == type_mentions_self(self@),
        decreases self,
    {
        match self {
            Type::Reference { elem, .. } => Type::mentions_self(elem),
            Type::Path(path) => path.mentions_self(),
            Type::Tuple { elems } => any_type_mentions_self(elems),
            Type::Slice { elem } => Type::mentions_self(elem),
            Type::Array { elem, len } => Type::mentions_self(elem) || tokens_mention_self(len),
            Type::Ptr { elem, .. } => Type::mentions_self(elem),
            Type::Paren { elem } => Type::mentions_self(elem),
            Type::TraitObject { bounds } => any_bound_mentions_self(bounds),
            Type::ImplTrait { bounds } => any_bound_mentions_self(bounds),
            Type::Verbatim { tokens } => tokens_mention_self(tokens),
        }
    }
}

/// Whether one of the types names `Self`.
pub fn any_type_mentions_self(ts: &Vec<Type>) -> (b: bool)
    ensures
        b == types_mention_self(types_view(ts@)),
    decreases ts,
{
    let mut i: usize = 0;
    while i < ts.len()
        invariant
            i <= ts.len(),
            forall|j: int| 0 <= j < i ==> !type_mentions_self(#[trigger] types_view(ts@)[j]),
        decreases ts.len() - i,
    {
        assert(decreases_to!(ts@ => ts@[i as int]));
        if ts[i].mentions_self() {
            assert(type_mentions_self(types_view(ts@)[i as int]));
            return true;
        }
        i = i + 1;
    }
    false
}

impl Path {
    /// Whether the path has a segment `Self`, or names `Self` in its
    /// arguments.
    pub fn mentions_self(&self) -> (b: bool)
        ensures
            b == path_mentions_self(self@),
        decreases self,
    {
        any_segment_mentions_self(&self.segments)
    }
}

/// Whether one of the segments is `Self` or names `Self` in its arguments.
pub fn any_segment_mentions_self(ss: &Vec<PathSegment>) -> (b: bool)
    ensures
        b == segments_mention_self(segments_view(ss@)),
    decreases ss,
{
    let mut i: usize = 0;
    while i < ss.len()
        invariant
            i <= ss.len(),
            forall|j: int| 0 <= j < i ==> !segment_mentions_self(#[trigger] segments_view(ss@)[j]),
        decreases ss.len() - i,
    {
        assert(decreases_to!(ss@ => ss@[i as int]));
        if ss[i].mentions_self() {
            assert(segment_mentions_self(segments_view(ss@)[i as int]));
            return true;
        }
        i = i + 1;
    }
    false
}

impl PathSegment {
    /// Whether this part of a type names `Self`.
    pub fn mentions_self(&self) -> (b: bool)
        ensures
            b == segment_mentions_self(self@),
        decreases self,
    {
        self.ident.is("Self") || any_argument_mentions_self(&self.arguments)
    }
}

/// Whether one of the arguments names `Self`.
pub fn any_argument_mentions_self(args: &Vec<GenericArgument>) -> (b: bool)
    ensures
        b == arguments_mention_self(arguments_view(args@)),
    decreases args,
{
    let mut i: usize = 0;
    while i < args.len()
        invariant
            i <= args.len(),
            forall|j: int|
                0 <= j < i ==> !argument_mentions_self(#[trigger] arguments_view(args@)[j]),
        decreases args.len() - i,
    {
        assert(decreases_to!(args@ => args@[i as int]));
        if args[i].mentions_self() {
            assert(argument_mentions_self(arguments_view(args@)[i as int]));
            return true;
        }
        i = i + 1;
    }
    false
}

impl GenericArgument {
    /// Whether this part of a type names `Self`.
    pub fn mentions_self(&self) -> (b: bool)
        ensures
            b == argument_mentions_self(self@),
        decreases self,
    {
        match self {
            GenericArgument::Lifetime(_) => false,
            GenericArgument::Type(t) => t.mentions_self(),
            GenericArgument::Binding { ty, .. } => ty.mentions_self(),
            GenericArgument::Verbatim { tokens } => tokens_mention_self(tokens),
        }
    }
}

impl TypeParamBound {
    /// Whether this part of a type names `Self`.
    pub fn mentions_self(&self) -> (b: bool)
        ensures
            b == bound_mentions_self(self@),
        decreases self,
    {
        match self {
            TypeParamBound::Trait { path, .. } => path.mentions_self(),
            TypeParamBound::Lifetime(_) => false,
            TypeParamBound::Verbatim { tokens } => tokens_mention_self(tokens),
        }
    }
}

/// Whether one of the bounds names `Self`.
pub fn any_bound_mentions_self(bs: &Vec<TypeParamBound>) -> (b: bool)
    ensures
        b == bounds_mention_self(bounds_view(bs@)),
    decreases bs,
{
    let mut i: usize = 0;
    while i < bs.len()
        invariant
            i <= bs.len(),
            forall|j: int| 0 <= j < i ==> !bound_mentions_self(#[trigger] bounds_view(bs@)[j]),
        decreases bs.len() - i,
    {
        assert(decreases_to!(bs@ => bs@[i as int]));
        if bs[i].mentions_self() {
            assert(bound_mentions_self(bounds_view(bs@)[i as int]));
            return true;
        }
        i = i + 1;
    }
    false
}

} // verus!
