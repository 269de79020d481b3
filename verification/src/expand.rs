//! The rewriting itself: signatures, bodies, and whole traits and impls.

use crate::decimal::decimal;
use crate::decimal::numbered_name;
use crate::item::Attribute;
use crate::item::AttributeView;
use crate::item::Block;
use crate::item::BlockView;
use crate::item::ImplItem;
use crate::item::ImplItemMethod;
use crate::item::ImplItemMethodView;
use crate::item::ImplItemView;
use crate::item::Item;
use crate::item::ItemImpl;
use crate::item::ItemImplView;
use crate::item::ItemTraitView;
use crate::item::ItemView;
use crate::item::Local;
use crate::item::LocalView;
use crate::item::TraitItem;
use crate::item::TraitItemMethod;
use crate::item::TraitItemMethodView;
use crate::item::TraitItemView;
use crate::lifetime::contains_lifetime;
use crate::lifetime::has_name;
use crate::lifetime::visit_path;
use crate::lifetime::visit_receiver;
use crate::lifetime::visit_type;
use crate::lifetime::CollectLifetimes;
use crate::lifetime::LifetimeFacts;
use crate::receiver::block_mentions_self;
use crate::receiver::block_without_self;
use crate::receiver::has_self_in_block;
use crate::receiver::has_self_in_sig;
use crate::receiver::replace_self_in_block;
use crate::receiver::sig_mentions_self;
use crate::sig::FnArg;
use crate::sig::FnArgView;
use crate::sig::GenericParam;
use crate::sig::GenericParamView;
use crate::sig::Generics;
use crate::sig::GenericsView;
use crate::sig::Pat;
use crate::sig::PatView;
use crate::sig::ReceiverView;
use crate::sig::Signature;
use crate::sig::SignatureView;
use crate::sig::WherePredicate;
use crate::sig::WherePredicateView;
use crate::token::lemma_seq_view_empty;
use crate::token::lemma_seq_view_push;
use crate::token::opt_view;
use crate::token::seq_view;
use crate::token::trees_view;
use crate::token::Ident;
use crate::token::IdentView;
use crate::token::Lifetime;
use crate::token::LifetimeView;
use crate::token::Span;
use crate::token::TokenTree;
use crate::token::TokenTreeView;
use crate::ty::arguments_view;
use crate::ty::bounds_view;
use crate::ty::segments_view;
use crate::ty::types_view;
use crate::ty::GenericArgument;
use crate::ty::GenericArgumentView;
use crate::ty::Path;
use crate::ty::PathSegment;
use crate::ty::PathSegmentView;
use crate::ty::PathView;
use crate::ty::Type;
use crate::ty::TypeParamBound;
use crate::ty::TypeParamBoundView;
use crate::ty::TypeView;
use vstd::prelude::*;
use vstd::string::StringExecFns;

verus! {

/// Where a signature stands: in a trait, with the trait's generics and
/// supertraits, or in an impl, with the impl's generics.
#[derive(Clone, Copy)]
pub enum Context<'a> {
    Trait { generics: &'a Generics, supertraits: &'a Vec<TypeParamBound> },
    Impl { impl_generics: &'a Generics },
}

/// The view of [`Context`].
pub enum ContextView {
    Trait { generics: GenericsView, supertraits: Seq<TypeParamBoundView> },
    Impl { impl_generics: GenericsView },
}

impl<'a> View for Context<'a> {
    type V = ContextView;

    open spec fn view(&self) -> ContextView {
        match *self {
            Context::Trait { generics, supertraits } => ContextView::Trait {
                generics: generics@,
                supertraits: bounds_view(supertraits@),
            },
            Context::Impl { impl_generics } => ContextView::Impl { impl_generics: impl_generics@ },
        }
    }
}

/// Whether `p` is a lifetime parameter whose name is among `used`.
pub open spec fn is_used_lifetime(p: GenericParamView, used: Seq<LifetimeView>) -> bool {
    p matches GenericParamView::Lifetime { lifetime, .. } && has_name(used, lifetime.name)
}

/// The lifetime parameters among `params` whose names are among `used`, in
/// their order.
pub open spec fn used_lifetime_params(
    params: Seq<GenericParamView>,
    used: Seq<LifetimeView>,
) -> Seq<GenericParamView>
    decreases params.len(),
{
    if params.len() == 0 {
        params
    } else if is_used_lifetime(params.last(), used) {
        used_lifetime_params(params.drop_last(), used).push(params.last())
    } else {
        used_lifetime_params(params.drop_last(), used)
    }
}

impl ContextView {
    /// The generic parameters of the trait or impl.
    pub open spec fn generics(self) -> GenericsView {
        match self {
            ContextView::Trait { generics, .. } => generics,
            ContextView::Impl { impl_generics } => impl_generics,
        }
    }

    /// The lifetime parameters of the trait or impl that are among `used`.
    pub open spec fn lifetimes(self, used: Seq<LifetimeView>) -> Seq<GenericParamView> {
        used_lifetime_params(self.generics().params, used)
    }
}

impl<'a> Context<'a> {
    /// The lifetime parameters of the trait or impl that are among `used`.
    pub fn lifetimes(&self, used: &Vec<Lifetime>) -> (r: Vec<&'a GenericParam>)
        ensures
            seq_view(r@) == self@.lifetimes(seq_view(used@)),
    {
        let generics: &'a Generics = match self {
            Context::Trait { generics, .. } => generics,
            Context::Impl { impl_generics } => impl_generics,
        };
        let mut out: Vec<&'a GenericParam> = Vec::new();
        let mut i: usize = 0;
        let ghost params = seq_view(generics.params@);
        proof {
            lemma_seq_view_empty(out@);
            assert(params.take(0) =~= Seq::empty());
        }
        while i < generics.params.len()
            invariant
                i <= generics.params.len(),
                params == seq_view(generics.params@),
                seq_view(out@) == used_lifetime_params(params.take(i as int), seq_view(used@)),
            decreases generics.params.len() - i,
        {
            proof {
                assert(params.take(i + 1).drop_last() =~= params.take(i as int));
                assert(params.take(i + 1).last() == params[i as int]);
            }
            let param = &generics.params[i];
            match param {
                GenericParam::Lifetime { lifetime, .. } => {
                    if contains_lifetime(used, lifetime) {
                        proof {
                            lemma_seq_view_push(out@, param);
                        }
                        out.push(param);
                    }
                },
                _ => {},
            }
            i = i + 1;
        }
        assert(params.take(i as int) =~= params);
        out
    }
}

/// A word of generated code.
pub open spec fn call_site_ident(name: Seq<char>) -> IdentView {
    IdentView { name, span: Span::call_site() }
}

/// A path segment without arguments.
pub open spec fn plain_segment(ident: IdentView) -> PathSegmentView {
    PathSegmentView { ident, arguments: Seq::empty() }
}

/// The type that is written as one word.
pub open spec fn ident_type(ident: IdentView) -> TypeView {
    TypeView::Path(PathView { leading_colon: false, segments: seq![plain_segment(ident)] })
}

/// The lifetime `'async_trait`, which the returned future is bound by.
pub open spec fn async_trait_lifetime() -> LifetimeView {
    LifetimeView { name: "async_trait"@, span: Span::call_site() }
}

/// The type `()`.
pub open spec fn unit_type() -> TypeView {
    TypeView::Tuple { elems: Seq::empty() }
}

/// What the method's future gives: the type behind `->`, or `()` where
/// nothing is written.
pub open spec fn output_type(sig: SignatureView) -> TypeView {
    match sig.output {
        Some(t) => t,
        None => unit_type(),
    }
}

/// A parameter after its lifetimes have been visited, and the facts after
/// it: the receiver's own lifetime, or those of the parameter's type.
pub open spec fn visit_arg(c: LifetimeFacts, a: FnArgView) -> (FnArgView, LifetimeFacts) {
    match a {
        FnArgView::Receiver(r) => (
            FnArgView::Receiver(visit_receiver(c, r).0),
            visit_receiver(c, r).1,
        ),
        FnArgView::Typed { pat, ty } => (
            FnArgView::Typed { pat, ty: visit_type(c, ty).0 },
            visit_type(c, ty).1,
        ),
    }
}

/// The parameters after their lifetimes have been visited from left to
/// right, and the facts after the last of them.
pub open spec fn visit_args(c: LifetimeFacts, args: Seq<FnArgView>) -> (
    Seq<FnArgView>,
    LifetimeFacts,
)
    decreases args.len(),
{
    if args.len() == 0 {
        (args, c)
    } else {
        let (init, c1) = visit_args(c, args.drop_last());
        let (last, c2) = visit_arg(c1, args.last());
        (init.push(last), c2)
    }
}

/// `'a: 'async_trait`
pub open spec fn lifetime_outlives(l: LifetimeView) -> WherePredicateView {
    WherePredicateView::Lifetime { lifetime: l, bounds: seq![async_trait_lifetime()] }
}

/// `T: 'async_trait`
pub open spec fn type_outlives(ident: IdentView) -> WherePredicateView {
    WherePredicateView::Type {
        bounded_ty: ident_type(ident),
        bounds: seq![TypeParamBoundView::Lifetime(async_trait_lifetime())],
    }
}

/// The predicate that a generic parameter brings: a type or a lifetime
/// outlives `'async_trait`; a constant brings none.
pub open spec fn param_predicate(p: GenericParamView) -> Option<WherePredicateView> {
    match p {
        GenericParamView::Type { ident, .. } => Some(type_outlives(ident)),
        GenericParamView::Lifetime { lifetime, .. } => Some(lifetime_outlives(lifetime)),
        GenericParamView::Const { .. } => None,
    }
}

/// The predicates that generic parameters bring, in the parameters' order.
pub open spec fn param_predicates(params: Seq<GenericParamView>) -> Seq<WherePredicateView>
    decreases params.len(),
{
    if params.len() == 0 {
        Seq::empty()
    } else {
        match param_predicate(params.last()) {
            Some(p) => param_predicates(params.drop_last()).push(p),
            None => param_predicates(params.drop_last()),
        }
    }
}

/// A lifetime parameter without bounds.
pub open spec fn lifetime_param(l: LifetimeView) -> GenericParamView {
    GenericParamView::Lifetime { lifetime: l, bounds: Seq::empty() }
}

/// The lifetimes as generic parameters.
pub open spec fn lifetime_params(ls: Seq<LifetimeView>) -> Seq<GenericParamView> {
    Seq::new(ls.len(), |i: int| lifetime_param(ls[i]))
}

/// For each of the lifetimes, that it outlives `'async_trait`.
pub open spec fn lifetime_predicates(ls: Seq<LifetimeView>) -> Seq<WherePredicateView> {
    Seq::new(ls.len(), |i: int| lifetime_outlives(ls[i]))
}

/// Whether a parameter is `&self`, `&'a self`, or `self: &T`: the receiver
/// behind a shared reference.
pub open spec fn arg_is_shared_self(a: FnArgView) -> bool {
    match a {
        FnArgView::Receiver(r) => r.reference is Some && !r.mutable,
        FnArgView::Typed { pat, ty } => {
            &&& pat matches PatView::Ident { ident, .. }
            &&& ident.name == "self"@
            &&& ty matches TypeView::Reference { mutable, .. }
            &&& !mutable
        },
    }
}

/// The marker that `Self` may need: `Sync` where the first parameter is the
/// receiver behind a shared reference, `Send` in every other case.
pub open spec fn self_marker(inputs: Seq<FnArgView>) -> Seq<char> {
    if inputs.len() > 0 && arg_is_shared_self(inputs[0]) {
        "Sync"@
    } else {
        "Send"@
    }
}

/// Whether a path is the single word `name`: no leading `::`, one segment,
/// no arguments.
pub open spec fn path_is_ident(p: PathView, name: Seq<char>) -> bool {
    &&& !p.leading_colon
    &&& p.segments.len() == 1
    &&& p.segments[0].arguments.len() == 0
    &&& p.segments[0].ident.name == name
}

/// Whether a bound is the trait written as the single word `name`.
pub open spec fn bound_is_marker(b: TypeParamBoundView, name: Seq<char>) -> bool {
    b matches TypeParamBoundView::Trait { path, .. } && path_is_ident(path, name)
}

/// Whether one of the supertraits is the trait written as the single word
/// `name`.
pub open spec fn supertraits_have(supertraits: Seq<TypeParamBoundView>, name: Seq<char>) -> bool {
    exists|i: int| 0 <= i < supertraits.len() && bound_is_marker(#[trigger] supertraits[i], name)
}

/// Whether `Self` can be taken to have the marker `name` already: in an
/// impl, for a trait method without a default body, and where the trait has
/// the marker among its supertraits.
pub open spec fn assumes_marker(ctx: ContextView, name: Seq<char>, has_default: bool) -> bool {
    match ctx {
        ContextView::Trait { supertraits, .. } => !has_default || supertraits_have(
            supertraits,
            name,
        ),
        ContextView::Impl { .. } => true,
    }
}

/// The path `::core::module::last`.
pub open spec fn core_path(module: Seq<char>, last: PathSegmentView) -> PathView {
    PathView {
        leading_colon: true,
        segments: seq![
            plain_segment(call_site_ident("core"@)),
            plain_segment(call_site_ident(module)),
            last,
        ],
    }
}

/// The bound `::core::marker::name`.
pub open spec fn marker_bound(name: Seq<char>) -> TypeParamBoundView {
    TypeParamBoundView::Trait {
        maybe: false,
        path: core_path("marker"@, plain_segment(call_site_ident(name))),
    }
}

/// The type `Self`.
pub open spec fn self_type() -> TypeView {
    ident_type(call_site_ident("Self"@))
}

/// The predicate on `Self`: `Self: 'async_trait` where the marker is taken
/// to hold already or the future stays on one thread, else
/// `Self: ::core::marker::Sync + 'async_trait` or the same with `Send`.
pub open spec fn self_predicate(
    ctx: ContextView,
    inputs: Seq<FnArgView>,
    has_default: bool,
    is_local: bool,
) -> WherePredicateView {
    if assumes_marker(ctx, self_marker(inputs), has_default) || is_local {
        WherePredicateView::Type {
            bounded_ty: self_type(),
            bounds: seq![TypeParamBoundView::Lifetime(async_trait_lifetime())],
        }
    } else {
        WherePredicateView::Type {
            bounded_ty: self_type(),
            bounds: seq![
                marker_bound(self_marker(inputs)),
                TypeParamBoundView::Lifetime(async_trait_lifetime()),
            ],
        }
    }
}

/// The name that stands for the parameter at place `i`: `__arg` and the
/// number.
pub open spec fn positional_name(i: nat) -> Seq<char> {
    "__arg"@ + decimal(i)
}

/// The word that stands for the parameter at place `i`, at the place `span`.
pub open spec fn positional(i: nat, span: Span) -> IdentView {
    IdentView { name: positional_name(i), span }
}

/// A plain binding of `ident`, neither `ref` nor `mut`.
pub open spec fn plain_pat(ident: IdentView) -> PatView {
    PatView::Ident { by_ref: false, mutable: false, ident }
}

/// The parameter at place `i` as the rewritten signature has it. A
/// receiver by value loses its `mut`; a plain binding loses `ref` and `mut`;
/// a pattern that takes its value apart gives way to the positional name,
/// which stands where the pattern stood.
pub open spec fn normalized_arg(i: nat, a: FnArgView) -> FnArgView {
    match a {
        FnArgView::Receiver(r) => if r.reference is Some {
            a
        } else {
            FnArgView::Receiver(ReceiverView { mutable: false, ..r })
        },
        FnArgView::Typed { pat, ty } => match pat {
            PatView::Ident { ident, .. } => FnArgView::Typed { pat: plain_pat(ident), ty },
            PatView::Verbatim { span, .. } => FnArgView::Typed {
                pat: plain_pat(positional(i, span)),
                ty,
            },
        },
    }
}

/// The parameters as the rewritten signature has them, each by its place.
pub open spec fn normalized_args(args: Seq<FnArgView>) -> Seq<FnArgView> {
    Seq::new(args.len(), |i: int| normalized_arg(i as nat, args[i]))
}

/// The segment `name<arg>`.
pub open spec fn generic_segment(name: Seq<char>, arg: GenericArgumentView) -> PathSegmentView {
    PathSegmentView { ident: call_site_ident(name), arguments: seq![arg] }
}

/// The bound `::core::future::Future<Output = ret>`.
pub open spec fn future_bound(ret: TypeView) -> TypeParamBoundView {
    TypeParamBoundView::Trait {
        maybe: false,
        path: core_path(
            "future"@,
            generic_segment(
                "Future"@,
                GenericArgumentView::Binding { ident: call_site_ident("Output"@), ty: ret },
            ),
        ),
    }
}

/// The bounds of the future: it gives `ret`, lives as long as
/// `'async_trait` and, unless it stays on one thread, is `Send`.
pub open spec fn future_bounds(ret: TypeView, is_local: bool) -> Seq<TypeParamBoundView> {
    if is_local {
        seq![future_bound(ret), TypeParamBoundView::Lifetime(async_trait_lifetime())]
    } else {
        seq![
            future_bound(ret),
            marker_bound("Send"@),
            TypeParamBoundView::Lifetime(async_trait_lifetime()),
        ]
    }
}

/// The type
///
/// ```text
/// ::core::pin::Pin<Box<
///     dyn ::core::future::Future<Output = ret> + ::core::marker::Send + 'async_trait
/// >>
/// ```
///
/// without the `Send` where `is_local` holds.
pub open spec fn boxed_future(ret: TypeView, is_local: bool) -> TypeView {
    TypeView::Path(
        core_path(
            "pin"@,
            generic_segment(
                "Pin"@,
                GenericArgumentView::Type(
                    TypeView::Path(
                        PathView {
                            leading_colon: false,
                            segments: seq![
                                generic_segment(
                                    "Box"@,
                                    GenericArgumentView::Type(
                                        TypeView::TraitObject {
                                            bounds: future_bounds(ret, is_local),
                                        },
                                    ),
                                ),
                            ],
                        },
                    ),
                ),
            ),
        ),
    )
}

/// The predicates of a `where` clause; none where there is no clause.
pub open spec fn written_predicates(g: GenericsView) -> Seq<WherePredicateView> {
    match g.where_clause {
        Some(ps) => ps,
        None => Seq::empty(),
    }
}

/// The facts about the lifetimes of a signature's parameters, collected
/// from left to right under the prefix `life`.
pub open spec fn sig_facts(sig: SignatureView) -> LifetimeFacts {
    visit_args(LifetimeFacts::empty("life"@), sig.inputs).1
}

/// The parameters of a signature with every open lifetime position named.
pub open spec fn visited_inputs(sig: SignatureView) -> Seq<FnArgView> {
    visit_args(LifetimeFacts::empty("life"@), sig.inputs).0
}

/// The signature of an `async` method, rewritten.
///
/// The word `async` is gone and `fn` stands at its place. Every open
/// lifetime position of the parameters has a name `'life0`, `'life1`, ... in
/// the order of writing. The generic parameters are those written, then the
/// new lifetimes, then `'async_trait`. The `where` clause holds what was
/// written; then for each written type and lifetime parameter that it
/// outlives `'async_trait`; the same for each lifetime of the trait or impl
/// that the parameters name, for each new lifetime, and, where `has_self`
/// holds, for `Self`, with the marker if it is needed. The parameters are
/// plain names, and the method returns the boxed future of what it gave.
pub open spec fn transformed_sig(
    ctx: ContextView,
    sig: SignatureView,
    has_self: bool,
    has_default: bool,
    is_local: bool,
) -> SignatureView {
    let facts = sig_facts(sig);
    let self_predicates = if has_self {
        seq![self_predicate(ctx, sig.inputs, has_default, is_local)]
    } else {
        Seq::empty()
    };
    SignatureView {
        asyncness: None,
        fn_span: sig.asyncness->0,
        ident: sig.ident,
        generics: GenericsView {
            params: sig.generics.params + lifetime_params(facts.elided) + seq![
                lifetime_param(async_trait_lifetime()),
            ],
            where_clause: Some(
                written_predicates(sig.generics) + param_predicates(sig.generics.params)
                    + param_predicates(ctx.lifetimes(facts.explicit)) + lifetime_predicates(
                    facts.elided,
                ) + self_predicates,
            ),
        },
        inputs: normalized_args(visited_inputs(sig)),
        output: Some(boxed_future(output_type(sig), is_local)),
    }
}

/// The prefix of the name that the receiver is bound to inside the future.
pub open spec fn self_prefix() -> Seq<char> {
    "__"@
}

/// The binding that hands the parameter at place `i` on to the future:
/// `let __self = self;` for the receiver, `let x = x;` for a plain binding
/// (with `mut` where the parameter had it), and `let pat = __argN;` for a
/// pattern that takes its value apart.
pub open spec fn decl(i: nat, a: FnArgView) -> LocalView {
    match a {
        FnArgView::Receiver(r) => LocalView {
            pat: PatView::Ident {
                by_ref: false,
                mutable: r.mutable,
                ident: IdentView { name: self_prefix() + "self"@, span: r.self_span },
            },
            init: IdentView { name: "self"@, span: r.self_span },
        },
        FnArgView::Typed { pat, .. } => match pat {
            PatView::Ident { mutable, ident, .. } => if ident.name == "self"@ {
                LocalView {
                    pat: PatView::Ident {
                        by_ref: false,
                        mutable,
                        ident: IdentView { name: self_prefix() + ident.name, span: ident.span },
                    },
                    init: ident,
                }
            } else {
                LocalView { pat: PatView::Ident { by_ref: false, mutable, ident }, init: ident }
            },
            PatView::Verbatim { span, .. } => LocalView { pat, init: positional(i, span) },
        },
    }
}

/// The bindings for the parameters, each by its place.
pub open spec fn decls(args: Seq<FnArgView>) -> Seq<LocalView> {
    Seq::new(args.len(), |i: int| decl(i as nat, args[i]))
}

/// Whether a parameter is the receiver, written `self` or `self: T`.
pub open spec fn arg_binds_self(a: FnArgView) -> bool {
    match a {
        FnArgView::Receiver(_) => true,
        FnArgView::Typed { pat, .. } => pat matches PatView::Ident { ident, .. } && ident.name
            == "self"@,
    }
}

/// Whether the method has a receiver.
pub open spec fn binds_self(args: Seq<FnArgView>) -> bool {
    exists|i: int| 0 <= i < args.len() && arg_binds_self(#[trigger] args[i])
}

/// Whether a token tree is an item that consists of `;` alone.
pub open spec fn is_semicolon(t: TokenTreeView) -> bool {
    &&& t matches TokenTreeView::Item { stream }
    &&& stream.len() == 1
    &&& stream[0] matches TokenTreeView::Punct { ch, .. }
    &&& ch == ';'
}

/// Whether a body is the single statement `;` that stands for "no body".
pub open spec fn is_stub(b: BlockView) -> bool {
    &&& b matches BlockView::Plain { stmts }
    &&& stmts.len() == 1
    &&& stmts[0].tokens.len() == 1
    &&& is_semicolon(stmts[0].tokens[0])
}

/// The body of an `async` method, rewritten.
///
/// The stub stays as it is. Any other body becomes one that hands back a
/// future of the method's output type: first one binding for each parameter,
/// in the parameters' order, then the statements as they were written, in
/// their order, with the receiver renamed where the method has one. The
/// value that the future gives is marked `#[allow(unreachable_code)]`, for
/// bodies that never come to their end.
pub open spec fn transformed_block(sig: SignatureView, b: BlockView) -> BlockView {
    if is_stub(b) {
        b
    } else {
        BlockView::Boxed {
            ret_ty: output_type(sig),
            decls: decls(sig.inputs),
            inner: Box::new(
                if binds_self(sig.inputs) {
                    block_without_self(b, self_prefix())
                } else {
                    b
                },
            ),
            attrs: seq![AttributeView::AllowUnreachableCode],
        }
    }
}

/// A trait method after the rewriting.
pub open spec fn expanded_trait_method(
    ctx: ContextView,
    m: TraitItemMethodView,
    is_local: bool,
) -> TraitItemMethodView {
    if m.sig.asyncness is None {
        m
    } else {
        match m.default {
            Some(b) => TraitItemMethodView {
                attrs: m.attrs.push(AttributeView::AllowUsedUnderscoreBinding).push(
                    AttributeView::MustUse,
                ),
                sig: transformed_sig(
                    ctx,
                    m.sig,
                    sig_mentions_self(m.sig) || block_mentions_self(b),
                    true,
                    is_local,
                ),
                default: Some(transformed_block(m.sig, b)),
            },
            None => TraitItemMethodView {
                attrs: m.attrs.push(AttributeView::MustUse),
                sig: transformed_sig(ctx, m.sig, sig_mentions_self(m.sig), false, is_local),
                default: None,
            },
        }
    }
}

/// An item of a trait after the rewriting; only methods change.
pub open spec fn expanded_trait_item(
    ctx: ContextView,
    item: TraitItemView,
    is_local: bool,
) -> TraitItemView {
    match item {
        TraitItemView::Method(m) => TraitItemView::Method(expanded_trait_method(ctx, m, is_local)),
        _ => item,
    }
}

/// The items of a trait after the rewriting, each by itself.
pub open spec fn expanded_trait_items(
    ctx: ContextView,
    items: Seq<TraitItemView>,
    is_local: bool,
) -> Seq<TraitItemView> {
    Seq::new(items.len(), |i: int| expanded_trait_item(ctx, items[i], is_local))
}

/// A trait after the rewriting: each of its `async` methods is rewritten by
/// itself, with the trait's generics and supertraits as its context.
pub open spec fn expanded_trait(t: ItemTraitView, is_local: bool) -> ItemTraitView {
    ItemTraitView {
        items: expanded_trait_items(
            ContextView::Trait { generics: t.generics, supertraits: t.supertraits },
            t.items,
            is_local,
        ),
        ..t
    }
}

/// An impl method after the rewriting.
pub open spec fn expanded_impl_method(
    ctx: ContextView,
    m: ImplItemMethodView,
    is_local: bool,
) -> ImplItemMethodView {
    if m.sig.asyncness is None {
        m
    } else {
        ImplItemMethodView {
            attrs: m.attrs.push(AttributeView::AllowUsedUnderscoreBinding),
            sig: transformed_sig(
                ctx,
                m.sig,
                sig_mentions_self(m.sig) || block_mentions_self(m.block),
                false,
                is_local,
            ),
            block: transformed_block(m.sig, m.block),
        }
    }
}

/// An item of an impl after the rewriting; only methods change.
pub open spec fn expanded_impl_item(
    ctx: ContextView,
    item: ImplItemView,
    is_local: bool,
) -> ImplItemView {
    match item {
        ImplItemView::Method(m) => ImplItemView::Method(expanded_impl_method(ctx, m, is_local)),
        _ => item,
    }
}

/// The items of an impl after the rewriting, each by itself.
pub open spec fn expanded_impl_items(
    ctx: ContextView,
    items: Seq<ImplItemView>,
    is_local: bool,
) -> Seq<ImplItemView> {
    Seq::new(items.len(), |i: int| expanded_impl_item(ctx, items[i], is_local))
}

/// The facts about the lifetimes of an impl's header: those of the type,
/// then those of the trait.
pub open spec fn impl_header_facts(i: ItemImplView) -> LifetimeFacts {
    visit_path(visit_type(LifetimeFacts::empty("impl"@), i.self_ty).1, i.trait_->0).1
}

/// The generics of an impl after the open lifetime positions of its header
/// have been named `'impl0`, `'impl1`, ...: the new lifetimes stand before
/// the written parameters.
pub open spec fn hoisted_generics(i: ItemImplView) -> GenericsView {
    GenericsView {
        params: lifetime_params(impl_header_facts(i).elided) + i.generics.params,
        where_clause: i.generics.where_clause,
    }
}

/// An impl after the rewriting: the lifetimes of its header are named, and
/// each of its `async` methods is rewritten by itself, with the impl's new
/// generics as its context.
pub open spec fn expanded_impl(i: ItemImplView, is_local: bool) -> ItemImplView {
    let c0 = LifetimeFacts::empty("impl"@);
    ItemImplView {
        generics: hoisted_generics(i),
        trait_: Some(visit_path(visit_type(c0, i.self_ty).1, i.trait_->0).0),
        self_ty: visit_type(c0, i.self_ty).0,
        items: expanded_impl_items(
            ContextView::Impl { impl_generics: hoisted_generics(i) },
            i.items,
            is_local,
        ),
    }
}

/// A trait or an impl after the rewriting.
pub open spec fn expanded(item: ItemView, is_local: bool) -> ItemView {
    match item {
        ItemView::Trait(t) => ItemView::Trait(expanded_trait(t, is_local)),
        ItemView::Impl(i) => ItemView::Impl(expanded_impl(i, is_local)),
    }
}


fn call_site(name: &str) -> (r: Ident)
    ensures
        r@ == call_site_ident(name@),
{
    Ident::new(name, Span::call_site())
}

fn async_trait() -> (r: Lifetime)
    ensures
        r@ == async_trait_lifetime(),
{
    Lifetime::new("async_trait", Span::call_site())
}

fn plain(ident: Ident) -> (r: PathSegment)
    ensures
        r@ == plain_segment(ident@),
{
    let r = PathSegment { ident, arguments: Vec::new() };
    assert(arguments_view(r.arguments@) =~= Seq::empty());
    r
}

fn generic(name: &str, arg: GenericArgument) -> (r: PathSegment)
    ensures
        r@ == generic_segment(name@, arg@),
{
    let mut arguments: Vec<GenericArgument> = Vec::new();
    arguments.push(arg);
    assert(arguments_view(arguments@) =~= seq![arg@]);
    PathSegment { ident: call_site(name), arguments }
}

fn path_in_core(module: &str, last: PathSegment) -> (r: Path)
    ensures
        r@ == core_path(module@, last@),
{
    let mut segments: Vec<PathSegment> = Vec::new();
    segments.push(plain(call_site("core")));
    segments.push(plain(call_site(module)));
    segments.push(last);
    assert(segments_view(segments@) =~= core_path(module@, last@).segments);
    Path { leading_colon: true, segments }
}

fn type_of_ident(ident: Ident) -> (r: Type)
    ensures
        r@ == ident_type(ident@),
{
    let mut segments: Vec<PathSegment> = Vec::new();
    segments.push(plain(ident));
    assert(segments_view(segments@) =~= seq![plain_segment(ident@)]);
    let path = Path { leading_colon: false, segments };
    assert(path@.segments == seq![plain_segment(ident@)]);
    Type::Path(path)
}

fn unit() -> (r: Type)
    ensures
        r@ == unit_type(),
{
    let r = Type::Tuple { elems: Vec::new() };
    assert(types_view(r->Tuple_elems@) =~= Seq::empty());
    r
}

fn bound_of_marker(marker: &Ident) -> (r: TypeParamBound)
    requires
        marker@.span == Span::call_site(),
    ensures
        r@ == marker_bound(marker@.name),
{
    TypeParamBound::Trait { maybe: false, path: path_in_core("marker", plain(marker.clone())) }
}

fn outlives_async_trait() -> (r: Vec<TypeParamBound>)
    ensures
        bounds_view(r@) == seq![TypeParamBoundView::Lifetime(async_trait_lifetime())],
{
    let mut bounds: Vec<TypeParamBound> = Vec::new();
    bounds.push(TypeParamBound::Lifetime(async_trait()));
    assert(bounds_view(bounds@) =~= seq![TypeParamBoundView::Lifetime(async_trait_lifetime())]);
    bounds
}

fn predicate_of_lifetime(l: &Lifetime) -> (r: WherePredicate)
    ensures
        r@ == lifetime_outlives(l@),
{
    let mut bounds: Vec<Lifetime> = Vec::new();
    bounds.push(async_trait());
    assert(seq_view(bounds@) =~= seq![async_trait_lifetime()]);
    WherePredicate::Lifetime { lifetime: l.clone(), bounds }
}

fn predicate_of_type(ident: &Ident) -> (r: WherePredicate)
    ensures
        r@ == type_outlives(ident@),
{
    WherePredicate::Type {
        bounded_ty: type_of_ident(ident.clone()),
        bounds: outlives_async_trait(),
    }
}

fn predicate_of_param(param: &GenericParam) -> (r: Option<WherePredicate>)
    ensures
        opt_view(r) == param_predicate(param@),
{
    match param {
        GenericParam::Type { ident, .. } => Some(predicate_of_type(ident)),
        GenericParam::Lifetime { lifetime, .. } => Some(predicate_of_lifetime(lifetime)),
        GenericParam::Const { .. } => None,
    }
}

fn param_of_lifetime(l: &Lifetime) -> (r: GenericParam)
    ensures
        r@ == lifetime_param(l@),
{
    let r = GenericParam::Lifetime { lifetime: l.clone(), bounds: Vec::new() };
    proof {
        lemma_seq_view_empty(r->Lifetime_bounds@);
    }
    r
}

fn push_param_predicates(predicates: &mut Vec<WherePredicate>, params: &Vec<GenericParam>)
    ensures
        seq_view(final(predicates)@) == seq_view(old(predicates)@) + param_predicates(
            seq_view(params@),
        ),
{
    let mut i: usize = 0;
    let ghost all = seq_view(params@);
    assert(all.take(0) =~= Seq::empty());
    assert(seq_view(predicates@) =~= seq_view(old(predicates)@) + param_predicates(all.take(0)));
    while i < params.len()
        invariant
            i <= params.len(),
            all == seq_view(params@),
            seq_view(predicates@) == seq_view(old(predicates)@) + param_predicates(
                all.take(i as int),
            ),
        decreases params.len() - i,
    {
        proof {
            assert(all.take(i + 1).drop_last() =~= all.take(i as int));
            assert(all.take(i + 1).last() == all[i as int]);
        }
        match predicate_of_param(&params[i]) {
            Some(p) => {
                proof {
                    lemma_seq_view_push(predicates@, p);
                }
                predicates.push(p);
                assert(seq_view(predicates@) =~= seq_view(old(predicates)@) + param_predicates(
                    all.take(i + 1),
                ));
            },
            None => {},
        }
        i = i + 1;
    }
    assert(all.take(i as int) =~= all);
}

fn push_used_predicates(predicates: &mut Vec<WherePredicate>, params: &Vec<&GenericParam>)
    ensures
        seq_view(final(predicates)@) == seq_view(old(predicates)@) + param_predicates(
            seq_view(params@),
        ),
{
    let mut i: usize = 0;
    let ghost all = seq_view(params@);
    assert(all.take(0) =~= Seq::empty());
    assert(seq_view(predicates@) =~= seq_view(old(predicates)@) + param_predicates(all.take(0)));
    while i < params.len()
        invariant
            i <= params.len(),
            all == seq_view(params@),
            seq_view(predicates@) == seq_view(old(predicates)@) + param_predicates(
                all.take(i as int),
            ),
        decreases params.len() - i,
    {
        proof {
            assert(all.take(i + 1).drop_last() =~= all.take(i as int));
            assert(all.take(i + 1).last() == all[i as int]);
        }
        match predicate_of_param(params[i]) {
            Some(p) => {
                proof {
                    lemma_seq_view_push(predicates@, p);
                }
                predicates.push(p);
                assert(seq_view(predicates@) =~= seq_view(old(predicates)@) + param_predicates(
                    all.take(i + 1),
                ));
            },
            None => {},
        }
        i = i + 1;
    }
    assert(all.take(i as int) =~= all);
}

fn push_lifetimes(
    params: &mut Vec<GenericParam>,
    predicates: &mut Vec<WherePredicate>,
    lifetimes: &Vec<Lifetime>,
)
    ensures
        seq_view(final(params)@) == seq_view(old(params)@) + lifetime_params(seq_view(lifetimes@)),
        seq_view(final(predicates)@) == seq_view(old(predicates)@) + lifetime_predicates(
            seq_view(lifetimes@),
        ),
{
    let mut i: usize = 0;
    let ghost all = seq_view(lifetimes@);
    assert(seq_view(params@) =~= seq_view(old(params)@) + lifetime_params(all.take(0)));
    assert(seq_view(predicates@) =~= seq_view(old(predicates)@) + lifetime_predicates(all.take(0)));
    while i < lifetimes.len()
        invariant
            i <= lifetimes.len(),
            all == seq_view(lifetimes@),
            seq_view(params@) == seq_view(old(params)@) + lifetime_params(all.take(i as int)),
            seq_view(predicates@) == seq_view(old(predicates)@) + lifetime_predicates(
                all.take(i as int),
            ),
        decreases lifetimes.len() - i,
    {
        let param = param_of_lifetime(&lifetimes[i]);
        let predicate = predicate_of_lifetime(&lifetimes[i]);
        proof {
            lemma_seq_view_push(params@, param);
            lemma_seq_view_push(predicates@, predicate);
        }
        params.push(param);
        predicates.push(predicate);
        assert(seq_view(params@) =~= seq_view(old(params)@) + lifetime_params(all.take(i + 1)));
        assert(seq_view(predicates@) =~= seq_view(old(predicates)@) + lifetime_predicates(
            all.take(i + 1),
        ));
        i = i + 1;
    }
    assert(all.take(i as int) =~= all);
}

fn visit_inputs(lifetimes: &mut CollectLifetimes, inputs: &mut Vec<FnArg>)
    ensures
        (seq_view(final(inputs)@), final(lifetimes)@) == visit_args(
            old(lifetimes)@,
            seq_view(old(inputs)@),
        ),
{
    let mut i: usize = 0;
    let n: usize = inputs.len();
    let ghost before = seq_view(old(inputs)@);
    assert(before.take(0) =~= Seq::empty());
    assert(seq_view(inputs@).take(0) =~= Seq::empty());
    while i < n
        invariant
            i <= n,
            n == inputs@.len(),
            n == old(inputs)@.len(),
            before == seq_view(old(inputs)@),
            forall|j: int| i <= j < n ==> inputs@[j] == old(inputs)@[j],
            (seq_view(inputs@).take(i as int), lifetimes@) == visit_args(
                old(lifetimes)@,
                before.take(i as int),
            ),
        decreases n - i,
    {
        let ghost mid = seq_view(inputs@);
        match &mut inputs[i] {
            FnArg::Receiver(arg) => {
                lifetimes.visit_receiver_mut(arg);
            },
            FnArg::Typed { ty, .. } => {
                lifetimes.visit_type_mut(ty);
            },
        }
        proof {
            assert(before.take(i + 1).drop_last() =~= before.take(i as int));
            assert(before.take(i + 1).last() == before[i as int]);
            assert(seq_view(inputs@).take(i + 1) =~= mid.take(i as int).push(
                seq_view(inputs@)[i as int],
            ));
        }
        i = i + 1;
    }
    assert(before.take(n as int) =~= before);
    assert(seq_view(inputs@).take(n as int) =~= seq_view(inputs@));
}

fn is_shared_self(arg: &FnArg) -> (b: bool)
    ensures
        b == arg_is_shared_self(arg@),
{
    match arg {
        FnArg::Receiver(r) => r.reference.is_some() && !r.mutable,
        FnArg::Typed { pat, ty } => match pat {
            Pat::Ident { ident, .. } => match ty {
                Type::Reference { mutable, .. } => ident.is("self") && !*mutable,
                _ => false,
            },
            _ => false,
        },
    }
}

fn marker_of_self(inputs: &Vec<FnArg>) -> (r: Ident)
    ensures
        r@ == call_site_ident(self_marker(seq_view(inputs@))),
{
    if inputs.len() > 0 && is_shared_self(&inputs[0]) {
        call_site("Sync")
    } else {
        call_site("Send")
    }
}

fn is_path_ident(path: &Path, name: &Ident) -> (b: bool)
    ensures
        b == path_is_ident(path@, name@.name),
{
    !path.leading_colon && path.segments.len() == 1 && path.segments[0].arguments.len() == 0
        && path.segments[0].ident.name == name.name
}

/// Whether one of the supertraits is the trait written as the single word
/// `marker`.
pub fn has_bound(supertraits: &Vec<TypeParamBound>, marker: &Ident) -> (b: bool)
    ensures
        b == supertraits_have(bounds_view(supertraits@), marker@.name),
{
    let mut i: usize = 0;
    while i < supertraits.len()
        invariant
            i <= supertraits.len(),
            forall|j: int|
                0 <= j < i ==> !bound_is_marker(
                    #[trigger] bounds_view(supertraits@)[j],
                    marker@.name,
                ),
        decreases supertraits.len() - i,
    {
        match &supertraits[i] {
            TypeParamBound::Trait { path, .. } => {
                if is_path_ident(path, marker) {
                    assert(bound_is_marker(bounds_view(supertraits@)[i as int], marker@.name));
                    return true;
                }
            },
            _ => {},
        }
        i = i + 1;
    }
    false
}

fn predicate_of_self(context: Context, marker: &Ident, has_default: bool, is_local: bool) -> (r:
    WherePredicate)
    requires
        marker@.span == Span::call_site(),
    ensures
        r@ == (if assumes_marker(context@, marker@.name, has_default) || is_local {
            WherePredicateView::Type {
                bounded_ty: self_type(),
                bounds: seq![TypeParamBoundView::Lifetime(async_trait_lifetime())],
            }
        } else {
            WherePredicateView::Type {
                bounded_ty: self_type(),
                bounds: seq![
                    marker_bound(marker@.name),
                    TypeParamBoundView::Lifetime(async_trait_lifetime()),
                ],
            }
        }),
{
    let assume_bound = match context {
        Context::Trait { supertraits, .. } => !has_default || has_bound(supertraits, marker),
        Context::Impl { .. } => true,
    };
    if assume_bound || is_local {
        WherePredicate::Type {
            bounded_ty: type_of_ident(call_site("Self")),
            bounds: outlives_async_trait(),
        }
    } else {
        let mut bounds: Vec<TypeParamBound> = Vec::new();
        bounds.push(bound_of_marker(marker));
        bounds.push(TypeParamBound::Lifetime(async_trait()));
        assert(bounds_view(bounds@) =~= seq![
            marker_bound(marker@.name),
            TypeParamBoundView::Lifetime(async_trait_lifetime()),
        ]);
        WherePredicate::Type { bounded_ty: type_of_ident(call_site("Self")), bounds }
    }
}

/// The name that stands for the parameter at place `i`, at the place
/// `span`.
pub fn positional_arg(i: usize, span: Span) -> (r: Ident)
    ensures
        r@ == positional(i as nat, span),
{
    Ident { name: numbered_name("__arg", i), span }
}

fn normalize_input(i: usize, arg: &mut FnArg)
    ensures
        final(arg)@ == normalized_arg(i as nat, old(arg)@),
{
    match arg {
        FnArg::Receiver(r) => {
            if r.reference.is_none() {
                r.mutable = false;
            }
        },
        FnArg::Typed { pat, .. } => {
            let place = match pat {
                Pat::Ident { by_ref, mutable, .. } => {
                    *by_ref = false;
                    *mutable = false;
                    None
                },
                Pat::Verbatim { span, .. } => Some(*span),
            };
            match place {
                Some(span) => {
                    *pat = Pat::Ident {
                        by_ref: false,
                        mutable: false,
                        ident: positional_arg(i, span),
                    };
                },
                None => {},
            }
        },
    }
}

fn normalize_inputs(inputs: &mut Vec<FnArg>)
    ensures
        seq_view(final(inputs)@) == normalized_args(seq_view(old(inputs)@)),
{
    let mut i: usize = 0;
    let n: usize = inputs.len();
    while i < n
        invariant
            i <= n,
            n == inputs@.len(),
            n == old(inputs)@.len(),
            forall|j: int| i <= j < n ==> inputs@[j] == old(inputs)@[j],
            forall|j: int|
                0 <= j < i ==> (#[trigger] inputs@[j])@ == normalized_arg(
                    j as nat,
                    old(inputs)@[j]@,
                ),
        decreases n - i,
    {
        normalize_input(i, &mut inputs[i]);
        i = i + 1;
    }
    assert(seq_view(inputs@) =~= normalized_args(seq_view(old(inputs)@)));
}

fn future_of(ret: Type, is_local: bool) -> (r: Type)
    ensures
        r@ == boxed_future(ret@, is_local),
{
    let future = TypeParamBound::Trait {
        maybe: false,
        path: path_in_core(
            "future",
            generic("Future", GenericArgument::Binding { ident: call_site("Output"), ty: ret }),
        ),
    };
    assert(future@ == future_bound(ret@));
    let mut bounds: Vec<TypeParamBound> = Vec::new();
    bounds.push(future);
    if !is_local {
        let send = call_site("Send");
        bounds.push(bound_of_marker(&send));
    }
    bounds.push(TypeParamBound::Lifetime(async_trait()));
    assert(bounds_view(bounds@) =~= future_bounds(ret@, is_local));
    let object = Type::TraitObject { bounds };
    let mut segments: Vec<PathSegment> = Vec::new();
    segments.push(generic("Box", GenericArgument::Type(object)));
    assert(segments_view(segments@) =~= seq![
        generic_segment("Box"@, GenericArgumentView::Type(object@)),
    ]);
    let boxed = Type::Path(Path { leading_colon: false, segments });
    Type::Path(path_in_core("pin", generic("Pin", GenericArgument::Type(boxed))))
}

/// Rewrites the signature of an `async` method in place.
///
/// `has_self` says whether the method names its receiver or `Self`,
/// `has_default` whether it is a trait method with a body, and `is_local`
/// whether the future stays on one thread.
pub fn transform_sig(
    context: Context,
    sig: &mut Signature,
    has_self: bool,
    has_default: bool,
    is_local: bool,
)
    requires
        old(sig).asyncness is Some,
    ensures
        final(sig)@ == transformed_sig(context@, old(sig)@, has_self, has_default, is_local),
{
    let asyncness = sig.asyncness.take();
    sig.fn_span = asyncness.unwrap();

    let ret = match sig.output.take() {
        Some(ret) => ret,
        None => unit(),
    };

    let marker = marker_of_self(&sig.inputs);

    let mut lifetimes = CollectLifetimes::new("life");
    visit_inputs(&mut lifetimes, &mut sig.inputs);

    let mut predicates: Vec<WherePredicate> = match sig.generics.where_clause.take() {
        Some(predicates) => predicates,
        None => {
            let empty: Vec<WherePredicate> = Vec::new();
            proof {
                lemma_seq_view_empty(empty@);
            }
            empty
        },
    };
    assert(seq_view(predicates@) == written_predicates(old(sig)@.generics));
    push_param_predicates(&mut predicates, &sig.generics.params);
    let used = context.lifetimes(&lifetimes.explicit);
    push_used_predicates(&mut predicates, &used);
    push_lifetimes(&mut sig.generics.params, &mut predicates, &lifetimes.elided);
    let last = param_of_lifetime(&async_trait());
    proof {
        lemma_seq_view_push(sig.generics.params@, last);
    }
    sig.generics.params.push(last);
    if has_self {
        let predicate = predicate_of_self(context, &marker, has_default, is_local);
        proof {
            lemma_seq_view_push(predicates@, predicate);
        }
        predicates.push(predicate);
    }
    sig.generics.where_clause = Some(predicates);

    normalize_inputs(&mut sig.inputs);

    sig.output = Some(future_of(ret, is_local));

    proof {
        let t = transformed_sig(context@, old(sig)@, has_self, has_default, is_local);
        assert(sig@.generics.params =~= t.generics.params);
        assert(sig@.generics.where_clause->0 =~= t.generics.where_clause->0);
        assert(sig@.inputs =~= t.inputs);
    }
}

fn decl_of(i: usize, arg: &FnArg) -> (r: Local)
    ensures
        r@ == decl(i as nat, arg@),
{
    match arg {
        FnArg::Receiver(r) => {
            let mut name = String::from_str("__");
            name.append("self");
            Local {
                pat: Pat::Ident {
                    by_ref: false,
                    mutable: r.mutable,
                    ident: Ident { name, span: r.self_span },
                },
                init: Ident::new("self", r.self_span),
            }
        },
        FnArg::Typed { pat, .. } => match pat {
            Pat::Ident { mutable, ident, .. } => {
                if ident.is("self") {
                    let mut name = String::from_str("__");
                    name.append(ident.name.as_str());
                    Local {
                        pat: Pat::Ident {
                            by_ref: false,
                            mutable: *mutable,
                            ident: Ident { name, span: ident.span },
                        },
                        init: ident.clone(),
                    }
                } else {
                    Local {
                        pat: Pat::Ident { by_ref: false, mutable: *mutable, ident: ident.clone() },
                        init: ident.clone(),
                    }
                }
            },
            Pat::Verbatim { span, .. } => Local {
                pat: pat.clone(),
                init: positional_arg(i, *span),
            },
        },
    }
}

fn decls_of(inputs: &Vec<FnArg>) -> (r: Vec<Local>)
    ensures
        seq_view(r@) == decls(seq_view(inputs@)),
{
    let mut out: Vec<Local> = Vec::new();
    let mut i: usize = 0;
    while i < inputs.len()
        invariant
            i <= inputs.len(),
            out@.len() == i,
            forall|j: int| 0 <= j < i ==> (#[trigger] out@[j])@ == decl(j as nat, inputs@[j]@),
        decreases inputs.len() - i,
    {
        out.push(decl_of(i, &inputs[i]));
        i = i + 1;
    }
    assert(seq_view(out@) =~= decls(seq_view(inputs@)));
    out
}

fn is_receiver(arg: &FnArg) -> (b: bool)
    ensures
        b == arg_binds_self(arg@),
{
    match arg {
        FnArg::Receiver(_) => true,
        FnArg::Typed { pat, .. } => match pat {
            Pat::Ident { ident, .. } => ident.is("self"),
            _ => false,
        },
    }
}

fn has_receiver(inputs: &Vec<FnArg>) -> (b: bool)
    ensures
        b == binds_self(seq_view(inputs@)),
{
    let mut i: usize = 0;
    while i < inputs.len()
        invariant
            i <= inputs.len(),
            forall|j: int| 0 <= j < i ==> !arg_binds_self(#[trigger] seq_view(inputs@)[j]),
        decreases inputs.len() - i,
    {
        if is_receiver(&inputs[i]) {
            assert(arg_binds_self(seq_view(inputs@)[i as int]));
            return true;
        }
        i = i + 1;
    }
    false
}

fn is_semicolon_item(tree: &TokenTree) -> (b: bool)
    ensures
        b == is_semicolon(tree@),
{
    match tree {
        TokenTree::Item { stream } => {
            if stream.len() == 1 {
                assert(trees_view(stream@)[0] == stream@[0]@);
                match &stream[0] {
                    TokenTree::Punct { ch, .. } => *ch == ';',
                    _ => false,
                }
            } else {
                false
            }
        },
        _ => false,
    }
}

fn is_stub_block(block: &Block) -> (b: bool)
    ensures
        b == is_stub(block@),
{
    match block {
        Block::Plain { stmts } => stmts.len() == 1 && stmts[0].tokens.len() == 1
            && is_semicolon_item(&stmts[0].tokens[0]),
        _ => false,
    }
}

/// Rewrites the body of an `async` method in place, for the signature as
/// it was written.
pub fn transform_block(sig: &Signature, block: &mut Block)
    ensures
        final(block)@ == transformed_block(sig@, old(block)@),
{
    if is_stub_block(block) {
        return ;
    }
    let decls = decls_of(&sig.inputs);
    if has_receiver(&sig.inputs) {
        replace_self_in_block(block, "__");
    }
    let ret_ty = match &sig.output {
        Some(ret) => ret.clone(),
        None => unit(),
    };
    let mut attrs: Vec<Attribute> = Vec::new();
    attrs.push(Attribute::AllowUnreachableCode);
    assert(seq_view(attrs@) =~= seq![AttributeView::AllowUnreachableCode]);
    let mut inner = Block::Plain { stmts: Vec::new() };
    core::mem::swap(&mut inner, block);
    *block = Block::Boxed { ret_ty, decls, inner: Box::new(inner), attrs };
}

fn expand_trait_method(context: Context, method: &mut TraitItemMethod, is_local: bool)
    ensures
        final(method)@ == expanded_trait_method(context@, old(method)@, is_local),
{
    if method.sig.asyncness.is_some() {
        let mut has_self = has_self_in_sig(&method.sig);
        let has_default = method.default.is_some();
        match &mut method.default {
            Some(block) => {
                let in_block = has_self_in_block(block);
                has_self = has_self || in_block;
                transform_block(&method.sig, block);
                proof {
                    lemma_seq_view_push(method.attrs@, Attribute::AllowUsedUnderscoreBinding);
                }
                method.attrs.push(Attribute::AllowUsedUnderscoreBinding);
            },
            None => {},
        }
        transform_sig(context, &mut method.sig, has_self, has_default, is_local);
        proof {
            lemma_seq_view_push(method.attrs@, Attribute::MustUse);
        }
        method.attrs.push(Attribute::MustUse);
    }
}

fn expand_trait_items(context: Context, items: &mut Vec<TraitItem>, is_local: bool)
    ensures
        seq_view(final(items)@) == expanded_trait_items(context@, seq_view(old(items)@), is_local),
{
    let mut i: usize = 0;
    let n: usize = items.len();
    while i < n
        invariant
            i <= n,
            n == items@.len(),
            n == old(items)@.len(),
            forall|j: int| i <= j < n ==> items@[j] == old(items)@[j],
            forall|j: int|
                0 <= j < i ==> (#[trigger] items@[j])@ == expanded_trait_item(
                    context@,
                    old(items)@[j]@,
                    is_local,
                ),
        decreases n - i,
    {
        match &mut items[i] {
            TraitItem::Method(method) => {
                expand_trait_method(context, method, is_local);
            },
            _ => {},
        }
        i = i + 1;
    }
    assert(seq_view(items@) =~= expanded_trait_items(context@, seq_view(old(items)@), is_local));
}

fn expand_impl_method(context: Context, method: &mut ImplItemMethod, is_local: bool)
    ensures
        final(method)@ == expanded_impl_method(context@, old(method)@, is_local),
{
    if method.sig.asyncness.is_some() {
        let in_sig = has_self_in_sig(&method.sig);
        let in_block = has_self_in_block(&method.block);
        let has_self = in_sig || in_block;
        transform_block(&method.sig, &mut method.block);
        transform_sig(context, &mut method.sig, has_self, false, is_local);
        proof {
            lemma_seq_view_push(method.attrs@, Attribute::AllowUsedUnderscoreBinding);
        }
        method.attrs.push(Attribute::AllowUsedUnderscoreBinding);
    }
}

fn expand_impl_items(context: Context, items: &mut Vec<ImplItem>, is_local: bool)
    ensures
        seq_view(final(items)@) == expanded_impl_items(context@, seq_view(old(items)@), is_local),
{
    let mut i: usize = 0;
    let n: usize = items.len();
    while i < n
        invariant
            i <= n,
            n == items@.len(),
            n == old(items)@.len(),
            forall|j: int| i <= j < n ==> items@[j] == old(items)@[j],
            forall|j: int|
                0 <= j < i ==> (#[trigger] items@[j])@ == expanded_impl_item(
                    context@,
                    old(items)@[j]@,
                    is_local,
                ),
        decreases n - i,
    {
        match &mut items[i] {
            ImplItem::Method(method) => {
                expand_impl_method(context, method, is_local);
            },
            _ => {},
        }
        i = i + 1;
    }
    assert(seq_view(items@) =~= expanded_impl_items(context@, seq_view(old(items)@), is_local));
}

fn params_of_lifetimes(lifetimes: &Vec<Lifetime>) -> (r: Vec<GenericParam>)
    ensures
        seq_view(r@) == lifetime_params(seq_view(lifetimes@)),
{
    let mut out: Vec<GenericParam> = Vec::new();
    let mut i: usize = 0;
    while i < lifetimes.len()
        invariant
            i <= lifetimes.len(),
            out@.len() == i,
            forall|j: int| 0 <= j < i ==> (#[trigger] out@[j])@ == lifetime_param(lifetimes@[j]@),
        decreases lifetimes.len() - i,
    {
        out.push(param_of_lifetime(&lifetimes[i]));
        i = i + 1;
    }
    assert(seq_view(out@) =~= lifetime_params(seq_view(lifetimes@)));
    out
}

fn hoist_lifetimes(input: &mut ItemImpl)
    requires
        old(input).trait_ is Some,
    ensures
        final(input)@.generics == hoisted_generics(old(input)@),
        final(input)@.self_ty == visit_type(
            LifetimeFacts::empty("impl"@),
            old(input)@.self_ty,
        ).0,
        final(input)@.trait_ == Some(
            visit_path(
                visit_type(LifetimeFacts::empty("impl"@), old(input)@.self_ty).1,
                old(input)@.trait_->0,
            ).0,
        ),
        final(input).items == old(input).items,
{
    let mut lifetimes = CollectLifetimes::new("impl");
    lifetimes.visit_type_mut(&mut input.self_ty);
    match &mut input.trait_ {
        Some(path) => {
            lifetimes.visit_path_mut(path);
        },
        None => {},
    }
    let mut params = params_of_lifetimes(&lifetimes.elided);
    let ghost hoisted = seq_view(params@);
    let ghost written = seq_view(input.generics.params@);
    params.append(&mut input.generics.params);
    assert(seq_view(params@) =~= hoisted + written);
    input.generics.params = params;
}

/// Rewrites every `async` method of a trait or of an impl of a trait, in
/// place. With `is_local` the futures need not be `Send`.
pub fn expand(input: &mut Item, is_local: bool)
    requires
        old(input)@ matches ItemView::Impl(i) ==> i.trait_ is Some,
    ensures
        final(input)@ == expanded(old(input)@, is_local),
{
    match input {
        Item::Trait(input) => {
            let context = Context::Trait {
                generics: &input.generics,
                supertraits: &input.supertraits,
            };
            expand_trait_items(context, &mut input.items, is_local);
        },
        Item::Impl(input) => {
            hoist_lifetimes(input);
            let context = Context::Impl { impl_generics: &input.generics };
            expand_impl_items(context, &mut input.items, is_local);
        },
    }
}

} // verus!
