//! What holds of every rewriting, whatever the trait, impl or method.

use crate::decimal::decimal;
use crate::decimal::lemma_numbered_names_differ;
use crate::expand::async_trait_lifetime;
use crate::expand::binds_self;
use crate::expand::boxed_future;
use crate::expand::decls;
use crate::expand::expanded_impl;
use crate::expand::expanded_trait;
use crate::expand::expanded_trait_method;
use crate::expand::future_bound;
use crate::expand::future_bounds;
use crate::expand::hoisted_generics;
use crate::expand::is_stub;
use crate::expand::lifetime_param;
use crate::expand::lifetime_params;
use crate::expand::lifetime_predicates;
use crate::expand::marker_bound;
use crate::expand::output_type;
use crate::expand::param_predicate;
use crate::expand::param_predicates;
use crate::expand::plain_pat;
use crate::expand::positional;
use crate::expand::positional_name;
use crate::expand::self_marker;
use crate::expand::sig_facts;
use crate::expand::self_predicate;
use crate::expand::self_prefix;
use crate::expand::self_type;
use crate::expand::supertraits_have;
use crate::expand::transformed_block;
use crate::expand::transformed_sig;
use crate::expand::visit_args;
use crate::expand::written_predicates;
use crate::expand::ContextView;
use crate::item::BlockView;
use crate::item::ItemImplView;
use crate::item::ItemTraitView;
use crate::item::LocalView;
use crate::item::TraitItemMethodView;
use crate::lifetime::lemma_elided_names_differ;
use crate::lifetime::lemma_visit_receiver_wf;
use crate::lifetime::lemma_visit_type_wf;
use crate::lifetime::LifetimeFacts;
use crate::receiver::block_mentions_self;
use crate::receiver::block_without_self;
use crate::receiver::sig_mentions_self;
use crate::sig::FnArgView;
use crate::sig::GenericParamView;
use crate::sig::PatView;
use crate::sig::SignatureView;
use crate::sig::WherePredicateView;
use crate::ty::TypeParamBoundView;
use vstd::prelude::*;

verus! {

/// The pattern of a parameter; a receiver has none.
pub open spec fn arg_pattern(a: FnArgView) -> Option<PatView> {
    match a {
        FnArgView::Receiver(_) => None,
        FnArgView::Typed { pat, .. } => Some(pat),
    }
}

/// Whether a parameter has a pattern that takes its value apart.
pub open spec fn is_destructured(a: FnArgView) -> bool {
    a matches FnArgView::Typed { pat, .. } && pat is Verbatim
}

/// Visiting the parameters keeps the facts well formed.
pub proof fn lemma_visit_args_wf(c: LifetimeFacts, args: Seq<FnArgView>)
    requires
        c.wf(),
    ensures
        visit_args(c, args).1.wf(),
        visit_args(c, args).1.name == c.name,
    decreases args.len(),
{
    if args.len() > 0 {
        lemma_visit_args_wf(c, args.drop_last());
        let c1 = visit_args(c, args.drop_last()).1;
        match args.last() {
            FnArgView::Receiver(r) => {
                lemma_visit_receiver_wf(c1, r);
            },
            FnArgView::Typed { ty, .. } => {
                lemma_visit_type_wf(c1, ty);
            },
        }
    }
}

/// Visiting the parameters changes neither their number nor their patterns.
pub proof fn lemma_visit_args_keep_patterns(c: LifetimeFacts, args: Seq<FnArgView>)
    ensures
        visit_args(c, args).0.len() == args.len(),
        forall|i: int|
            0 <= i < args.len() ==> arg_pattern(#[trigger] visit_args(c, args).0[i])
                == arg_pattern(args[i]),
    decreases args.len(),
{
    if args.len() > 0 {
        lemma_visit_args_keep_patterns(c, args.drop_last());
        let init = visit_args(c, args.drop_last()).0;
        let out = visit_args(c, args).0;
        assert forall|i: int| 0 <= i < args.len() implies arg_pattern(#[trigger] out[i])
            == arg_pattern(args[i]) by {
            if i < args.len() - 1 {
                assert(out[i] == init[i]);
                assert(args.drop_last()[i] == args[i]);
            }
        }
    }
}

/// A name made for an open lifetime position of a signature is never
/// `async_trait`.
pub proof fn lemma_life_is_not_async_trait(n: nat)
    ensures
        "life"@ + decimal(n) != "async_trait"@,
{
    reveal_strlit("life");
    reveal_strlit("async_trait");
    assert(("life"@ + decimal(n))[0] == 'l');
    assert("async_trait"@[0] == 'a');
}

/// The predicates that generic parameters bring are one for each type and
/// lifetime parameter, in the parameters' order, and none for a constant.
pub proof fn law_one_predicate_per_parameter(params: Seq<GenericParamView>)
    ensures
        param_predicates(params) == params.filter(
            |p: GenericParamView| param_predicate(p) is Some,
        ).map_values(|p: GenericParamView| param_predicate(p)->0),
    decreases params.len(),
{
    reveal(Seq::filter);
    let keep = |p: GenericParamView| param_predicate(p) is Some;
    let to = |p: GenericParamView| param_predicate(p)->0;
    if params.len() == 0 {
        assert(params.filter(keep).map_values(to) =~= Seq::empty());
    } else {
        law_one_predicate_per_parameter(params.drop_last());
        let init = params.drop_last().filter(keep);
        if keep(params.last()) {
            assert(params.filter(keep) == init.push(params.last()));
            assert(init.push(params.last()).map_values(to) =~= init.map_values(to).push(
                to(params.last()),
            ));
        } else {
            assert(params.filter(keep) == init);
        }
    }
}

/// Every rewritten signature.
///
/// It is not `async`; it returns a pinned, boxed future; `'async_trait` is
/// its last generic parameter; and it has a `where` clause that holds, in
/// this order, what was written, the predicates of the written parameters,
/// those of the context's lifetimes that the parameters name, one for each
/// new lifetime, and at most one on `Self`.
pub proof fn law_rewritten_signature(
    ctx: ContextView,
    sig: SignatureView,
    has_self: bool,
    has_default: bool,
    is_local: bool,
)
    ensures
        ({
            let out = transformed_sig(ctx, sig, has_self, has_default, is_local);
            let facts = sig_facts(sig);
            let before = written_predicates(sig.generics) + param_predicates(sig.generics.params)
                + param_predicates(ctx.lifetimes(facts.explicit)) + lifetime_predicates(
                facts.elided,
            );
            &&& out.asyncness is None
            &&& out.output == Some(boxed_future(output_type(sig), is_local))
            &&& out.generics.params.len() == sig.generics.params.len() + facts.elided.len() + 1
            &&& out.generics.params.last() == lifetime_param(async_trait_lifetime())
            &&& out.generics.where_clause is Some
            &&& has_self ==> out.generics.where_clause->0 == before.push(
                self_predicate(ctx, sig.inputs, has_default, is_local),
            )
            &&& !has_self ==> out.generics.where_clause->0 == before
        }),
{
    let out = transformed_sig(ctx, sig, has_self, has_default, is_local);
    let facts = sig_facts(sig);
    let before = written_predicates(sig.generics) + param_predicates(sig.generics.params)
        + param_predicates(ctx.lifetimes(facts.explicit)) + lifetime_predicates(facts.elided);
    if has_self {
        assert(out.generics.where_clause->0 =~= before.push(
            self_predicate(ctx, sig.inputs, has_default, is_local),
        ));
    } else {
        assert(out.generics.where_clause->0 =~= before);
    }
}

/// A name given to an open lifetime position of a signature differs from
/// every lifetime written in the parameters, as long as none of those is
/// itself spelled `life` and a number.
pub proof fn law_new_lifetimes_differ_from_written(sig: SignatureView, i: int, j: int)
    requires
        0 <= i < sig_facts(sig).elided.len(),
        0 <= j < sig_facts(sig).explicit.len(),
        forall|n: nat| sig_facts(sig).explicit[j].name != "life"@ + #[trigger] decimal(n),
    ensures
        sig_facts(sig).elided[i].name != sig_facts(sig).explicit[j].name,
{
    lemma_visit_args_wf(LifetimeFacts::empty("life"@), sig.inputs);
    assert(sig_facts(sig).elided[i].name == "life"@ + decimal(i as nat));
}

/// The signature of an `async` trait method without a default body.
///
/// It is no longer `async`; it returns the pinned, boxed future of what the
/// method gave; its generic parameters are those written, then one lifetime
/// for each open position of the parameters, then `'async_trait`, and none
/// of the lifetimes before is called `async_trait`; its `where` clause holds
/// what was written, then one predicate for each written type and lifetime
/// parameter, then those of the trait's lifetimes that the parameters name,
/// those of the new lifetimes, and the one on `Self` where the parameters
/// name the receiver or `Self`.
pub proof fn law_required_method_signature(
    ctx: ContextView,
    m: TraitItemMethodView,
    is_local: bool,
)
    requires
        m.sig.asyncness is Some,
        m.default is None,
    ensures
        ({
            let out = expanded_trait_method(ctx, m, is_local).sig;
            let facts = sig_facts(m.sig);
            &&& out.asyncness is None
            &&& out.output == Some(boxed_future(output_type(m.sig), is_local))
            &&& out.generics.params == m.sig.generics.params + lifetime_params(facts.elided)
                + seq![lifetime_param(async_trait_lifetime())]
            &&& forall|i: int|
                0 <= i < facts.elided.len() ==> (#[trigger] facts.elided[i]).name
                    != async_trait_lifetime().name
            &&& out.generics.where_clause == Some(
                written_predicates(m.sig.generics) + param_predicates(m.sig.generics.params)
                    + param_predicates(ctx.lifetimes(facts.explicit)) + lifetime_predicates(
                    facts.elided,
                ) + (if sig_mentions_self(m.sig) {
                    seq![self_predicate(ctx, m.sig.inputs, false, is_local)]
                } else {
                    Seq::empty()
                }),
            )
            &&& param_predicates(m.sig.generics.params) == m.sig.generics.params.filter(
                |p: GenericParamView| param_predicate(p) is Some,
            ).map_values(|p: GenericParamView| param_predicate(p)->0)
        }),
{
    let facts = sig_facts(m.sig);
    lemma_visit_args_wf(LifetimeFacts::empty("life"@), m.sig.inputs);
    assert forall|i: int| 0 <= i < facts.elided.len() implies (#[trigger] facts.elided[i]).name
        != async_trait_lifetime().name by {
        lemma_life_is_not_async_trait(i as nat);
    }
    law_one_predicate_per_parameter(m.sig.generics.params);
}

/// The predicate on `Self` for an `async` trait method with a default body
/// that names its receiver or `Self`.
///
/// It is the last predicate of the `where` clause. Where the trait has the
/// marker among its supertraits the predicate is `Self: 'async_trait` and
/// does not repeat the marker; where it has not, and the future may cross
/// threads, the predicate is `Self: ::core::marker::M + 'async_trait` with
/// `M` the marker.
pub proof fn law_default_method_self_bound(
    ctx: ContextView,
    m: TraitItemMethodView,
    is_local: bool,
)
    requires
        ctx is Trait,
        m.sig.asyncness is Some,
        m.default is Some,
        sig_mentions_self(m.sig) || block_mentions_self(m.default->0),
    ensures
        ({
            let out = expanded_trait_method(ctx, m, is_local).sig;
            let marker = self_marker(m.sig.inputs);
            let predicates = out.generics.where_clause->0;
            &&& out.generics.where_clause is Some
            &&& predicates.len() > 0
            &&& supertraits_have(ctx->supertraits, marker) ==> predicates.last()
                == WherePredicateView::Type {
                bounded_ty: self_type(),
                bounds: seq![TypeParamBoundView::Lifetime(async_trait_lifetime())],
            }
            &&& !supertraits_have(ctx->supertraits, marker) && !is_local ==> predicates.last()
                == WherePredicateView::Type {
                bounded_ty: self_type(),
                bounds: seq![
                    marker_bound(marker),
                    TypeParamBoundView::Lifetime(async_trait_lifetime()),
                ],
            }
        }),
{
}

/// The marker goes by the receiver: `Sync`, and not `Send`, for `&self`;
/// `Send`, and not `Sync`, for `&mut self`, `self` and `mut self`.
pub proof fn law_marker_follows_receiver(inputs: Seq<FnArgView>)
    requires
        inputs.len() > 0,
        inputs[0] is Receiver,
    ensures
        ({
            let r = inputs[0]->Receiver_0;
            &&& r.reference is Some && !r.mutable ==> self_marker(inputs) == "Sync"@
            &&& r.reference is None || r.mutable ==> self_marker(inputs) == "Send"@
            &&& "Sync"@ != "Send"@
            &&& marker_bound("Sync"@) != marker_bound("Send"@)
        }),
{
    reveal_strlit("Sync");
    reveal_strlit("Send");
    assert("Sync"@[1] == 'y');
    assert("Send"@[1] == 'e');
    assert(marker_bound("Sync"@)->path.segments[2].ident.name == "Sync"@);
    assert(marker_bound("Send"@)->path.segments[2].ident.name == "Send"@);
}

/// A parameter whose pattern takes its value apart.
///
/// In the rewritten signature it is the plain name `__arg` and its place,
/// standing where the pattern stood. The rewritten body has one binding for
/// each parameter, before what the body held; the binding at the
/// parameter's place gives the pattern the value of that name, and no other
/// binding that takes a value apart reads that name.
pub proof fn law_destructured_parameter(
    ctx: ContextView,
    sig: SignatureView,
    block: BlockView,
    has_self: bool,
    has_default: bool,
    is_local: bool,
    i: int,
)
    requires
        0 <= i < sig.inputs.len(),
        is_destructured(sig.inputs[i]),
        !is_stub(block),
    ensures
        ({
            let pat = sig.inputs[i]->pat;
            let name = positional(i as nat, pat->Verbatim_span);
            let out = transformed_sig(ctx, sig, has_self, has_default, is_local);
            let body = transformed_block(sig, block);
            &&& out.inputs.len() == sig.inputs.len()
            &&& arg_pattern(out.inputs[i]) == Some(plain_pat(name))
            &&& body is Boxed
            &&& body->decls.len() == sig.inputs.len()
            &&& body->decls[i] == LocalView { pat, init: name }
            &&& forall|j: int|
                0 <= j < sig.inputs.len() && (#[trigger] body->decls[j]).pat is Verbatim
                    && body->decls[j].init.name == name.name ==> j == i
            &&& *body->inner == (if binds_self(sig.inputs) {
                block_without_self(block, self_prefix())
            } else {
                block
            })
        }),
{
    let pat = sig.inputs[i]->pat;
    let name = positional(i as nat, pat->Verbatim_span);
    let body = transformed_block(sig, block);
    let visited = visit_args(LifetimeFacts::empty("life"@), sig.inputs).0;
    lemma_visit_args_keep_patterns(LifetimeFacts::empty("life"@), sig.inputs);
    assert(arg_pattern(visited[i]) == arg_pattern(sig.inputs[i]));
    assert forall|j: int|
        0 <= j < sig.inputs.len() && (#[trigger] body->decls[j]).pat is Verbatim
            && body->decls[j].init.name == name.name implies j == i by {
        if j != i {
            lemma_numbered_names_differ("__arg"@, j as nat, i as nat);
        }
    }
}

/// The names made for one method are told apart by their numbers: no two
/// open lifetime positions get the same name, and no two parameters the
/// same positional name.
pub proof fn law_new_names_differ(sig: SignatureView, i: int, j: int)
    requires
        i != j,
        0 <= i,
        0 <= j,
    ensures
        positional_name(i as nat) != positional_name(j as nat),
        i < sig_facts(sig).elided.len() && j < sig_facts(sig).elided.len() ==> sig_facts(
            sig,
        ).elided[i].name != sig_facts(sig).elided[j].name,
{
    lemma_numbered_names_differ("__arg"@, i as nat, j as nat);
    lemma_visit_args_wf(LifetimeFacts::empty("life"@), sig.inputs);
    if i < sig_facts(sig).elided.len() && j < sig_facts(sig).elided.len() {
        lemma_elided_names_differ(sig_facts(sig), i, j);
    }
}

/// A method of a trait is rewritten by itself: what becomes of it is the
/// same in every trait with the same generics and supertraits, whatever
/// other methods stand beside it and wherever it stands among them. So the
/// names made for one method never depend on another.
pub proof fn law_trait_methods_rewritten_alone(
    t: ItemTraitView,
    u: ItemTraitView,
    is_local: bool,
    i: int,
    j: int,
)
    requires
        t.generics == u.generics,
        t.supertraits == u.supertraits,
        0 <= i < t.items.len(),
        0 <= j < u.items.len(),
        t.items[i] == u.items[j],
    ensures
        expanded_trait(t, is_local).items.len() == t.items.len(),
        expanded_trait(u, is_local).items.len() == u.items.len(),
        expanded_trait(t, is_local).items[i] == expanded_trait(u, is_local).items[j],
{
}

/// A method of an impl is rewritten by itself: what becomes of it is the
/// same in every impl with the same header, whatever other methods stand
/// beside it and wherever it stands among them.
pub proof fn law_impl_methods_rewritten_alone(
    a: ItemImplView,
    b: ItemImplView,
    is_local: bool,
    i: int,
    j: int,
)
    requires
        a.generics == b.generics,
        a.self_ty == b.self_ty,
        a.trait_ == b.trait_,
        0 <= i < a.items.len(),
        0 <= j < b.items.len(),
        a.items[i] == b.items[j],
    ensures
        expanded_impl(a, is_local).items.len() == a.items.len(),
        expanded_impl(b, is_local).items.len() == b.items.len(),
        expanded_impl(a, is_local).items[i] == expanded_impl(b, is_local).items[j],
{
    assert(hoisted_generics(a) == hoisted_generics(b));
}

/// A future that stays on one thread asks for no marker: its bounds are
/// the `Future` trait and `'async_trait` alone, and the predicate on `Self`
/// is `Self: 'async_trait`.
pub proof fn law_local_asks_for_no_marker(
    ctx: ContextView,
    sig: SignatureView,
    has_self: bool,
    has_default: bool,
)
    ensures
        transformed_sig(ctx, sig, has_self, has_default, true).output == Some(
            boxed_future(output_type(sig), true),
        ),
        future_bounds(output_type(sig), true) == seq![
            future_bound(output_type(sig)),
            TypeParamBoundView::Lifetime(async_trait_lifetime()),
        ],
        self_predicate(ctx, sig.inputs, has_default, true) == (WherePredicateView::Type {
            bounded_ty: self_type(),
            bounds: seq![TypeParamBoundView::Lifetime(async_trait_lifetime())],
        }),
{
}

} // verus!
