use async_trait::expand::expand;
use async_trait::expand::has_bound;
use async_trait::expand::positional_arg;
use async_trait::expand::transform_block;
use async_trait::expand::transform_sig;
use async_trait::expand::Context;
use async_trait::item::Attribute;
use async_trait::item::Block;
use async_trait::item::ImplItem;
use async_trait::item::ImplItemMethod;
use async_trait::item::Item;
use async_trait::item::ItemImpl;
use async_trait::item::ItemTrait;
use async_trait::item::Local;
use async_trait::item::Stmt;
use async_trait::item::TraitItem;
use async_trait::item::TraitItemMethod;
use async_trait::sig::FnArg;
use async_trait::sig::GenericParam;
use async_trait::sig::Generics;
use async_trait::sig::Pat;
use async_trait::sig::Receiver;
use async_trait::sig::Signature;
use async_trait::sig::WherePredicate;
use async_trait::token::Delimiter;
use async_trait::token::Ident;
use async_trait::token::Lifetime;
use async_trait::token::Span;
use async_trait::token::TokenTree;
use async_trait::ty::GenericArgument;
use async_trait::ty::Path;
use async_trait::ty::PathSegment;
use async_trait::ty::Type;
use async_trait::ty::TypeParamBound;

fn sp(id: u32) -> Span {
    Span { id }
}

fn ident(name: &str, span: u32) -> Ident {
    Ident { name: name.to_string(), span: sp(span) }
}

fn life(name: &str, span: u32) -> Lifetime {
    Lifetime { name: name.to_string(), span: sp(span) }
}

fn segment(name: &str, span: u32, arguments: Vec<GenericArgument>) -> PathSegment {
    PathSegment { ident: ident(name, span), arguments }
}

fn path(leading_colon: bool, segments: Vec<PathSegment>) -> Path {
    Path { leading_colon, segments }
}

fn named(name: &str, span: u32) -> Type {
    Type::Path(path(false, vec![segment(name, span, vec![])]))
}

fn reference(lifetime: Option<Lifetime>, mutable: bool, elem: Type) -> Type {
    Type::Reference { lifetime, mutable, elem: Box::new(elem) }
}

fn unit() -> Type {
    Type::Tuple { elems: vec![] }
}

fn receiver(reference: Option<Option<Lifetime>>, mutable: bool, span: u32) -> FnArg {
    FnArg::Receiver(Receiver { reference, mutable, self_span: sp(span) })
}

fn binding(name: &str, span: u32) -> Pat {
    Pat::Ident { by_ref: false, mutable: false, ident: ident(name, span) }
}

fn typed(pat: Pat, ty: Type) -> FnArg {
    FnArg::Typed { pat, ty }
}

fn word(name: &str, span: u32) -> TokenTree {
    TokenTree::Ident(ident(name, span))
}

fn punct(ch: char, span: u32) -> TokenTree {
    TokenTree::Punct { ch, joint: false, span: sp(span) }
}

fn parens(span: u32, stream: Vec<TokenTree>) -> TokenTree {
    TokenTree::Group { delimiter: Delimiter::Parenthesis, span: sp(span), stream }
}

fn pair_pattern(a: &str, b: &str, span: u32) -> Pat {
    Pat::Verbatim {
        tokens: vec![parens(span, vec![word(a, span + 1), punct(',', span + 2), word(b, span + 3)])],
        span: sp(span),
    }
}

fn no_generics() -> Generics {
    Generics { params: vec![], where_clause: None }
}

fn async_sig(name: &str, inputs: Vec<FnArg>, output: Option<Type>) -> Signature {
    Signature {
        asyncness: Some(sp(1)),
        fn_span: sp(2),
        ident: ident(name, 3),
        generics: no_generics(),
        inputs,
        output,
    }
}

fn async_trait() -> Lifetime {
    life("async_trait", 0)
}

fn lifetime_param(l: Lifetime) -> GenericParam {
    GenericParam::Lifetime { lifetime: l, bounds: vec![] }
}

fn lifetime_outlives(l: Lifetime) -> WherePredicate {
    WherePredicate::Lifetime { lifetime: l, bounds: vec![async_trait()] }
}

fn type_outlives(name: &str, span: u32) -> WherePredicate {
    WherePredicate::Type {
        bounded_ty: named(name, span),
        bounds: vec![TypeParamBound::Lifetime(async_trait())],
    }
}

fn in_core(module: &str, last: PathSegment) -> Path {
    path(true, vec![segment("core", 0, vec![]), segment(module, 0, vec![]), last])
}

fn marker(name: &str) -> TypeParamBound {
    TypeParamBound::Trait { maybe: false, path: in_core("marker", segment(name, 0, vec![])) }
}

fn self_outlives() -> WherePredicate {
    type_outlives("Self", 0)
}

fn self_with_marker(name: &str) -> WherePredicate {
    WherePredicate::Type {
        bounded_ty: named("Self", 0),
        bounds: vec![marker(name), TypeParamBound::Lifetime(async_trait())],
    }
}

fn boxed_future(ret: Type, send: bool) -> Type {
    let future = TypeParamBound::Trait {
        maybe: false,
        path: in_core(
            "future",
            segment(
                "Future",
                0,
                vec![GenericArgument::Binding { ident: ident("Output", 0), ty: ret }],
            ),
        ),
    };
    let mut bounds = vec![future];
    if send {
        bounds.push(marker("Send"));
    }
    bounds.push(TypeParamBound::Lifetime(async_trait()));
    let boxed = Type::Path(path(
        false,
        vec![segment("Box", 0, vec![GenericArgument::Type(Type::TraitObject { bounds })])],
    ));
    Type::Path(in_core("pin", segment("Pin", 0, vec![GenericArgument::Type(boxed)])))
}

fn plain(stmts: Vec<Vec<TokenTree>>) -> Block {
    Block::Plain { stmts: stmts.into_iter().map(|tokens| Stmt { tokens }).collect() }
}

fn trait_of(supertraits: Vec<TypeParamBound>, methods: Vec<TraitItemMethod>) -> Item {
    Item::Trait(ItemTrait {
        ident: ident("Service", 90),
        generics: no_generics(),
        supertraits,
        items: methods.into_iter().map(TraitItem::Method).collect(),
    })
}

fn impl_of(methods: Vec<ImplItemMethod>) -> Item {
    Item::Impl(ItemImpl {
        generics: no_generics(),
        trait_: Some(path(false, vec![segment("Service", 90, vec![])])),
        self_ty: named("Server", 91),
        items: methods.into_iter().map(ImplItem::Method).collect(),
    })
}

fn trait_methods(item: &Item) -> Vec<&TraitItemMethod> {
    match item {
        Item::Trait(t) => t
            .items
            .iter()
            .map(|i| match i {
                TraitItem::Method(m) => m,
                _ => panic!("not a method"),
            })
            .collect(),
        _ => panic!("not a trait"),
    }
}

fn impl_methods(item: &Item) -> Vec<&ImplItemMethod> {
    match item {
        Item::Impl(t) => t
            .items
            .iter()
            .map(|i| match i {
                ImplItem::Method(m) => m,
                _ => panic!("not a method"),
            })
            .collect(),
        _ => panic!("not an impl"),
    }
}

fn predicates(sig: &Signature) -> &Vec<WherePredicate> {
    sig.generics.where_clause.as_ref().unwrap()
}

// `self.g(x).await`
fn call_on_self() -> Vec<TokenTree> {
    vec![
        word("self", 10),
        punct('.', 11),
        word("g", 12),
        parens(13, vec![word("x", 14)]),
        punct('.', 15),
        word("await", 16),
    ]
}

// `async fn get(&self) -> i32;` in a trait
#[test]
fn trait_method_without_body_gets_boxed_future_signature() {
    let method = TraitItemMethod {
        attrs: vec![],
        sig: async_sig("get", vec![receiver(Some(None), false, 4)], Some(named("i32", 5))),
        default: None,
    };
    let mut item = trait_of(vec![], vec![method]);
    expand(&mut item, false);

    let expected = TraitItemMethod {
        attrs: vec![Attribute::MustUse],
        sig: Signature {
            asyncness: None,
            fn_span: sp(1),
            ident: ident("get", 3),
            generics: Generics {
                params: vec![lifetime_param(life("life0", 0)), lifetime_param(async_trait())],
                where_clause: Some(vec![lifetime_outlives(life("life0", 0)), self_outlives()]),
            },
            inputs: vec![receiver(Some(Some(life("life0", 0))), false, 4)],
            output: Some(boxed_future(named("i32", 5), true)),
        },
        default: None,
    };
    assert_eq!(trait_methods(&item), vec![&expected]);
}

// `async fn f(&self, x: &T) -> Ret { self.g(x).await }` in an impl
#[test]
fn impl_method_body_is_wrapped_and_binds_its_parameters() {
    let method = ImplItemMethod {
        attrs: vec![],
        sig: async_sig(
            "f",
            vec![
                receiver(Some(None), false, 4),
                typed(binding("x", 5), reference(None, false, named("T", 6))),
            ],
            Some(named("Ret", 7)),
        ),
        block: plain(vec![call_on_self()]),
    };
    let mut item = impl_of(vec![method]);
    expand(&mut item, false);

    let methods = impl_methods(&item);
    let out = methods[0];
    let mut renamed = call_on_self();
    renamed[0] = word("__self", 10);
    assert_eq!(
        out.block,
        Block::Boxed {
            ret_ty: named("Ret", 7),
            decls: vec![
                Local { pat: binding("__self", 4), init: ident("self", 4) },
                Local { pat: binding("x", 5), init: ident("x", 5) },
            ],
            inner: Box::new(plain(vec![renamed])),
            attrs: vec![Attribute::AllowUnreachableCode],
        }
    );
    assert_eq!(out.attrs, vec![Attribute::AllowUsedUnderscoreBinding]);
    assert_eq!(
        out.sig.inputs,
        vec![
            receiver(Some(Some(life("life0", 0))), false, 4),
            typed(binding("x", 5), reference(Some(life("life1", 0)), false, named("T", 6))),
        ]
    );
    assert_eq!(
        out.sig.generics.params,
        vec![
            lifetime_param(life("life0", 0)),
            lifetime_param(life("life1", 0)),
            lifetime_param(async_trait()),
        ]
    );
    assert_eq!(
        predicates(&out.sig),
        &vec![
            lifetime_outlives(life("life0", 0)),
            lifetime_outlives(life("life1", 0)),
            self_outlives(),
        ]
    );
    assert_eq!(out.sig.output, Some(boxed_future(named("Ret", 7), true)));
    assert_eq!(out.sig.asyncness, None);
    assert_eq!(out.sig.fn_span, sp(1));
}

fn default_method(first: FnArg) -> TraitItemMethod {
    TraitItemMethod {
        attrs: vec![],
        sig: async_sig("run", vec![first], None),
        default: Some(plain(vec![call_on_self()])),
    }
}

#[test]
fn local_mode_leaves_out_send_and_the_marker_on_self() {
    let mut item = trait_of(vec![], vec![default_method(receiver(Some(None), false, 4))]);
    expand(&mut item, true);
    let methods = trait_methods(&item);
    let sig = &methods[0].sig;
    assert_eq!(sig.output, Some(boxed_future(unit(), false)));
    assert_eq!(predicates(sig).last(), Some(&self_outlives()));
    assert_eq!(predicates(sig).len(), 2);

    let mut item = trait_of(vec![], vec![default_method(receiver(Some(None), false, 4))]);
    expand(&mut item, false);
    let methods = trait_methods(&item);
    let sig = &methods[0].sig;
    assert_eq!(sig.output, Some(boxed_future(unit(), true)));
    assert_eq!(predicates(sig).last(), Some(&self_with_marker("Sync")));
}

#[test]
fn default_method_adds_the_marker_unless_a_supertrait_has_it() {
    let sync = TypeParamBound::Trait {
        maybe: false,
        path: path(false, vec![segment("Sync", 80, vec![])]),
    };
    let mut with = trait_of(vec![sync], vec![default_method(receiver(Some(None), false, 4))]);
    expand(&mut with, false);
    assert_eq!(
        predicates(&trait_methods(&with)[0].sig),
        &vec![lifetime_outlives(life("life0", 0)), self_outlives()]
    );

    let mut without = trait_of(vec![], vec![default_method(receiver(Some(None), false, 4))]);
    expand(&mut without, false);
    assert_eq!(
        predicates(&trait_methods(&without)[0].sig),
        &vec![lifetime_outlives(life("life0", 0)), self_with_marker("Sync")]
    );

    // `Send` among the supertraits does not stand for `Sync`.
    let send = TypeParamBound::Trait {
        maybe: false,
        path: path(false, vec![segment("Send", 80, vec![])]),
    };
    let mut other = trait_of(vec![send], vec![default_method(receiver(Some(None), false, 4))]);
    expand(&mut other, false);
    assert_eq!(predicates(&trait_methods(&other)[0].sig).last(), Some(&self_with_marker("Sync")));
}

#[test]
fn default_method_attributes_and_body() {
    let mut item = trait_of(vec![], vec![default_method(receiver(Some(None), false, 4))]);
    expand(&mut item, false);
    let methods = trait_methods(&item);
    assert_eq!(
        methods[0].attrs,
        vec![Attribute::AllowUsedUnderscoreBinding, Attribute::MustUse]
    );
    let mut renamed = call_on_self();
    renamed[0] = word("__self", 10);
    assert_eq!(
        methods[0].default,
        Some(Block::Boxed {
            ret_ty: unit(),
            decls: vec![Local { pat: binding("__self", 4), init: ident("self", 4) }],
            inner: Box::new(plain(vec![renamed])),
            attrs: vec![Attribute::AllowUnreachableCode],
        })
    );
}

fn last_predicate_for(first: FnArg) -> WherePredicate {
    let mut item = trait_of(vec![], vec![default_method(first)]);
    expand(&mut item, false);
    match item {
        Item::Trait(mut item) => match item.items.remove(0) {
            TraitItem::Method(mut method) => {
                method.sig.generics.where_clause.take().unwrap().pop().unwrap()
            },
            _ => panic!("not a method"),
        },
        _ => panic!("not a trait"),
    }
}

#[test]
fn marker_is_sync_for_shared_receiver_and_send_otherwise() {
    assert_eq!(last_predicate_for(receiver(Some(None), false, 4)), self_with_marker("Sync"));
    assert_eq!(
        last_predicate_for(receiver(Some(Some(life("a", 9))), false, 4)),
        self_with_marker("Sync")
    );
    assert_eq!(last_predicate_for(receiver(Some(None), true, 4)), self_with_marker("Send"));
    assert_eq!(last_predicate_for(receiver(None, false, 4)), self_with_marker("Send"));
    assert_eq!(last_predicate_for(receiver(None, true, 4)), self_with_marker("Send"));
    // `self: &Self` and `self: &mut Self`
    assert_eq!(
        last_predicate_for(typed(binding("self", 4), reference(None, false, named("Self", 5)))),
        self_with_marker("Sync")
    );
    assert_eq!(
        last_predicate_for(typed(binding("self", 4), reference(None, true, named("Self", 5)))),
        self_with_marker("Send")
    );
    // `self: Box<Self>`
    assert_eq!(
        last_predicate_for(typed(
            binding("self", 4),
            Type::Path(path(
                false,
                vec![segment("Box", 5, vec![GenericArgument::Type(named("Self", 6))])]
            ))
        )),
        self_with_marker("Send")
    );
    // no receiver at all, `self` only in the body
    assert_eq!(
        last_predicate_for(typed(binding("x", 4), named("u8", 5))),
        self_with_marker("Send")
    );
}

#[test]
fn destructured_parameter_becomes_positional_name_and_is_bound_in_body() {
    let method = ImplItemMethod {
        attrs: vec![],
        sig: async_sig(
            "f",
            vec![
                typed(binding("x", 5), named("u8", 6)),
                typed(pair_pattern("a", "b", 20), named("Pair", 7)),
            ],
            None,
        ),
        block: plain(vec![vec![word("a", 30)]]),
    };
    let mut item = impl_of(vec![method]);
    expand(&mut item, false);
    let methods = impl_methods(&item);
    let out = methods[0];
    assert_eq!(
        out.sig.inputs,
        vec![
            typed(binding("x", 5), named("u8", 6)),
            typed(binding("__arg1", 20), named("Pair", 7)),
        ]
    );
    assert_eq!(
        out.block,
        Block::Boxed {
            ret_ty: unit(),
            decls: vec![
                Local { pat: binding("x", 5), init: ident("x", 5) },
                Local { pat: pair_pattern("a", "b", 20), init: ident("__arg1", 20) },
            ],
            inner: Box::new(plain(vec![vec![word("a", 30)]])),
            attrs: vec![Attribute::AllowUnreachableCode],
        }
    );
    // nothing names the receiver: no predicate on `Self`
    assert_eq!(predicates(&out.sig), &Vec::<WherePredicate>::new());
}

#[test]
fn two_methods_get_their_names_independently() {
    let make = |name: &str| ImplItemMethod {
        attrs: vec![],
        sig: async_sig(
            name,
            vec![
                typed(pair_pattern("a", "b", 20), reference(None, false, named("Pair", 7))),
                typed(pair_pattern("c", "d", 40), reference(None, false, named("Pair", 8))),
            ],
            None,
        ),
        block: plain(vec![vec![word("a", 30)]]),
    };
    let mut both = impl_of(vec![make("first"), make("second")]);
    expand(&mut both, false);
    let mut alone = impl_of(vec![make("second")]);
    expand(&mut alone, false);

    let both = impl_methods(&both);
    let alone = impl_methods(&alone);
    assert_eq!(both[1], alone[0]);
    assert_eq!(both[0].sig.inputs, both[1].sig.inputs);
    assert_eq!(
        both[0].sig.inputs,
        vec![
            typed(binding("__arg0", 20), reference(Some(life("life0", 0)), false, named("Pair", 7))),
            typed(binding("__arg1", 40), reference(Some(life("life1", 0)), false, named("Pair", 8))),
        ]
    );
}

#[test]
fn method_that_is_not_async_stays_as_it_is() {
    let make = || {
        let mut sig = async_sig("plain", vec![receiver(Some(None), false, 4)], None);
        sig.asyncness = None;
        TraitItemMethod { attrs: vec![], sig, default: Some(plain(vec![call_on_self()])) }
    };
    let mut item = trait_of(vec![], vec![make()]);
    expand(&mut item, false);
    assert_eq!(item, trait_of(vec![], vec![make()]));

    let other = || TraitItem::Verbatim { tokens: vec![word("type", 1), word("Out", 2), punct(';', 3)] };
    let mut item = Item::Trait(ItemTrait {
        ident: ident("Service", 90),
        generics: no_generics(),
        supertraits: vec![],
        items: vec![other()],
    });
    expand(&mut item, false);
    match item {
        Item::Trait(t) => assert_eq!(t.items, vec![other()]),
        _ => unreachable!(),
    }
}

#[test]
fn stub_body_is_left_alone_while_the_signature_is_rewritten() {
    let stub = || plain(vec![vec![TokenTree::Item { stream: vec![punct(';', 9)] }]]);
    let method = ImplItemMethod {
        attrs: vec![],
        sig: async_sig("f", vec![receiver(Some(None), true, 4)], None),
        block: stub(),
    };
    let mut item = impl_of(vec![method]);
    expand(&mut item, false);
    let methods = impl_methods(&item);
    assert_eq!(methods[0].block, stub());
    assert_eq!(methods[0].sig.asyncness, None);
    assert_eq!(methods[0].sig.output, Some(boxed_future(unit(), true)));
    assert_eq!(methods[0].sig.inputs, vec![receiver(Some(Some(life("life0", 0))), true, 4)]);

    // two statements, or another item, are a body like any other
    let mut block = plain(vec![
        vec![TokenTree::Item { stream: vec![punct(';', 9)] }],
        vec![TokenTree::Item { stream: vec![punct(';', 9)] }],
    ]);
    let sig = async_sig("f", vec![], None);
    transform_block(&sig, &mut block);
    assert!(matches!(block, Block::Boxed { .. }));
    let mut block = plain(vec![vec![punct(';', 9)]]);
    transform_block(&sig, &mut block);
    assert!(matches!(block, Block::Boxed { .. }));
    let mut block = plain(vec![]);
    transform_block(&sig, &mut block);
    assert_eq!(
        block,
        Block::Boxed {
            ret_ty: unit(),
            decls: vec![],
            inner: Box::new(plain(vec![])),
            attrs: vec![Attribute::AllowUnreachableCode],
        }
    );
}

#[test]
fn generic_parameters_get_one_predicate_each_and_constants_none() {
    let mut sig = async_sig(
        "f",
        vec![typed(binding("x", 5), reference(Some(life("a", 6)), false, named("T", 7)))],
        Some(named("U", 8)),
    );
    sig.generics = Generics {
        params: vec![
            GenericParam::Lifetime { lifetime: life("a", 50), bounds: vec![] },
            GenericParam::Type {
                ident: ident("T", 51),
                bounds: vec![TypeParamBound::Trait {
                    maybe: false,
                    path: path(false, vec![segment("Debug", 52, vec![])]),
                }],
                default: None,
            },
            GenericParam::Const { tokens: vec![word("const", 53), word("N", 54)] },
            GenericParam::Type { ident: ident("U", 55), bounds: vec![], default: None },
        ],
        where_clause: Some(vec![WherePredicate::Verbatim { tokens: vec![word("written", 56)] }]),
    };
    let generics = no_generics();
    let supertraits = vec![];
    let context = Context::Trait { generics: &generics, supertraits: &supertraits };
    transform_sig(context, &mut sig, false, false, false);
    assert_eq!(
        predicates(&sig),
        &vec![
            WherePredicate::Verbatim { tokens: vec![word("written", 56)] },
            lifetime_outlives(life("a", 50)),
            type_outlives("T", 51),
            type_outlives("U", 55),
        ]
    );
    assert_eq!(sig.generics.params.len(), 5);
    assert_eq!(sig.generics.params[4], lifetime_param(async_trait()));
    assert_eq!(sig.output, Some(boxed_future(named("U", 8), true)));
}

#[test]
fn lifetimes_of_the_context_are_bound_when_the_parameters_name_them() {
    let generics = Generics {
        params: vec![
            GenericParam::Lifetime { lifetime: life("a", 60), bounds: vec![] },
            GenericParam::Lifetime { lifetime: life("b", 61), bounds: vec![] },
            GenericParam::Type { ident: ident("T", 62), bounds: vec![], default: None },
        ],
        where_clause: None,
    };
    let context = Context::Impl { impl_generics: &generics };
    let used = vec![life("b", 7), life("z", 8)];
    assert_eq!(context.lifetimes(&used), vec![&generics.params[1]]);
    assert_eq!(context.lifetimes(&vec![]), Vec::<&GenericParam>::new());

    let mut sig = async_sig(
        "f",
        vec![
            typed(binding("x", 5), reference(Some(life("b", 6)), false, named("u8", 7))),
            typed(binding("y", 8), reference(Some(life("b", 9)), false, named("u8", 10))),
        ],
        None,
    );
    transform_sig(context, &mut sig, true, false, false);
    assert_eq!(predicates(&sig), &vec![lifetime_outlives(life("b", 61)), self_outlives()]);
    assert_eq!(sig.generics.params, vec![lifetime_param(async_trait())]);
}

#[test]
fn by_value_receiver_and_plain_bindings_lose_mut_and_ref() {
    let mut sig = async_sig(
        "f",
        vec![
            receiver(None, true, 4),
            typed(
                Pat::Ident { by_ref: true, mutable: true, ident: ident("x", 5) },
                named("u8", 6),
            ),
        ],
        None,
    );
    let mut block = plain(vec![vec![word("x", 30)]]);
    transform_block(&sig, &mut block);
    let generics = no_generics();
    transform_sig(Context::Impl { impl_generics: &generics }, &mut sig, true, false, false);
    assert_eq!(
        sig.inputs,
        vec![receiver(None, false, 4), typed(binding("x", 5), named("u8", 6))]
    );
    assert_eq!(
        block,
        Block::Boxed {
            ret_ty: unit(),
            decls: vec![
                Local {
                    pat: Pat::Ident { by_ref: false, mutable: true, ident: ident("__self", 4) },
                    init: ident("self", 4),
                },
                Local {
                    pat: Pat::Ident { by_ref: false, mutable: true, ident: ident("x", 5) },
                    init: ident("x", 5),
                },
            ],
            inner: Box::new(plain(vec![vec![word("x", 30)]])),
            attrs: vec![Attribute::AllowUnreachableCode],
        }
    );
    // `&mut self` keeps its `mut`
    let mut sig = async_sig("f", vec![receiver(Some(None), true, 4)], None);
    transform_sig(Context::Impl { impl_generics: &generics }, &mut sig, true, false, false);
    assert_eq!(sig.inputs, vec![receiver(Some(Some(life("life0", 0))), true, 4)]);
}

#[test]
fn typed_self_parameter_is_bound_like_the_receiver() {
    let sig = async_sig(
        "f",
        vec![typed(
            Pat::Ident { by_ref: false, mutable: true, ident: ident("self", 4) },
            named("Own", 5),
        )],
        None,
    );
    let mut block = plain(vec![vec![word("self", 30), punct('.', 31), word("Self", 32)]]);
    transform_block(&sig, &mut block);
    assert_eq!(
        block,
        Block::Boxed {
            ret_ty: unit(),
            decls: vec![Local {
                pat: Pat::Ident { by_ref: false, mutable: true, ident: ident("__self", 4) },
                init: ident("self", 4),
            }],
            inner: Box::new(plain(vec![vec![
                word("__self", 30),
                punct('.', 31),
                word("__self", 32)
            ]])),
            attrs: vec![Attribute::AllowUnreachableCode],
        }
    );
}

#[test]
fn body_without_receiver_keeps_its_words() {
    let sig = async_sig("make", vec![typed(binding("x", 5), named("u8", 6))], Some(named("Self", 7)));
    let body = || plain(vec![vec![word("Self", 30), punct(':', 31), punct(':', 32), word("new", 33)]]);
    let mut block = body();
    transform_block(&sig, &mut block);
    assert_eq!(
        block,
        Block::Boxed {
            ret_ty: named("Self", 7),
            decls: vec![Local { pat: binding("x", 5), init: ident("x", 5) }],
            inner: Box::new(body()),
            attrs: vec![Attribute::AllowUnreachableCode],
        }
    );
}

#[test]
fn rewritten_body_can_be_wrapped_again() {
    let sig = async_sig("f", vec![receiver(Some(None), false, 4)], None);
    let mut block = plain(vec![call_on_self()]);
    transform_block(&sig, &mut block);
    transform_block(&sig, &mut block);
    let mut renamed = call_on_self();
    renamed[0] = word("__self", 10);
    let decls = || vec![Local { pat: binding("__self", 4), init: ident("self", 4) }];
    assert_eq!(
        block,
        Block::Boxed {
            ret_ty: unit(),
            decls: decls(),
            inner: Box::new(Block::Boxed {
                ret_ty: unit(),
                decls: vec![Local { pat: binding("__self", 4), init: ident("__self", 4) }],
                inner: Box::new(plain(vec![renamed])),
                attrs: vec![Attribute::AllowUnreachableCode],
            }),
            attrs: vec![Attribute::AllowUnreachableCode],
        }
    );
}

#[test]
fn impl_header_lifetimes_are_named_and_declared_first() {
    let mut item = Item::Impl(ItemImpl {
        generics: Generics {
            params: vec![GenericParam::Type { ident: ident("T", 70), bounds: vec![], default: None }],
            where_clause: None,
        },
        trait_: Some(path(
            false,
            vec![segment("Service", 71, vec![GenericArgument::Lifetime(life("_", 72))])],
        )),
        self_ty: reference(None, false, named("Server", 73)),
        items: vec![ImplItem::Method(ImplItemMethod {
            attrs: vec![],
            sig: async_sig(
                "f",
                vec![typed(binding("x", 5), reference(Some(life("impl1", 6)), false, named("u8", 7)))],
                None,
            ),
            block: plain(vec![]),
        })],
    });
    expand(&mut item, false);
    match &item {
        Item::Impl(i) => {
            assert_eq!(
                i.generics.params,
                vec![
                    lifetime_param(life("impl0", 0)),
                    lifetime_param(life("impl1", 0)),
                    GenericParam::Type { ident: ident("T", 70), bounds: vec![], default: None },
                ]
            );
            assert_eq!(i.self_ty, reference(Some(life("impl0", 0)), false, named("Server", 73)));
            assert_eq!(
                i.trait_,
                Some(path(
                    false,
                    vec![segment("Service", 71, vec![GenericArgument::Lifetime(life("impl1", 0))])]
                ))
            );
        },
        _ => unreachable!(),
    }
    // the method names `'impl1`, which the impl now declares
    let methods = impl_methods(&item);
    assert_eq!(predicates(&methods[0].sig), &vec![lifetime_outlives(life("impl1", 0))]);
}

#[test]
fn positional_names_are_the_prefix_and_the_number() {
    assert_eq!(positional_arg(0, sp(7)), ident("__arg0", 7));
    assert_eq!(positional_arg(9, sp(7)), ident("__arg9", 7));
    assert_eq!(positional_arg(10, sp(8)), ident("__arg10", 8));
    assert_eq!(positional_arg(4207, sp(0)), ident("__arg4207", 0));
    assert_eq!(
        positional_arg(usize::MAX, sp(0)).name,
        format!("__arg{}", usize::MAX)
    );
}

#[test]
fn supertrait_counts_only_as_a_single_word() {
    let sync = ident("Sync", 0);
    let word_bound = |name: &str| TypeParamBound::Trait {
        maybe: false,
        path: path(false, vec![segment(name, 80, vec![])]),
    };
    assert!(has_bound(&vec![word_bound("Debug"), word_bound("Sync")], &sync));
    assert!(!has_bound(&vec![word_bound("Debug"), word_bound("Send")], &sync));
    assert!(!has_bound(&vec![], &sync));
    // `::core::marker::Sync`, `Sync<T>` and `::Sync` are not the word `Sync`
    assert!(!has_bound(&vec![marker("Sync")], &sync));
    let with_argument = TypeParamBound::Trait {
        maybe: false,
        path: path(false, vec![segment("Sync", 80, vec![GenericArgument::Type(named("T", 81))])]),
    };
    assert!(!has_bound(&vec![with_argument], &sync));
    let rooted = TypeParamBound::Trait {
        maybe: false,
        path: path(true, vec![segment("Sync", 80, vec![])]),
    };
    assert!(!has_bound(&vec![rooted], &sync));
    assert!(!has_bound(&vec![TypeParamBound::Lifetime(life("Sync", 1))], &sync));
    assert!(!has_bound(
        &vec![TypeParamBound::Verbatim { tokens: vec![word("Sync", 1)] }],
        &sync
    ));
}
