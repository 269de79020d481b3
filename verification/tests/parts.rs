use async_trait::decimal::append_decimal;
use async_trait::decimal::numbered_name;
use async_trait::item::Attribute;
use async_trait::item::Block;
use async_trait::item::Local;
use async_trait::item::Stmt;
use async_trait::lifetime::contains_lifetime;
use async_trait::lifetime::CollectLifetimes;
use async_trait::receiver::has_self_in_block;
use async_trait::receiver::has_self_in_sig;
use async_trait::receiver::replace_self_in_block;
use async_trait::sig::FnArg;
use async_trait::sig::Generics;
use async_trait::sig::Pat;
use async_trait::sig::Receiver;
use async_trait::sig::Signature;
use async_trait::token::clone_trees;
use async_trait::token::replace_self_in_tokens;
use async_trait::token::tokens_mention_self;
use async_trait::token::Delimiter;
use async_trait::token::Ident;
use async_trait::token::Lifetime;
use async_trait::token::Span;
use async_trait::token::TokenTree;
use async_trait::ty::GenericArgument;
use async_trait::ty::Path;
use async_trait::ty::PathSegment;
use async_trait::ty::Type;
use async_trait::ty::TypeParamBound;

fn at(id: u32) -> Span {
    Span { id }
}

fn id(name: &str, span: u32) -> Ident {
    Ident { name: name.to_string(), span: at(span) }
}

fn lt(name: &str, span: u32) -> Lifetime {
    Lifetime { name: name.to_string(), span: at(span) }
}

fn seg(name: &str, span: u32, arguments: Vec<GenericArgument>) -> PathSegment {
    PathSegment { ident: id(name, span), arguments }
}

fn simple(name: &str, span: u32) -> Type {
    Type::Path(Path { leading_colon: false, segments: vec![seg(name, span, vec![])] })
}

fn applied(name: &str, span: u32, arguments: Vec<GenericArgument>) -> Type {
    Type::Path(Path { leading_colon: false, segments: vec![seg(name, span, arguments)] })
}

fn borrow(lifetime: Option<Lifetime>, mutable: bool, elem: Type) -> Type {
    Type::Reference { lifetime, mutable, elem: Box::new(elem) }
}

fn w(name: &str, span: u32) -> TokenTree {
    TokenTree::Ident(id(name, span))
}

fn p(ch: char, span: u32) -> TokenTree {
    TokenTree::Punct { ch, joint: false, span: at(span) }
}

fn braces(span: u32, stream: Vec<TokenTree>) -> TokenTree {
    TokenTree::Group { delimiter: Delimiter::Brace, span: at(span), stream }
}

fn body(stmts: Vec<Vec<TokenTree>>) -> Block {
    Block::Plain { stmts: stmts.into_iter().map(|tokens| Stmt { tokens }).collect() }
}

fn signature(inputs: Vec<FnArg>) -> Signature {
    Signature {
        asyncness: Some(at(1)),
        fn_span: at(2),
        ident: id("f", 3),
        generics: Generics { params: vec![], where_clause: None },
        inputs,
        output: None,
    }
}

fn arg(name: &str, ty: Type) -> FnArg {
    FnArg::Typed { pat: Pat::Ident { by_ref: false, mutable: false, ident: id(name, 5) }, ty }
}

#[test]
fn open_positions_are_named_in_the_order_of_writing() {
    // `&(&'a T, Foo<'_, &mut U>, [&V])`
    let mut ty = borrow(
        None,
        false,
        Type::Tuple {
            elems: vec![
                borrow(Some(lt("a", 10)), false, simple("T", 11)),
                applied(
                    "Foo",
                    12,
                    vec![
                        GenericArgument::Lifetime(lt("_", 13)),
                        GenericArgument::Type(borrow(None, true, simple("U", 14))),
                    ],
                ),
                Type::Slice { elem: Box::new(borrow(None, false, simple("V", 15))) },
            ],
        },
    );
    let mut lifetimes = CollectLifetimes::new("life");
    lifetimes.visit_type_mut(&mut ty);
    assert_eq!(
        ty,
        borrow(
            Some(lt("life0", 0)),
            false,
            Type::Tuple {
                elems: vec![
                    borrow(Some(lt("a", 10)), false, simple("T", 11)),
                    applied(
                        "Foo",
                        12,
                        vec![
                            GenericArgument::Lifetime(lt("life1", 0)),
                            GenericArgument::Type(borrow(Some(lt("life2", 0)), true, simple("U", 14))),
                        ],
                    ),
                    Type::Slice {
                        elem: Box::new(borrow(Some(lt("life3", 0)), false, simple("V", 15)))
                    },
                ],
            },
        )
    );
    assert_eq!(
        lifetimes.elided,
        vec![lt("life0", 0), lt("life1", 0), lt("life2", 0), lt("life3", 0)]
    );
    assert_eq!(lifetimes.explicit, vec![lt("a", 10)]);
    assert_eq!(lifetimes.name, "life");
}

#[test]
fn written_lifetimes_are_recorded_once_each() {
    let mut ty = Type::Tuple {
        elems: vec![
            borrow(Some(lt("a", 10)), false, simple("T", 11)),
            borrow(Some(lt("b", 12)), false, simple("T", 13)),
            borrow(Some(lt("a", 14)), true, simple("T", 15)),
        ],
    };
    let before = ty.clone();
    let mut lifetimes = CollectLifetimes::new("life");
    lifetimes.visit_type_mut(&mut ty);
    assert_eq!(ty, before);
    assert_eq!(lifetimes.explicit, vec![lt("a", 10), lt("b", 12)]);
    assert_eq!(lifetimes.elided, Vec::<Lifetime>::new());
    assert!(contains_lifetime(&lifetimes.explicit, &lt("b", 99)));
    assert!(!contains_lifetime(&lifetimes.explicit, &lt("c", 12)));
}

#[test]
fn numbering_goes_on_from_one_visit_to_the_next() {
    let mut lifetimes = CollectLifetimes::new("impl");
    let mut first = borrow(None, false, simple("T", 1));
    lifetimes.visit_type_mut(&mut first);
    let mut trait_path = Path {
        leading_colon: false,
        segments: vec![seg(
            "Service",
            2,
            vec![GenericArgument::Lifetime(lt("_", 3)), GenericArgument::Lifetime(lt("x", 4))],
        )],
    };
    lifetimes.visit_path_mut(&mut trait_path);
    assert_eq!(first, borrow(Some(lt("impl0", 0)), false, simple("T", 1)));
    assert_eq!(
        trait_path.segments[0].arguments,
        vec![GenericArgument::Lifetime(lt("impl1", 0)), GenericArgument::Lifetime(lt("x", 4))]
    );
    assert_eq!(lifetimes.elided, vec![lt("impl0", 0), lt("impl1", 0)]);
    assert_eq!(lifetimes.explicit, vec![lt("x", 4)]);
}

#[test]
fn the_eleventh_open_position_is_number_ten() {
    let mut ty = Type::Tuple {
        elems: (0..11).map(|i| borrow(None, false, simple("T", i))).collect(),
    };
    let mut lifetimes = CollectLifetimes::new("life");
    lifetimes.visit_type_mut(&mut ty);
    assert_eq!(lifetimes.elided.len(), 11);
    assert_eq!(lifetimes.elided[9], lt("life9", 0));
    assert_eq!(lifetimes.elided[10], lt("life10", 0));
    match ty {
        Type::Tuple { elems } => {
            assert_eq!(elems[10], borrow(Some(lt("life10", 0)), false, simple("T", 10)))
        },
        _ => unreachable!(),
    }
}

#[test]
fn receivers_get_a_lifetime_only_behind_a_reference() {
    let mut lifetimes = CollectLifetimes::new("life");
    let mut owned = Receiver { reference: None, mutable: true, self_span: at(4) };
    lifetimes.visit_receiver_mut(&mut owned);
    assert_eq!(owned, Receiver { reference: None, mutable: true, self_span: at(4) });
    let mut shared = Receiver { reference: Some(None), mutable: false, self_span: at(4) };
    lifetimes.visit_receiver_mut(&mut shared);
    assert_eq!(
        shared,
        Receiver { reference: Some(Some(lt("life0", 0))), mutable: false, self_span: at(4) }
    );
    let mut written = Receiver { reference: Some(Some(lt("a", 7))), mutable: true, self_span: at(4) };
    lifetimes.visit_receiver_mut(&mut written);
    assert_eq!(
        written,
        Receiver { reference: Some(Some(lt("a", 7))), mutable: true, self_span: at(4) }
    );
    assert_eq!(lifetimes.elided, vec![lt("life0", 0)]);
    assert_eq!(lifetimes.explicit, vec![lt("a", 7)]);
}

#[test]
fn bounds_are_visited_and_verbatim_types_are_not() {
    // `Box<dyn Get<'a, &T> + 'b>`
    let mut ty = applied(
        "Box",
        1,
        vec![GenericArgument::Type(Type::TraitObject {
            bounds: vec![
                TypeParamBound::Trait {
                    maybe: false,
                    path: Path {
                        leading_colon: false,
                        segments: vec![seg(
                            "Get",
                            2,
                            vec![
                                GenericArgument::Lifetime(lt("a", 3)),
                                GenericArgument::Binding {
                                    ident: id("Out", 4),
                                    ty: borrow(None, false, simple("T", 5)),
                                },
                            ],
                        )],
                    },
                },
                TypeParamBound::Lifetime(lt("b", 6)),
            ],
        })],
    );
    let mut lifetimes = CollectLifetimes::new("life");
    lifetimes.visit_type_mut(&mut ty);
    assert_eq!(lifetimes.explicit, vec![lt("a", 3), lt("b", 6)]);
    assert_eq!(lifetimes.elided, vec![lt("life0", 0)]);

    // `fn(&T)` kept as written
    let verbatim = || Type::Verbatim {
        tokens: vec![
            w("fn", 1),
            TokenTree::Group {
                delimiter: Delimiter::Parenthesis,
                span: at(2),
                stream: vec![p('&', 3), w("T", 4)],
            },
        ],
    };
    let mut ty = Type::Array { elem: Box::new(verbatim()), len: vec![w("N", 9)] };
    let mut lifetimes = CollectLifetimes::new("life");
    lifetimes.visit_type_mut(&mut ty);
    assert_eq!(ty, Type::Array { elem: Box::new(verbatim()), len: vec![w("N", 9)] });
    assert_eq!(lifetimes.elided, Vec::<Lifetime>::new());
    assert_eq!(lifetimes.explicit, Vec::<Lifetime>::new());
}

#[test]
fn signature_names_self_through_receiver_pattern_or_type() {
    assert!(!has_self_in_sig(&signature(vec![])));
    assert!(!has_self_in_sig(&signature(vec![arg("x", simple("u8", 6))])));
    assert!(has_self_in_sig(&signature(vec![FnArg::Receiver(Receiver {
        reference: None,
        mutable: false,
        self_span: at(4)
    })])));
    assert!(has_self_in_sig(&signature(vec![
        arg("x", simple("u8", 6)),
        arg("y", borrow(None, false, simple("Self", 7)))
    ])));
    assert!(has_self_in_sig(&signature(vec![arg(
        "y",
        applied("Vec", 6, vec![GenericArgument::Type(simple("Self", 7))])
    )])));
    assert!(has_self_in_sig(&signature(vec![arg("self", simple("Own", 6))])));
    assert!(has_self_in_sig(&signature(vec![FnArg::Typed {
        pat: Pat::Verbatim { tokens: vec![w("Self", 5), braces(6, vec![w("a", 7)])], span: at(5) },
        ty: simple("Own", 8),
    }])));
    // a module path `self::Own` is not the receiver
    assert!(!has_self_in_sig(&signature(vec![arg(
        "x",
        Type::Path(Path {
            leading_colon: false,
            segments: vec![seg("self", 6, vec![]), seg("Own", 7, vec![])],
        })
    )])));
    // the return type is no parameter
    let mut sig = signature(vec![]);
    sig.output = Some(simple("Self", 9));
    assert!(!has_self_in_sig(&sig));
}

#[test]
fn types_name_self_in_every_part() {
    assert!(simple("Self", 1).mentions_self());
    assert!(!simple("Selfish", 1).mentions_self());
    assert!(Type::Array { elem: Box::new(simple("u8", 1)), len: vec![w("Self", 2)] }.mentions_self());
    assert!(Type::Ptr { mutable: true, elem: Box::new(simple("Self", 1)) }.mentions_self());
    assert!(Type::Paren { elem: Box::new(simple("Self", 1)) }.mentions_self());
    assert!(Type::ImplTrait {
        bounds: vec![TypeParamBound::Trait {
            maybe: true,
            path: Path {
                leading_colon: false,
                segments: vec![seg(
                    "Into",
                    1,
                    vec![GenericArgument::Binding { ident: id("Out", 2), ty: simple("Self", 3) }]
                )],
            },
        }],
    }
    .mentions_self());
    assert!(!Type::TraitObject { bounds: vec![TypeParamBound::Lifetime(lt("Self", 1))] }
        .mentions_self());
    assert!(Type::Verbatim { tokens: vec![w("fn", 1), braces(2, vec![w("Self", 3)])] }
        .mentions_self());
    assert!(!Type::Tuple { elems: vec![] }.mentions_self());
}

#[test]
fn body_names_self_outside_nested_items_only() {
    assert!(!has_self_in_block(&body(vec![])));
    assert!(!has_self_in_block(&body(vec![vec![w("x", 1), p('+', 2), w("y", 3)]])));
    assert!(has_self_in_block(&body(vec![vec![w("x", 1)], vec![w("self", 2)]])));
    assert!(has_self_in_block(&body(vec![vec![w("Self", 2), p(':', 3), p(':', 4), w("N", 5)]])));
    assert!(has_self_in_block(&body(vec![vec![w("if", 1), braces(2, vec![braces(3, vec![w("self", 4)])])]])));
    // `fn inner(self) {}` inside the body has a receiver of its own
    let nested = TokenTree::Item { stream: vec![w("fn", 1), w("inner", 2), w("self", 3)] };
    assert!(!has_self_in_block(&body(vec![vec![nested.clone()]])));
    assert!(!has_self_in_block(&body(vec![vec![braces(5, vec![nested.clone()])]])));
    assert!(has_self_in_block(&body(vec![vec![braces(5, vec![nested, w("self", 9)])]])));
    assert!(tokens_mention_self(&vec![w("a", 1), w("Self", 2)]));
    assert!(!tokens_mention_self(&vec![w("a", 1), w("selfish", 2), p('s', 3)]));
    assert!(!tokens_mention_self(&vec![TokenTree::Literal { text: "self".to_string(), span: at(1) }]));
    // a rewritten body: the values of its bindings and its inner body count
    let boxed = |init: &str, inner: Block| Block::Boxed {
        ret_ty: simple("Self", 1),
        decls: vec![Local {
            pat: Pat::Ident { by_ref: false, mutable: false, ident: id("self", 2) },
            init: id(init, 3),
        }],
        inner: Box::new(inner),
        attrs: vec![Attribute::AllowUnreachableCode],
    };
    assert!(has_self_in_block(&boxed("self", body(vec![]))));
    assert!(!has_self_in_block(&boxed("x", body(vec![]))));
    assert!(has_self_in_block(&boxed("x", body(vec![vec![w("self", 4)]]))));
}

#[test]
fn renaming_keeps_places_and_leaves_everything_else() {
    let nested = || TokenTree::Item { stream: vec![w("fn", 20), w("inner", 21), w("self", 22)] };
    let mut block = body(vec![
        vec![w("let", 1), w("a", 2), p('=', 3), w("self", 4), p('.', 5), w("a", 6), p(';', 7)],
        vec![nested()],
        vec![
            w("Self", 8),
            TokenTree::Punct { ch: ':', joint: true, span: at(9) },
            p(':', 10),
            w("go", 11),
            TokenTree::Group {
                delimiter: Delimiter::Parenthesis,
                span: at(12),
                stream: vec![w("self", 13), p(',', 14), braces(15, vec![w("self", 16), nested()])],
            },
            TokenTree::Literal { text: "\"self\"".to_string(), span: at(17) },
        ],
    ]);
    replace_self_in_block(&mut block, "__");
    assert_eq!(
        block,
        body(vec![
            vec![w("let", 1), w("a", 2), p('=', 3), w("__self", 4), p('.', 5), w("a", 6), p(';', 7)],
            vec![nested()],
            vec![
                w("__self", 8),
                TokenTree::Punct { ch: ':', joint: true, span: at(9) },
                p(':', 10),
                w("go", 11),
                TokenTree::Group {
                    delimiter: Delimiter::Parenthesis,
                    span: at(12),
                    stream: vec![
                        w("__self", 13),
                        p(',', 14),
                        braces(15, vec![w("__self", 16), nested()])
                    ],
                },
                TokenTree::Literal { text: "\"self\"".to_string(), span: at(17) },
            ],
        ])
    );
    let mut tokens = vec![w("self", 1), w("selfie", 2), w("Self", 3)];
    replace_self_in_tokens(&mut tokens, "_my_");
    assert_eq!(tokens, vec![w("_my_self", 1), w("selfie", 2), w("_my_self", 3)]);
    let mut empty = body(vec![]);
    replace_self_in_block(&mut empty, "__");
    assert_eq!(empty, body(vec![]));
}

#[test]
fn copies_are_equal_to_what_they_copy() {
    let tokens = vec![
        w("a", 1),
        braces(2, vec![p('+', 3), TokenTree::Item { stream: vec![w("fn", 4)] }]),
        TokenTree::Literal { text: "1u8".to_string(), span: at(5) },
    ];
    assert_eq!(clone_trees(&tokens), tokens);
    assert_eq!(tokens[1].clone(), tokens[1]);
    let ty = borrow(
        Some(lt("a", 1)),
        true,
        Type::Tuple {
            elems: vec![
                Type::Array { elem: Box::new(simple("u8", 2)), len: vec![w("N", 3)] },
                Type::Ptr { mutable: false, elem: Box::new(Type::Paren { elem: Box::new(simple("T", 4)) }) },
                Type::ImplTrait { bounds: vec![TypeParamBound::Lifetime(lt("b", 5))] },
                Type::TraitObject {
                    bounds: vec![
                        TypeParamBound::Trait {
                            maybe: true,
                            path: Path {
                                leading_colon: true,
                                segments: vec![seg(
                                    "Get",
                                    6,
                                    vec![
                                        GenericArgument::Lifetime(lt("c", 7)),
                                        GenericArgument::Type(simple("T", 8)),
                                        GenericArgument::Binding { ident: id("Out", 9), ty: simple("U", 10) },
                                        GenericArgument::Verbatim { tokens: vec![w("N", 11)] },
                                    ],
                                )],
                            },
                        },
                        TypeParamBound::Verbatim { tokens: vec![w("for", 12)] },
                    ],
                },
                Type::Slice { elem: Box::new(Type::Verbatim { tokens: vec![p('!', 13)] }) },
            ],
        },
    );
    assert_eq!(ty.clone(), ty);
    let pat = Pat::Verbatim { tokens: tokens.clone(), span: at(9) };
    assert_eq!(pat.clone(), pat);
    let pat = Pat::Ident { by_ref: true, mutable: false, ident: id("x", 1) };
    assert_eq!(pat.clone(), pat);
    assert_eq!(id("x", 3).clone(), id("x", 3));
    assert_eq!(lt("x", 3).clone(), lt("x", 3));
}

#[test]
fn numbers_are_written_in_decimal() {
    assert_eq!(numbered_name("life", 0), "life0");
    assert_eq!(numbered_name("life", 7), "life7");
    assert_eq!(numbered_name("impl", 10), "impl10");
    assert_eq!(numbered_name("", 109), "109");
    assert_eq!(numbered_name("__arg", 1234567890), "__arg1234567890");
    assert_eq!(numbered_name("n", usize::MAX), format!("n{}", usize::MAX));
    let mut s = String::from("a");
    append_decimal(&mut s, 90);
    append_decimal(&mut s, 0);
    assert_eq!(s, "a900");
}

#[test]
fn words_are_compared_by_spelling_alone() {
    assert!(id("self", 1).is("self"));
    assert!(id("self", 2).is("self"));
    assert!(!id("Self", 1).is("self"));
    assert!(!id("self_", 1).is("self"));
    assert!(lt("_", 5).is("_"));
    assert!(!lt("a", 5).is("_"));
    assert_eq!(Ident::new("x", at(4)), id("x", 4));
    assert_eq!(Lifetime::new("a", at(4)), lt("a", 4));
    assert_eq!(Span::call_site(), at(0));
}
