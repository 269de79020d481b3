//! Traits and impls with their methods and bodies.

use crate::sig::Generics;
use crate::sig::GenericsView;
use crate::sig::Pat;
use crate::sig::PatView;
use crate::sig::Signature;
use crate::sig::SignatureView;
use crate::token::opt_view;
use crate::token::seq_view;
use crate::token::trees_view;
use crate::token::Ident;
use crate::token::IdentView;
use crate::token::TokenTree;
use crate::token::TokenTreeView;
use crate::ty::bounds_view;
use crate::ty::Path;
use crate::ty::PathView;
use crate::ty::Type;
use crate::ty::TypeParamBound;
use crate::ty::TypeParamBoundView;
use crate::ty::TypeView;
use vstd::prelude::*;

verus! {

/// One statement of a body, as its tokens. A statement that defines an
/// item is a single `TokenTree::Item`.
#[derive(Debug, PartialEq, Eq)]
pub struct Stmt {
    pub tokens: Vec<TokenTree>,
}

/// The view of [`Stmt`].
pub struct StmtView {
    pub tokens: Seq<TokenTreeView>,
}

impl View for Stmt {
    type V = StmtView;

    open spec fn view(&self) -> StmtView {
        StmtView { tokens: trees_view(self.tokens@) }
    }
}

/// The binding `let pat = init;`.
#[derive(Debug, PartialEq, Eq)]
pub struct Local {
    pub pat: Pat,
    pub init: Ident,
}

/// The view of [`Local`].
pub struct LocalView {
    pub pat: PatView,
    pub init: IdentView,
}

impl View for Local {
    type V = LocalView;

    open spec fn view(&self) -> LocalView {
        LocalView { pat: self.pat@, init: self.init@ }
    }
}

/// The body of a method.
#[derive(Debug, PartialEq, Eq)]
pub enum Block {
    /// `{ stmts }`, as it was written.
    Plain { stmts: Vec<Stmt> },
    /// A body that hands back a future:
    ///
    /// ```text
    /// Box::pin(async move {
    ///     let __ret: ret_ty = {
    ///         decls
    ///         let __async_trait: ();
    ///         inner
    ///     };
    ///     #[attrs]
    ///     __ret
    /// })
    /// ```
    ///
    /// where `inner` stands for the statements of the inner body and `attrs`
    /// for the attributes on the value that the future gives.
    Boxed { ret_ty: Type, decls: Vec<Local>, inner: Box<Block>, attrs: Vec<Attribute> },
}

/// The view of [`Block`].
pub enum BlockView {
    Plain { stmts: Seq<StmtView> },
    Boxed {
        ret_ty: TypeView,
        decls: Seq<LocalView>,
        inner: Box<BlockView>,
        attrs: Seq<AttributeView>,
    },
}

/// The view of a body.
pub open spec fn block_view(b: Block) -> BlockView
    decreases b,
{
    match b {
        Block::Plain { stmts } => BlockView::Plain { stmts: seq_view(stmts@) },
        Block::Boxed { ret_ty, decls, inner, attrs } => BlockView::Boxed {
            ret_ty: ret_ty@,
            decls: seq_view(decls@),
            inner: Box::new(block_view(*inner)),
            attrs: seq_view(attrs@),
        },
    }
}

impl View for Block {
    type V = BlockView;

    open spec fn view(&self) -> BlockView {
        block_view(*self)
    }
}

/// An attribute of a method, or of the value that a future gives.
#[derive(Debug, PartialEq, Eq)]
pub enum Attribute {
    /// `#[allow(clippy::used_underscore_binding)]`
    AllowUsedUnderscoreBinding,
    /// `#[allow(unreachable_code)]`
    AllowUnreachableCode,
    /// `#[must_use]`
    MustUse,
    /// Any other attribute, kept as it was written.
    Verbatim { tokens: Vec<TokenTree> },
}

/// The view of [`Attribute`].
pub enum AttributeView {
    AllowUsedUnderscoreBinding,
    AllowUnreachableCode,
    MustUse,
    Verbatim { tokens: Seq<TokenTreeView> },
}

impl View for Attribute {
    type V = AttributeView;

    open spec fn view(&self) -> AttributeView {
        match *self {
            Attribute::AllowUsedUnderscoreBinding => AttributeView::AllowUsedUnderscoreBinding,
            Attribute::AllowUnreachableCode => AttributeView::AllowUnreachableCode,
            Attribute::MustUse => AttributeView::MustUse,
            Attribute::Verbatim { tokens } => AttributeView::Verbatim {
                tokens: trees_view(tokens@),
            },
        }
    }
}

/// A method of a trait, with its default body if it has one.
#[derive(Debug, PartialEq, Eq)]
pub struct TraitItemMethod {
    pub attrs: Vec<Attribute>,
    pub sig: Signature,
    pub default: Option<Block>,
}

/// The view of [`TraitItemMethod`].
pub struct TraitItemMethodView {
    pub attrs: Seq<AttributeView>,
    pub sig: SignatureView,
    pub default: Option<BlockView>,
}

impl View for TraitItemMethod {
    type V = TraitItemMethodView;

    open spec fn view(&self) -> TraitItemMethodView {
        TraitItemMethodView {
            attrs: seq_view(self.attrs@),
            sig: self.sig@,
            default: opt_view(self.default),
        }
    }
}

/// One item of a trait.
#[derive(Debug, PartialEq, Eq)]
pub enum TraitItem {
    Method(TraitItemMethod),
    /// A constant, a type or a macro, kept as it was written.
    Verbatim { tokens: Vec<TokenTree> },
}

/// The view of [`TraitItem`].
pub enum TraitItemView {
    Method(TraitItemMethodView),
    Verbatim { tokens: Seq<TokenTreeView> },
}

impl View for TraitItem {
    type V = TraitItemView;

    open spec fn view(&self) -> TraitItemView {
        match *self {
            TraitItem::Method(m) => TraitItemView::Method(m@),
            TraitItem::Verbatim { tokens } => TraitItemView::Verbatim {
                tokens: trees_view(tokens@),
            },
        }
    }
}

/// A method of an impl.
#[derive(Debug, PartialEq, Eq)]
pub struct ImplItemMethod {
    pub attrs: Vec<Attribute>,
    pub sig: Signature,
    pub block: Block,
}

/// The view of [`ImplItemMethod`].
pub struct ImplItemMethodView {
    pub attrs: Seq<AttributeView>,
    pub sig: SignatureView,
    pub block: BlockView,
}

impl View for ImplItemMethod {
    type V = ImplItemMethodView;

    open spec fn view(&self) -> ImplItemMethodView {
        ImplItemMethodView { attrs: seq_view(self.attrs@), sig: self.sig@, block: self.block@ }
    }
}

/// One item of an impl.
#[derive(Debug, PartialEq, Eq)]
pub enum ImplItem {
    Method(ImplItemMethod),
    /// A constant, a type or a macro, kept as it was written.
    Verbatim { tokens: Vec<TokenTree> },
}

/// The view of [`ImplItem`].
pub enum ImplItemView {
    Method(ImplItemMethodView),
    Verbatim { tokens: Seq<TokenTreeView> },
}

impl View for ImplItem {
    type V = ImplItemView;

    open spec fn view(&self) -> ImplItemView {
        match *self {
            ImplItem::Method(m) => ImplItemView::Method(m@),
            ImplItem::Verbatim { tokens } => ImplItemView::Verbatim { tokens: trees_view(tokens@) },
        }
    }
}

/// `trait Name<generics>: supertraits { items }`
#[derive(Debug, PartialEq, Eq)]
pub struct ItemTrait {
    pub ident: Ident,
    pub generics: Generics,
    pub supertraits: Vec<TypeParamBound>,
    pub items: Vec<TraitItem>,
}

/// The view of [`ItemTrait`].
pub struct ItemTraitView {
    pub ident: IdentView,
    pub generics: GenericsView,
    pub supertraits: Seq<TypeParamBoundView>,
    pub items: Seq<TraitItemView>,
}

impl View for ItemTrait {
    type V = ItemTraitView;

    open spec fn view(&self) -> ItemTraitView {
        ItemTraitView {
            ident: self.ident@,
            generics: self.generics@,
            supertraits: bounds_view(self.supertraits@),
            items: seq_view(self.items@),
        }
    }
}

/// `impl<generics> trait_ for self_ty { items }`
#[derive(Debug, PartialEq, Eq)]
pub struct ItemImpl {
    pub generics: Generics,
    /// The trait that is implemented. An impl without one has no place here:
    /// it is the caller's part to turn it away.
    pub trait_: Option<Path>,
    pub self_ty: Type,
    pub items: Vec<ImplItem>,
}

/// The view of [`ItemImpl`].
pub struct ItemImplView {
    pub generics: GenericsView,
    pub trait_: Option<PathView>,
    pub self_ty: TypeView,
    pub items: Seq<ImplItemView>,
}

impl View for ItemImpl {
    type V = ItemImplView;

    open spec fn view(&self) -> ItemImplView {
        ItemImplView {
            generics: self.generics@,
            trait_: opt_view(self.trait_),
            self_ty: self.self_ty@,
            items: seq_view(self.items@),
        }
    }
}

/// What the rewriting works on: a trait or an impl of a trait.
#[derive(Debug, PartialEq, Eq)]
pub enum Item {
    Trait(ItemTrait),
    Impl(ItemImpl),
}

/// The view of [`Item`].
pub enum ItemView {
    Trait(ItemTraitView),
    Impl(ItemImplView),
}

impl View for Item {
    type V = ItemView;

    open spec fn view(&self) -> ItemView {
        match *self {
            Item::Trait(t) => ItemView::Trait(t@),
            Item::Impl(i) => ItemView::Impl(i@),
        }
    }
}

} // verus!
