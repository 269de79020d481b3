//! Method signatures: parameters, generics and `where` clauses.

use crate::token::clone_trees;
use crate::token::opt_view;
use crate::token::seq_view;
use crate::token::trees_view;
use crate::token::Ident;
use crate::token::IdentView;
use crate::token::Lifetime;
use crate::token::LifetimeView;
use crate::token::Span;
use crate::token::TokenTree;
use crate::token::TokenTreeView;
use crate::ty::bounds_view;
use crate::ty::Type;
use crate::ty::TypeParamBound;
use crate::ty::TypeParamBoundView;
use crate::ty::TypeView;
use vstd::prelude::*;

verus! {

/// The pattern of a parameter.
#[derive(Debug, PartialEq, Eq)]
pub enum Pat {
    /// A plain binding: `name`, `mut name`, `ref name`.
    Ident { by_ref: bool, mutable: bool, ident: Ident },
    /// A pattern that takes its value apart, such as `(a, b)`, kept as it
    /// was written; `span` is the place where it stands.
    Verbatim { tokens: Vec<TokenTree>, span: Span },
}

/// The view of [`Pat`].
pub enum PatView {
    Ident { by_ref: bool, mutable: bool, ident: IdentView },
    Verbatim { tokens: Seq<TokenTreeView>, span: Span },
}

impl View for Pat {
    type V = PatView;

    open spec fn view(&self) -> PatView {
        match *self {
            Pat::Ident { by_ref, mutable, ident } => PatView::Ident {
                by_ref,
                mutable,
                ident: ident@,
            },
            Pat::Verbatim { tokens, span } => PatView::Verbatim {
                tokens: trees_view(tokens@),
                span,
            },
        }
    }
}

impl Clone for Pat {
    fn clone(&self) -> (r: Pat)
        ensures
            r@ == self@,
    {
        match self {
            Pat::Ident { by_ref, mutable, ident } => Pat::Ident {
                by_ref: *by_ref,
                mutable: *mutable,
                ident: ident.clone(),
            },
            Pat::Verbatim { tokens, span } => Pat::Verbatim {
                tokens: clone_trees(tokens),
                span: *span,
            },
        }
    }
}

/// The receiver of a method: `self`, `mut self`, `&self`, `&'a mut self`.
#[derive(Debug, PartialEq, Eq)]
pub struct Receiver {
    /// `None` for a receiver taken by value; else the lifetime written
    /// behind the `&`, if any.
    pub reference: Option<Option<Lifetime>>,
    pub mutable: bool,
    /// The place of the word `self`.
    pub self_span: Span,
}

/// The view of [`Receiver`].
pub struct ReceiverView {
    pub reference: Option<Option<LifetimeView>>,
    pub mutable: bool,
    pub self_span: Span,
}

impl View for Receiver {
    type V = ReceiverView;

    open spec fn view(&self) -> ReceiverView {
        ReceiverView {
            reference: match self.reference {
                Some(l) => Some(opt_view(l)),
                None => None,
            },
            mutable: self.mutable,
            self_span: self.self_span,
        }
    }
}

/// One parameter of a method.
#[derive(Debug, PartialEq, Eq)]
pub enum FnArg {
    Receiver(Receiver),
    /// `pat: ty`
    Typed { pat: Pat, ty: Type },
}

/// The view of [`FnArg`].
pub enum FnArgView {
    Receiver(ReceiverView),
    Typed { pat: PatView, ty: TypeView },
}

impl View for FnArg {
    type V = FnArgView;

    open spec fn view(&self) -> FnArgView {
        match *self {
            FnArg::Receiver(r) => FnArgView::Receiver(r@),
            FnArg::Typed { pat, ty } => FnArgView::Typed { pat: pat@, ty: ty@ },
        }
    }
}

/// One parameter in angle brackets behind the name of a method, trait or
/// impl.
#[derive(Debug, PartialEq, Eq)]
#[allow(inconsistent_fields)]
pub enum GenericParam {
    /// `T: A + B = D`
    Type { ident: Ident, bounds: Vec<TypeParamBound>, default: Option<Type> },
    /// `'a: 'b + 'c`
    Lifetime { lifetime: Lifetime, bounds: Vec<Lifetime> },
    /// `const N: usize`, kept as it was written.
    Const { tokens: Vec<TokenTree> },
}

/// The view of [`GenericParam`].
#[allow(inconsistent_fields)]
pub enum GenericParamView {
    Type { ident: IdentView, bounds: Seq<TypeParamBoundView>, default: Option<TypeView> },
    Lifetime { lifetime: LifetimeView, bounds: Seq<LifetimeView> },
    Const { tokens: Seq<TokenTreeView> },
}

impl View for GenericParam {
    type V = GenericParamView;

    open spec fn view(&self) -> GenericParamView {
        match *self {
            GenericParam::Type { ident, bounds, default } => GenericParamView::Type {
                ident: ident@,
                bounds: bounds_view(bounds@),
                default: opt_view(default),
            },
            GenericParam::Lifetime { lifetime, bounds } => GenericParamView::Lifetime {
                lifetime: lifetime@,
                bounds: seq_view(bounds@),
            },
            GenericParam::Const { tokens } => GenericParamView::Const {
                tokens: trees_view(tokens@),
            },
        }
    }
}

/// One predicate of a `where` clause.
#[derive(Debug, PartialEq, Eq)]
#[allow(inconsistent_fields)]
pub enum WherePredicate {
    /// `T: A + 'a`
    Type { bounded_ty: Type, bounds: Vec<TypeParamBound> },
    /// `'a: 'b + 'c`
    Lifetime { lifetime: Lifetime, bounds: Vec<Lifetime> },
    /// A predicate of another shape, kept as it was written.
    Verbatim { tokens: Vec<TokenTree> },
}

/// The view of [`WherePredicate`].
#[allow(inconsistent_fields)]
pub enum WherePredicateView {
    Type { bounded_ty: TypeView, bounds: Seq<TypeParamBoundView> },
    Lifetime { lifetime: LifetimeView, bounds: Seq<LifetimeView> },
    Verbatim { tokens: Seq<TokenTreeView> },
}

impl View for WherePredicate {
    type V = WherePredicateView;

    open spec fn view(&self) -> WherePredicateView {
        match *self {
            WherePredicate::Type { bounded_ty, bounds } => WherePredicateView::Type {
                bounded_ty: bounded_ty@,
                bounds: bounds_view(bounds@),
            },
            WherePredicate::Lifetime { lifetime, bounds } => WherePredicateView::Lifetime {
                lifetime: lifetime@,
                bounds: seq_view(bounds@),
            },
            WherePredicate::Verbatim { tokens } => WherePredicateView::Verbatim {
                tokens: trees_view(tokens@),
            },
        }
    }
}

/// The generic parameters of an item and its `where` clause, if it has one.
#[derive(Debug, PartialEq, Eq)]
pub struct Generics {
    pub params: Vec<GenericParam>,
    pub where_clause: Option<Vec<WherePredicate>>,
}

/// The view of [`Generics`].
pub struct GenericsView {
    pub params: Seq<GenericParamView>,
    pub where_clause: Option<Seq<WherePredicateView>>,
}

impl View for Generics {
    type V = GenericsView;

    open spec fn view(&self) -> GenericsView {
        GenericsView {
            params: seq_view(self.params@),
            where_clause: match self.where_clause {
                Some(ps) => Some(seq_view(ps@)),
                None => None,
            },
        }
    }
}

/// The signature of a method.
#[derive(Debug, PartialEq, Eq)]
pub struct Signature {
    /// The place of the word `async`, if the method has it.
    pub asyncness: Option<Span>,
    /// The place of the word `fn`.
    pub fn_span: Span,
    pub ident: Ident,
    pub generics: Generics,
    pub inputs: Vec<FnArg>,
    /// The type behind `->`; `None` where nothing is written.
    pub output: Option<Type>,
}

/// The view of [`Signature`].
pub struct SignatureView {
    pub asyncness: Option<Span>,
    pub fn_span: Span,
    pub ident: IdentView,
    pub generics: GenericsView,
    pub inputs: Seq<FnArgView>,
    pub output: Option<TypeView>,
}

impl View for Signature {
    type V = SignatureView;

    open spec fn view(&self) -> SignatureView {
        SignatureView {
            asyncness: self.asyncness,
            fn_span: self.fn_span,
            ident: self.ident@,
            generics: self.generics@,
            inputs: seq_view(self.inputs@),
            output: opt_view(self.output),
        }
    }
}

} // verus!
