//! Finding and renaming the receiver and `Self` in signatures and bodies.

use crate::item::Block;
use crate::item::BlockView;
use crate::item::Local;
use crate::item::LocalView;
use crate::item::Stmt;
use crate::item::StmtView;
use crate::sig::FnArg;
use crate::sig::FnArgView;
use crate::sig::Pat;
use crate::sig::PatView;
use crate::sig::Signature;
use crate::sig::SignatureView;
use crate::token::is_self_word;
use crate::token::replace_self_in_tokens;
use crate::token::seq_view;
use crate::token::tokens_mention_self;
use crate::token::trees_mention_self;
use crate::token::trees_without_self;
use crate::token::IdentView;
use crate::ty::type_mentions_self;
use vstd::prelude::*;
use vstd::string::StringExecFns;

verus! {

/// Whether a pattern names the receiver or `Self`.
pub open spec fn pat_mentions_self(p: PatView) -> bool {
    match p {
        PatView::Ident { ident, .. } => is_self_word(ident.name),
        PatView::Verbatim { tokens, .. } => trees_mention_self(tokens),
    }
}

/// Whether a parameter is the receiver, or names the receiver or `Self` in
/// its pattern or its type.
pub open spec fn arg_mentions_self(a: FnArgView) -> bool {
    match a {
        FnArgView::Receiver(_) => true,
        FnArgView::Typed { pat, ty } => pat_mentions_self(pat) || type_mentions_self(ty),
    }
}

/// Whether the parameters of a signature name the receiver or `Self`.
pub open spec fn sig_mentions_self(sig: SignatureView) -> bool {
    exists|i: int| 0 <= i < sig.inputs.len() && arg_mentions_self(#[trigger] sig.inputs[i])
}

/// Whether one of the statements names the receiver or `Self` outside
/// nested items.
pub open spec fn stmts_mention_self(stmts: Seq<StmtView>) -> bool {
    exists|i: int| 0 <= i < stmts.len() && trees_mention_self((#[trigger] stmts[i]).tokens)
}

/// Whether one of the bindings takes its value from the receiver or `Self`.
pub open spec fn decls_mention_self(decls: Seq<LocalView>) -> bool {
    exists|i: int| 0 <= i < decls.len() && is_self_word((#[trigger] decls[i]).init.name)
}

/// Whether a body names the receiver or `Self` outside nested items. In a
/// body that hands back a future, the values of the bindings and the inner
/// body count.
pub open spec fn block_mentions_self(b: BlockView) -> bool
    decreases b,
{
    match b {
        BlockView::Plain { stmts } => stmts_mention_self(stmts),
        BlockView::Boxed { decls, inner, .. } => decls_mention_self(decls) || block_mentions_self(
            *inner,
        ),
    }
}

/// The word that takes the place of `self` and `Self`.
pub open spec fn renamed_self(word: IdentView, prefix: Seq<char>) -> IdentView {
    if is_self_word(word.name) {
        IdentView { name: prefix + "self"@, span: word.span }
    } else {
        word
    }
}

/// A statement with the receiver renamed.
pub open spec fn stmt_without_self(s: StmtView, prefix: Seq<char>) -> StmtView {
    StmtView { tokens: trees_without_self(s.tokens, prefix) }
}

/// The statements with the receiver renamed, in their order.
pub open spec fn stmts_without_self(stmts: Seq<StmtView>, prefix: Seq<char>) -> Seq<StmtView> {
    Seq::new(stmts.len(), |i: int| stmt_without_self(stmts[i], prefix))
}

/// A binding with the receiver renamed in its value.
pub open spec fn decl_without_self(d: LocalView, prefix: Seq<char>) -> LocalView {
    LocalView { pat: d.pat, init: renamed_self(d.init, prefix) }
}

/// The bindings with the receiver renamed in their values, in their order.
pub open spec fn decls_without_self(decls: Seq<LocalView>, prefix: Seq<char>) -> Seq<LocalView> {
    Seq::new(decls.len(), |i: int| decl_without_self(decls[i], prefix))
}

/// The body with every `self` and `Self` outside nested items replaced by
/// the word `prefix` + `self`. Each new word stands at the place of the word
/// it replaces; all other tokens stay as they are and where they are.
pub open spec fn block_without_self(b: BlockView, prefix: Seq<char>) -> BlockView
    decreases b,
{
    match b {
        BlockView::Plain { stmts } => BlockView::Plain { stmts: stmts_without_self(stmts, prefix) },
        BlockView::Boxed { ret_ty, decls, inner, attrs } => BlockView::Boxed {
            ret_ty,
            decls: decls_without_self(decls, prefix),
            inner: Box::new(block_without_self(*inner, prefix)),
            attrs,
        },
    }
}

fn pat_has_self(p: &Pat) -> (b: bool)
    ensures
        b == pat_mentions_self(p@),
{
    match p {
        Pat::Ident { ident, .. } => ident.is("self") || ident.is("Self"),
        Pat::Verbatim { tokens, .. } => tokens_mention_self(tokens),
    }
}

fn arg_has_self(a: &FnArg) -> (b: bool)
    ensures
        b == arg_mentions_self(a@),
{
    match a {
        FnArg::Receiver(_) => true,
        FnArg::Typed { pat, ty } => pat_has_self(pat) || ty.mentions_self(),
    }
}

/// Whether the parameters of a signature name the receiver or `Self`.
pub fn has_self_in_sig(sig: &Signature) -> (b: bool)
    ensures
        b == sig_mentions_self(sig@),
{
    let mut i: usize = 0;
    while i < sig.inputs.len()
        invariant
            i <= sig.inputs.len(),
            forall|j: int| 0 <= j < i ==> !arg_mentions_self(#[trigger] sig@.inputs[j]),
        decreases sig.inputs.len() - i,
    {
        if arg_has_self(&sig.inputs[i]) {
            assert(arg_mentions_self(sig@.inputs[i as int]));
            return true;
        }
        i = i + 1;
    }
    false
}

fn stmts_have_self(stmts: &Vec<Stmt>) -> (b: bool)
    ensures
        b == stmts_mention_self(seq_view(stmts@)),
{
    let mut i: usize = 0;
    while i < stmts.len()
        invariant
            i <= stmts.len(),
            forall|j: int|
                0 <= j < i ==> !trees_mention_self((#[trigger] seq_view(stmts@)[j]).tokens),
        decreases stmts.len() - i,
    {
        if tokens_mention_self(&stmts[i].tokens) {
            assert(trees_mention_self(seq_view(stmts@)[i as int].tokens));
            return true;
        }
        i = i + 1;
    }
    false
}

fn decls_have_self(decls: &Vec<Local>) -> (b: bool)
    ensures
        b == decls_mention_self(seq_view(decls@)),
{
    let mut i: usize = 0;
    while i < decls.len()
        invariant
            i <= decls.len(),
            forall|j: int| 0 <= j < i ==> !is_self_word((#[trigger] seq_view(decls@)[j]).init.name),
        decreases decls.len() - i,
    {
        if decls[i].init.is("self") || decls[i].init.is("Self") {
            assert(is_self_word(seq_view(decls@)[i as int].init.name));
            return true;
        }
        i = i + 1;
    }
    false
}

/// Whether a body names the receiver or `Self` outside nested items.
pub fn has_self_in_block(block: &Block) -> (b: bool)
    ensures
        b == block_mentions_self(block@),
    decreases block,
{
    match block {
        Block::Plain { stmts } => stmts_have_self(stmts),
        Block::Boxed { decls, inner, .. } => decls_have_self(decls) || has_self_in_block(inner),
    }
}

fn replace_self_in_stmts(stmts: &mut Vec<Stmt>, prefix: &str)
    ensures
        seq_view(final(stmts)@) == stmts_without_self(seq_view(old(stmts)@), prefix@),
{
    let mut i: usize = 0;
    let n: usize = stmts.len();
    while i < n
        invariant
            i <= n,
            n == stmts@.len(),
            n == old(stmts)@.len(),
            forall|j: int| i <= j < n ==> stmts@[j] == old(stmts)@[j],
            forall|j: int|
                0 <= j < i ==> (#[trigger] stmts@[j])@ == stmt_without_self(
                    old(stmts)@[j]@,
                    prefix@,
                ),
        decreases n - i,
    {
        replace_self_in_tokens(&mut stmts[i].tokens, prefix);
        i = i + 1;
    }
    assert(seq_view(stmts@) =~= stmts_without_self(seq_view(old(stmts)@), prefix@));
}

fn replace_self_in_decls(decls: &mut Vec<Local>, prefix: &str)
    ensures
        seq_view(final(decls)@) == decls_without_self(seq_view(old(decls)@), prefix@),
{
    let mut i: usize = 0;
    let n: usize = decls.len();
    while i < n
        invariant
            i <= n,
            n == decls@.len(),
            n == old(decls)@.len(),
            forall|j: int| i <= j < n ==> decls@[j] == old(decls)@[j],
            forall|j: int|
                0 <= j < i ==> (#[trigger] decls@[j])@ == decl_without_self(
                    old(decls)@[j]@,
                    prefix@,
                ),
        decreases n - i,
    {
        if decls[i].init.is("self") || decls[i].init.is("Self") {
            let mut name = String::from_str(prefix);
            name.append("self");
            decls[i].init.name = name;
        }
        i = i + 1;
    }
    assert(seq_view(decls@) =~= decls_without_self(seq_view(old(decls)@), prefix@));
}

/// Replaces every `self` and `Self` of a body outside nested items by the
/// word `prefix` + `self`, in place.
pub fn replace_self_in_block(block: &mut Block, prefix: &str)
    ensures
        final(block)@ == block_without_self(old(block)@, prefix@),
    decreases *old(block),
{
    match block {
        Block::Plain { stmts } => {
            replace_self_in_stmts(stmts, prefix);
        },
        Block::Boxed { decls, inner, .. } => {
            replace_self_in_decls(decls, prefix);
            replace_self_in_block(inner, prefix);
        },
    }
}

} // verus!
