//! Positions, identifiers, lifetimes and token trees.

use vstd::prelude::*;
use vstd::string::StringExecFns;

verus! {

/// A place in the source text, named by a number that the caller hands out.
///
/// The number `0` stands for generated code that has no place in the source.
#[derive(Clone, Copy, Debug, PartialEq, Eq, Structural)]
pub struct Span {
    pub id: u32,
}

impl Span {
    /// The position of generated code.
    pub open spec fn spec_call_site() -> Span {
        Span { id: 0 }
    }

    /// The position of generated code.
    #[verifier::when_used_as_spec(spec_call_site)]
    pub fn call_site() -> (s: Span)
        ensures
            s == Span::spec_call_site(),
    {
        Span { id: 0 }
    }
}

/// The views of a sequence of values, item by item.
pub open spec fn seq_view<T: View>(s: Seq<T>) -> Seq<T::V> {
    Seq::new(s.len(), |i: int| s[i]@)
}

/// The views of an empty sequence are an empty sequence.
pub proof fn lemma_seq_view_empty<T: View>(s: Seq<T>)
    requires
        s.len() == 0,
    ensures
        seq_view(s) == Seq::<T::V>::empty(),
{
    assert(seq_view(s) =~= Seq::<T::V>::empty());
}

/// The views of a sequence with one more item.
pub proof fn lemma_seq_view_push<T: View>(s: Seq<T>, x: T)
    ensures
        seq_view(s.push(x)) == seq_view(s).push(x@),
{
    assert(seq_view(s.push(x)) =~= seq_view(s).push(x@));
}

/// The view of an optional value.
pub open spec fn opt_view<T: View>(o: Option<T>) -> Option<T::V> {
    match o {
        Some(t) => Some(t@),
        None => None,
    }
}

/// A word of the source: a name or a keyword.
#[derive(Debug, PartialEq, Eq)]
pub struct Ident {
    pub name: String,
    pub span: Span,
}

/// The view of [`Ident`].
pub struct IdentView {
    pub name: Seq<char>,
    pub span: Span,
}

impl View for Ident {
    type V = IdentView;

    open spec fn view(&self) -> IdentView {
        IdentView { name: self.name@, span: self.span }
    }
}

impl Ident {
    /// A word or lifetime spelled `name` at the place `span`.
    pub fn new(name: &str, span: Span) -> (r: Ident)
        ensures
            r@ == (IdentView { name: name@, span }),
    {
        Ident { name: String::from_str(name), span }
    }

    /// Whether the identifier is spelled `name`, wherever it stands.
    pub fn is(&self, name: &str) -> (b: bool)
        ensures
            b == (self@.name == name@),
    {
        let other = String::from_str(name);
        self.name == other
    }

}

impl Clone for Ident {
    fn clone(&self) -> (r: Ident)
        ensures
            r@ == self@,
    {
        Ident { name: self.name.clone(), span: self.span }
    }
}

/// A lifetime such as `'a`; `name` is the word behind the apostrophe.
#[derive(Debug, PartialEq, Eq)]
pub struct Lifetime {
    pub name: String,
    pub span: Span,
}

/// The view of [`Lifetime`].
pub struct LifetimeView {
    pub name: Seq<char>,
    pub span: Span,
}

impl View for Lifetime {
    type V = LifetimeView;

    open spec fn view(&self) -> LifetimeView {
        LifetimeView { name: self.name@, span: self.span }
    }
}

impl Lifetime {
    /// A word or lifetime spelled `name` at the place `span`.
    pub fn new(name: &str, span: Span) -> (r: Lifetime)
        ensures
            r@ == (LifetimeView { name: name@, span }),
    {
        Lifetime { name: String::from_str(name), span }
    }

    /// Whether the lifetime is spelled `name`, wherever it stands.
    pub fn is(&self, name: &str) -> (b: bool)
        ensures
            b == (self@.name == name@),
    {
        let other = String::from_str(name);
        self.name == other
    }

}

impl Clone for Lifetime {
    fn clone(&self) -> (r: Lifetime)
        ensures
            r@ == self@,
    {
        Lifetime { name: self.name.clone(), span: self.span }
    }
}

/// The brackets around a group of tokens.
#[derive(Clone, Copy, Debug, PartialEq, Eq, Structural)]
pub enum Delimiter {
    Parenthesis,
    Brace,
    Bracket,
    /// No brackets are written; the group only keeps its tokens together.
    Invisible,
}

/// One token, or a bracketed group of tokens.
#[derive(Debug, PartialEq, Eq)]
pub enum TokenTree {
    Ident(Ident),
    /// A punctuation character; `joint` says that the next token follows
    /// without a space, as in `::`.
    Punct { ch: char, joint: bool, span: Span },
    Literal { text: String, span: Span },
    Group { delimiter: Delimiter, span: Span, stream: Vec<TokenTree> },
    /// The tokens of an item defined inside a body (`fn`, `impl`, ...). Such
    /// an item has a receiver and a `Self` of its own.
    Item { stream: Vec<TokenTree> },
}

/// The view of [`TokenTree`].
pub enum TokenTreeView {
    Ident(IdentView),
    Punct { ch: char, joint: bool, span: Span },
    Literal { text: Seq<char>, span: Span },
    Group { delimiter: Delimiter, span: Span, stream: Seq<TokenTreeView> },
    Item { stream: Seq<TokenTreeView> },
}

/// The view of a token tree.
pub open spec fn tree_view(t: TokenTree) -> TokenTreeView
    decreases t,
{
    match t {
        TokenTree::Ident(id) => TokenTreeView::Ident(id@),
        TokenTree::Punct { ch, joint, span } => TokenTreeView::Punct { ch, joint, span },
        TokenTree::Literal { text, span } => TokenTreeView::Literal { text: text@, span },
        TokenTree::Group { delimiter, span, stream } => TokenTreeView::Group {
            delimiter,
            span,
            stream: trees_view(stream@),
        },
        TokenTree::Item { stream } => TokenTreeView::Item { stream: trees_view(stream@) },
    }
}

/// The views of token trees, in their order.
pub open spec fn trees_view(ts: Seq<TokenTree>) -> Seq<TokenTreeView>
    decreases ts,
{
    Seq::new(
        ts.len(),
        |i: int|
            if 0 <= i < ts.len() {
                tree_view(ts[i])
            } else {
                arbitrary()
            },
    )
}

impl View for TokenTree {
    type V = TokenTreeView;

    open spec fn view(&self) -> TokenTreeView {
        tree_view(*self)
    }
}

/// Whether `name` is the receiver `self` or the type `Self`.
pub open spec fn is_self_word(name: Seq<char>) -> bool {
    name == "self"@ || name == "Self"@
}

/// Whether a token tree names the receiver or `Self` outside the items
/// nested in it.
pub open spec fn tree_mentions_self(t: TokenTreeView) -> bool
    decreases t,
{
    match t {
        TokenTreeView::Ident(id) => is_self_word(id.name),
        TokenTreeView::Group { stream, .. } => trees_mention_self(stream),
        _ => false,
    }
}

/// Whether one of the token trees names the receiver or `Self` outside nested items.
pub open spec fn trees_mention_self(ts: Seq<TokenTreeView>) -> bool
    decreases ts,
{
    exists|i: int| 0 <= i < ts.len() && tree_mentions_self(#[trigger] ts[i])
}

/// The token tree with every `self` and `Self` outside nested items
/// replaced by the word `prefix` + `self`, each at the place of the word it
/// replaces.
pub open spec fn tree_without_self(t: TokenTreeView, prefix: Seq<char>) -> TokenTreeView
    decreases t,
{
    match t {
        TokenTreeView::Ident(id) => if is_self_word(id.name) {
            TokenTreeView::Ident(IdentView { name: prefix + "self"@, span: id.span })
        } else {
            t
        },
        TokenTreeView::Group { delimiter, span, stream } => TokenTreeView::Group {
            delimiter,
            span,
            stream: trees_without_self(stream, prefix),
        },
        _ => t,
    }
}

/// The token trees with the receiver renamed, in their order.
pub open spec fn trees_without_self(ts: Seq<TokenTreeView>, prefix: Seq<char>) -> Seq<
    TokenTreeView,
>
    decreases ts,
{
    Seq::new(
        ts.len(),
        |i: int|
            if 0 <= i < ts.len() {
                tree_without_self(ts[i], prefix)
            } else {
                arbitrary()
            },
    )
}

impl Clone for TokenTree {
    fn clone(&self) -> (r: TokenTree)
        ensures
            r@ == self@,
        decreases self,
    {
        match self {
            TokenTree::Ident(id) => TokenTree::Ident(id.clone()),
            TokenTree::Punct { ch, joint, span } => TokenTree::Punct {
                ch: *ch,
                joint: *joint,
                span: *span,
            },
            TokenTree::Literal { text, span } => TokenTree::Literal {
                text: text.clone(),
                span: *span,
            },
            TokenTree::Group { delimiter, span, stream } => TokenTree::Group {
                delimiter: *delimiter,
                span: *span,
                stream: clone_trees(stream),
            },
            TokenTree::Item { stream } => TokenTree::Item { stream: clone_trees(stream) },
        }
    }
}

impl TokenTree {
    /// Whether the tree names the receiver or `Self` outside nested items.
    pub fn mentions_self(&self) -> (b: bool)
        ensures
            b == tree_mentions_self(self@),
        decreases self,
    {
        match self {
            TokenTree::Ident(id) => id.is("self") || id.is("Self"),
            TokenTree::Group { stream, .. } => tokens_mention_self(stream),
            _ => false,
        }
    }
}

/// A copy of the token trees.
pub fn clone_trees(ts: &Vec<TokenTree>) -> (r: Vec<TokenTree>)
    ensures
        trees_view(r@) == trees_view(ts@),
    decreases ts,
{
    let mut out: Vec<TokenTree> = Vec::new();
    let mut i: usize = 0;
    while i < ts.len()
        invariant
            i <= ts.len(),
            out@.len() == i,
            forall|j: int| 0 <= j < i ==> tree_view(#[trigger] out@[j]) == tree_view(ts@[j]),
        decreases ts.len() - i,
    {
        assert(decreases_to!(ts@ => ts@[i as int]));
        out.push(ts[i].clone());
        i = i + 1;
    }
    assert(trees_view(out@) =~= trees_view(ts@));
    out
}

/// Whether the tokens name the receiver or `Self` outside nested items.
pub fn tokens_mention_self(ts: &Vec<TokenTree>) -> (b: bool)
    ensures
        b == trees_mention_self(trees_view(ts@)),
    decreases ts,
{
    let mut i: usize = 0;
    while i < ts.len()
        invariant
            i <= ts.len(),
            forall|j: int| 0 <= j < i ==> !tree_mentions_self(#[trigger] trees_view(ts@)[j]),
        decreases ts.len() - i,
    {
        assert(decreases_to!(ts@ => ts@[i as int]));
        if ts[i].mentions_self() {
            assert(tree_mentions_self(trees_view(ts@)[i as int]));
            return true;
        }
        i = i + 1;
    }
    false
}

/// Replaces every `self` and `Self` outside nested items by the word
/// `prefix` + `self`; each new word stands where the old one stood.
pub fn replace_self_in_tokens(ts: &mut Vec<TokenTree>, prefix: &str)
    ensures
        trees_view(final(ts)@) == trees_without_self(trees_view(old(ts)@), prefix@),
    decreases *old(ts),
{
    let mut i: usize = 0;
    let n: usize = ts.len();
    while i < n
        invariant
            i <= n,
            n == ts@.len(),
            n == old(ts)@.len(),
            forall|j: int| i <= j < n ==> ts@[j] == old(ts)@[j],
            forall|j: int|
                0 <= j < i ==> tree_view(#[trigger] ts@[j]) == tree_without_self(
                    tree_view(old(ts)@[j]),
                    prefix@,
                ),
        decreases n - i,
    {
        assert(decreases_to!(old(ts)@ => old(ts)@[i as int]));
        replace_self_in_tree(&mut ts[i], prefix);
        i = i + 1;
    }
    assert(trees_view(ts@) =~= trees_without_self(trees_view(old(ts)@), prefix@));
}

/// Replaces every `self` and `Self` of a token tree outside nested items by the
/// word `prefix` + `self`, in place.
pub fn replace_self_in_tree(t: &mut TokenTree, prefix: &str)
    ensures
        final(t)@ == tree_without_self(old(t)@, prefix@),
    decreases *old(t),
{
    match t {
        TokenTree::Ident(id) => {
            if id.is("self") || id.is("Self") {
                let mut name = String::from_str(prefix);
                name.append("self");
                id.name = name;
            }
        },
        TokenTree::Group { stream, .. } => {
            replace_self_in_tokens(stream, prefix);
        },
        _ => {},
    }
}

} // verus!
