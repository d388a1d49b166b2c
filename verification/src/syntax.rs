//! The part of a source file's syntax that target discovery looks at:
//! function signatures, the types of their parameters, and how function
//! declarations nest.

use vstd::prelude::*;

verus! {

/// A type as it is written in a signature. Only the shapes that the
/// classifier tells apart are kept; every other kind of type is `Other`.
#[derive(Debug, PartialEq, Eq)]
pub enum TypeExpr {
    /// `&T` or `&mut T`, with or without a lifetime.
    Reference(Box<TypeExpr>),
    /// `[T]`.
    Slice(Box<TypeExpr>),
    /// A named type such as `u8`, `Vec<u8>` or `std::string::String`.
    Path(TypePath),
    /// Anything else: tuples, arrays, pointers, function types, ...
    Other,
}

/// The path of a named type.
#[derive(Debug, PartialEq, Eq)]
pub struct TypePath {
    /// Whether the path is qualified by a type of its own, as in
    /// `<T>::Name` or `<T as Trait>::Name`.
    pub qualified: bool,
    /// Whether the path starts with `::`.
    pub leading_colon: bool,
    /// The segments between the `::` separators, in order.
    pub segments: Vec<Segment>,
}

/// One segment of a path: an identifier and what is written after it.
#[derive(Debug, PartialEq, Eq)]
pub struct Segment {
    pub ident: String,
    pub arguments: PathArguments,
}

/// The arguments written after a path segment's identifier.
#[derive(Debug, PartialEq, Eq)]
pub enum PathArguments {
    /// No arguments, as in `String`.
    Absent,
    /// `<A, B, ..>`, as in `Vec<u8>`.
    AngleBracketed(Vec<GenericArgument>),
    /// `(A, B) -> C`, as in `Fn(u8) -> bool`.
    Parenthesized,
}

/// One argument between angle brackets.
#[derive(Debug, PartialEq, Eq)]
pub enum GenericArgument {
    /// A type argument.
    Type(TypeExpr),
    /// A lifetime, a constant, a binding or a constraint.
    Other,
}

/// One parameter of a function.
#[derive(Debug, PartialEq, Eq)]
pub enum FnArg {
    /// A receiver such as `self` or `&mut self`, which is written without
    /// a type of its own.
    Receiver,
    /// A parameter written with its type, such as `data: &[u8]`.
    Typed(TypeExpr),
}

/// The part of a function's signature that discovery reads.
#[derive(Debug, PartialEq, Eq)]
pub struct FnSignature {
    /// The name the function is declared with.
    pub ident: String,
    /// The line of the name, counted from 1.
    pub line: usize,
    /// The parameters, in the order they are declared.
    pub inputs: Vec<FnArg>,
}

/// A function declaration, together with the declarations written inside
/// its body. Whatever else stands between a declaration and the file (a
/// module, an implementation block, a trait and the methods it provides,
/// a closure, a constant) leaves no trace: its declarations count as
/// written where it stands.
#[derive(Debug, PartialEq, Eq)]
pub enum Item {
    /// A free function: one that is declared on its own.
    Fn { sig: FnSignature, nested: Vec<Item> },
    /// A method: a function declared inside an implementation block.
    Method { sig: FnSignature, nested: Vec<Item> },
}

/// The declarations of one source file, in the order they are written.
#[derive(Debug, PartialEq, Eq)]
pub struct SourceFile {
    pub items: Vec<Item>,
}

/// Mathematical value of a [`TypeExpr`].
pub enum TypeExprView {
    Reference(Box<TypeExprView>),
    Slice(Box<TypeExprView>),
    Path(TypePathView),
    Other,
}

/// Mathematical value of a [`TypePath`].
pub struct TypePathView {
    pub qualified: bool,
    pub leading_colon: bool,
    pub segments: Seq<SegmentView>,
}

/// Mathematical value of a [`Segment`].
pub struct SegmentView {
    pub ident: Seq<char>,
    pub arguments: PathArgumentsView,
}

/// Mathematical value of [`PathArguments`].
pub enum PathArgumentsView {
    Absent,
    AngleBracketed(Seq<GenericArgumentView>),
    Parenthesized,
}

/// Mathematical value of a [`GenericArgument`].
pub enum GenericArgumentView {
    Type(TypeExprView),
    Other,
}

/// Mathematical value of a [`FnArg`].
pub enum FnArgView {
    Receiver,
    Typed(TypeExprView),
}

/// Mathematical value of a [`FnSignature`].
pub struct FnSignatureView {
    pub ident: Seq<char>,
    pub line: nat,
    pub inputs: Seq<FnArgView>,
}

/// Mathematical value of an [`Item`].
pub enum ItemView {
    Fn { sig: FnSignatureView, nested: Seq<ItemView> },
    Method { sig: FnSignatureView, nested: Seq<ItemView> },
}

pub open spec fn type_expr_view(t: TypeExpr) -> TypeExprView
    decreases t,
{
    match t {
        TypeExpr::Reference(elem) => TypeExprView::Reference(Box::new(type_expr_view(*elem))),
        TypeExpr::Slice(elem) => TypeExprView::Slice(Box::new(type_expr_view(*elem))),
        TypeExpr::Path(path) => TypeExprView::Path(type_path_view(path)),
        TypeExpr::Other => TypeExprView::Other,
    }
}

pub open spec fn type_path_view(p: TypePath) -> TypePathView
    decreases p,
{
    TypePathView {
        qualified: p.qualified,
        leading_colon: p.leading_colon,
        segments: Seq::new(
            p.segments@.len(),
            |i: int|
                if 0 <= i < p.segments@.len() {
                    segment_view(p.segments@[i])
                } else {
                    arbitrary()
                },
        ),
    }
}

pub open spec fn segment_view(s: Segment) -> SegmentView
    decreases s,
{
    SegmentView { ident: s.ident@, arguments: path_arguments_view(s.arguments) }
}

pub open spec fn path_arguments_view(a: PathArguments) -> PathArgumentsView
    decreases a,
{
    match a {
        PathArguments::Absent => PathArgumentsView::Absent,
        PathArguments::AngleBracketed(args) => PathArgumentsView::AngleBracketed(
            Seq::new(
                args@.len(),
                |i: int|
                    if 0 <= i < args@.len() {
                        generic_argument_view(args@[i])
                    } else {
                        arbitrary()
                    },
            ),
        ),
        PathArguments::Parenthesized => PathArgumentsView::Parenthesized,
    }
}

pub open spec fn generic_argument_view(g: GenericArgument) -> GenericArgumentView
    decreases g,
{
    match g {
        GenericArgument::Type(t) => GenericArgumentView::Type(type_expr_view(t)),
        GenericArgument::Other => GenericArgumentView::Other,
    }
}

pub open spec fn fn_arg_view(arg: FnArg) -> FnArgView {
    match arg {
        FnArg::Receiver => FnArgView::Receiver,
        FnArg::Typed(ty) => FnArgView::Typed(type_expr_view(ty)),
    }
}

pub open spec fn signature_view(sig: FnSignature) -> FnSignatureView {
    FnSignatureView {
        ident: sig.ident@,
        line: sig.line as nat,
        inputs: Seq::new(sig.inputs@.len(), |i: int| fn_arg_view(sig.inputs@[i])),
    }
}

pub open spec fn item_view(item: Item) -> ItemView
    decreases item,
{
    match item {
        Item::Fn { sig, nested } => ItemView::Fn {
            sig: signature_view(sig),
            nested: Seq::new(
                nested@.len(),
                |i: int|
                    if 0 <= i < nested@.len() {
                        item_view(nested@[i])
                    } else {
                        arbitrary()
                    },
            ),
        },
        Item::Method { sig, nested } => ItemView::Method {
            sig: signature_view(sig),
            nested: Seq::new(
                nested@.len(),
                |i: int|
                    if 0 <= i < nested@.len() {
                        item_view(nested@[i])
                    } else {
                        arbitrary()
                    },
            ),
        },
    }
}

/// The values of a run of items, one by one.
pub open spec fn items_view(items: Seq<Item>) -> Seq<ItemView> {
    Seq::new(items.len(), |i: int| item_view(items[i]))
}

impl View for TypeExpr {
    type V = TypeExprView;

    open spec fn view(&self) -> TypeExprView {
        type_expr_view(*self)
    }
}

impl View for TypePath {
    type V = TypePathView;

    open spec fn view(&self) -> TypePathView {
        type_path_view(*self)
    }
}

impl View for FnArg {
    type V = FnArgView;

    open spec fn view(&self) -> FnArgView {
        fn_arg_view(*self)
    }
}

impl View for FnSignature {
    type V = FnSignatureView;

    open spec fn view(&self) -> FnSignatureView {
        signature_view(*self)
    }
}

impl View for Item {
    type V = ItemView;

    open spec fn view(&self) -> ItemView {
        item_view(*self)
    }
}

impl View for SourceFile {
    type V = Seq<ItemView>;

    open spec fn view(&self) -> Seq<ItemView> {
        items_view(self.items@)
    }
}

/// The view of a function or method holds the views of what is nested in it.
pub proof fn lemma_nested_view(item: Item)
    ensures
        match item {
            Item::Fn { sig, nested } => item@ == (ItemView::Fn {
                sig: sig@,
                nested: items_view(nested@),
            }),
            Item::Method { sig, nested } => item@ == (ItemView::Method {
                sig: sig@,
                nested: items_view(nested@),
            }),
        },
{
    match item {
        Item::Fn { sig, nested } => {
            assert(item@->Fn_nested =~= items_view(nested@));
        },
        Item::Method { sig, nested } => {
            assert(item@->Method_nested =~= items_view(nested@));
        },
    }
}

} // verus!
