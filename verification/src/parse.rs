//! Reading source text with `syn`.
//!
//! `syn` parses the text and walks the tree it built; this module copies
//! what the walk comes across into the values of [`crate::syntax`].
//!
//! Nothing is proved about `syn`. Its types are opaque here, and the
//! functions marked `external_body` are the only ones that look inside
//! them: each takes one value apart and hands out its parts, and none
//! claims anything about them. The one claim made is that of
//! [`read_syntax`]: reading the same text gives the same declarations.

use vstd::prelude::*;
use vstd::string::StrSliceExecFns;
use crate::classify::{
    argument_fits, fits, lemma_path_fits, path_fits, segment_fits, TYPE_DEPTH,
};
use crate::error::ParseError;
use crate::syntax::{
    fn_arg_view, generic_argument_view, items_view, segment_view, type_expr_view, FnArg,
    FnArgView, FnSignature, FnSignatureView, GenericArgument, Item, ItemView, PathArguments,
    Segment, SourceFile, TypeExpr, TypePath,
};

verus! {

/// `syn::Type`, a type as `syn` parsed it.
#[verifier::external_type_specification]
#[verifier::external_body]
pub struct ExType(syn::Type);

/// `syn::PathSegment`, one segment of a path.
#[verifier::external_type_specification]
#[verifier::external_body]
pub struct ExPathSegment(syn::PathSegment);

/// `syn::Signature`, the signature of a function or method.
#[verifier::external_type_specification]
#[verifier::external_body]
pub struct ExSignature(syn::Signature);

/// `syn::ItemFn`, a free function.
#[verifier::external_type_specification]
#[verifier::external_body]
pub struct ExItemFn(syn::ItemFn);

/// `syn::ImplItemFn`, a function inside an implementation block.
#[verifier::external_type_specification]
#[verifier::external_body]
pub struct ExImplItemFn(syn::ImplItemFn);

/// `syn::Error`, the parser's diagnostic.
#[verifier::external_type_specification]
#[verifier::external_body]
pub struct ExError(syn::Error);

/// The declarations that [`read_syntax`] yields for `source`, or `None`
/// where `syn` does not accept `source` as a source file.
pub uninterp spec fn syntax_of(source: Seq<char>) -> Option<Seq<ItemView>>;

/// The longest text that is read, in characters. `proc_macro2` keeps
/// positions in 32 bits, and the text starts at position 1.
pub const MAX_SOURCE_LEN: usize = 0xffff_fffe;

/// The declarations of a source file with the text `source`, or `None`
/// where the text is too long to be read or is not a source file.
pub open spec fn declarations_of(source: Seq<char>) -> Option<Seq<ItemView>> {
    if source.len() <= MAX_SOURCE_LEN {
        syntax_of(source)
    } else {
        None
    }
}

/// The outermost level of a `syn::Type`.
enum TypeShape<'a> {
    Reference(&'a syn::Type),
    Slice(&'a syn::Type),
    Path { qualified: bool, leading_colon: bool, segments: Vec<&'a syn::PathSegment> },
    Other,
}

/// What follows the identifier of a `syn::PathSegment`. Of an argument
/// between angle brackets only the type is kept, if it is one.
enum ArgumentsShape<'a> {
    Absent,
    AngleBracketed(Vec<Option<&'a syn::Type>>),
    Parenthesized,
}

/// A `syn::PathSegment`, taken apart.
struct SegmentShape<'a> {
    ident: String,
    arguments: ArgumentsShape<'a>,
}

/// A `syn::Signature`, taken apart. Of a parameter only the type is kept,
/// if it is written with one.
struct SignatureShape<'a> {
    ident: String,
    line: usize,
    inputs: Vec<Option<&'a syn::Type>>,
}

/// Tells the variants of `syn::Type` apart and hands out their fields:
/// `elem` of a `TypeReference` or a `TypeSlice`; of a `TypePath`, whether
/// `qself` and `path.leading_colon` are there, and the items of
/// `path.segments` as `Punctuated::iter` gives them. Nothing is claimed of
/// what is handed out.
#[verifier::external_body]
fn type_shape(ty: &syn::Type) -> TypeShape<'_> {
    match ty {
        syn::Type::Reference(reference) => TypeShape::Reference(&reference.elem),
        syn::Type::Slice(slice) => TypeShape::Slice(&slice.elem),
        syn::Type::Path(named) => TypeShape::Path {
            qualified: named.qself.is_some(),
            leading_colon: named.path.leading_colon.is_some(),
            segments: named.path.segments.iter().collect(),
        },
        _ => TypeShape::Other,
    }
}

/// Hands out the fields of a `syn::PathSegment`: `ident` as
/// `Ident::to_string` writes it, and `arguments` by its variant, with the
/// items of `args` as `Punctuated::iter` gives them. Nothing is claimed of
/// what is handed out.
#[verifier::external_body]
fn segment_shape(segment: &syn::PathSegment) -> SegmentShape<'_> {
    SegmentShape {
        ident: segment.ident.to_string(),
        arguments: match &segment.arguments {
            syn::PathArguments::None => ArgumentsShape::Absent,
            syn::PathArguments::AngleBracketed(list) => ArgumentsShape::AngleBracketed(
                list.args.iter().map(|arg| match arg {
                    syn::GenericArgument::Type(ty) => Some(ty),
                    _ => None,
                }).collect(),
            ),
            syn::PathArguments::Parenthesized(_) => ArgumentsShape::Parenthesized,
        },
    }
}

/// Hands out the fields of a `syn::Signature`: `ident` as
/// `Ident::to_string` writes it, the line that `Span::start` gives for the
/// span of `ident`, and the items of `inputs` as `Punctuated::iter` gives
/// them. Nothing is claimed of what is handed out.
#[verifier::external_body]
fn signature_shape(sig: &syn::Signature) -> SignatureShape<'_> {
    SignatureShape {
        ident: sig.ident.to_string(),
        line: sig.ident.span().start().line,
        inputs: sig.inputs.iter().map(|arg| match arg {
            syn::FnArg::Typed(typed) => Some(&*typed.ty),
            syn::FnArg::Receiver(_) => None,
        }).collect(),
    }
}

/// The field `sig` of a `syn::ItemFn`.
#[verifier::external_body]
fn fn_signature(node: &syn::ItemFn) -> &syn::Signature {
    &node.sig
}

/// The field `sig` of a `syn::ImplItemFn`.
#[verifier::external_body]
fn method_signature(node: &syn::ImplItemFn) -> &syn::Signature {
    &node.sig
}

/// Copies a `syn::Error`: the message that its `Display` writes, and the
/// line and column that `Span::start` gives for `Error::span`. Nothing is
/// claimed of what is copied.
#[verifier::external_body]
fn error_shape(error: &syn::Error) -> ParseError {
    let start = error.span().start();
    ParseError { message: error.to_string(), line: start.line, column: start.column }
}

/// Copies a type as far as `depth` levels down; what lies deeper, and
/// every type that is no reference, slice or named type, is `Other`.
fn type_expr_of(ty: &syn::Type, depth: usize) -> (r: TypeExpr)
    ensures
        fits(r@, depth as nat),
    decreases depth, 0nat,
{
    if depth == 0 {
        return TypeExpr::Other;
    }
    proof {
        reveal_with_fuel(type_expr_view, 2);
    }
    match type_shape(ty) {
        TypeShape::Reference(elem) => TypeExpr::Reference(Box::new(type_expr_of(elem, depth - 1))),
        TypeShape::Slice(elem) => TypeExpr::Slice(Box::new(type_expr_of(elem, depth - 1))),
        TypeShape::Path { qualified, leading_colon, segments } => {
            let path = type_path_of(qualified, leading_colon, &segments, depth - 1);
            proof {
                lemma_path_fits(path@, (depth - 1) as nat);
            }
            TypeExpr::Path(path)
        },
        TypeShape::Other => TypeExpr::Other,
    }
}

/// Puts a path together from its parts: the two flags as they are, and
/// one segment for each of `parts`, in their order, with its type
/// arguments copied as far as `depth` levels down.
fn type_path_of(
    qualified: bool,
    leading_colon: bool,
    parts: &Vec<&syn::PathSegment>,
    depth: usize,
) -> (r: TypePath)
    ensures
        r@.qualified == qualified,
        r@.leading_colon == leading_colon,
        r@.segments.len() == parts@.len(),
        path_fits(r@, depth as nat),
    decreases depth, 2nat,
{
    let mut segments: Vec<Segment> = Vec::new();
    let mut i: usize = 0;
    while i < parts.len()
        invariant
            i <= parts.len(),
            segments@.len() == i,
            forall|k: int| 0 <= k < i ==> segment_fits(segment_view(#[trigger] segments@[k]), depth as nat),
        decreases parts.len() - i,
    {
        segments.push(path_segment_of(parts[i], depth));
        i += 1;
    }
    TypePath { qualified, leading_colon, segments }
}

/// Copies one segment of a path, its type arguments as far as `depth`
/// levels down. An argument that is no type is `Other`.
fn path_segment_of(segment: &syn::PathSegment, depth: usize) -> (r: Segment)
    ensures
        segment_fits(segment_view(r), depth as nat),
    decreases depth, 1nat,
{
    let shape = segment_shape(segment);
    let arguments = match shape.arguments {
        ArgumentsShape::Absent => PathArguments::Absent,
        ArgumentsShape::AngleBracketed(list) => {
            let mut args: Vec<GenericArgument> = Vec::new();
            let mut i: usize = 0;
            while i < list.len()
                invariant
                    i <= list.len(),
                    args@.len() == i,
                    forall|k: int|
                        0 <= k < i ==> argument_fits(
                            generic_argument_view(#[trigger] args@[k]),
                            depth as nat,
                        ),
                decreases list.len() - i,
            {
                let arg = match list[i] {
                    Some(ty) => GenericArgument::Type(type_expr_of(ty, depth)),
                    None => GenericArgument::Other,
                };
                args.push(arg);
                i += 1;
            }
            PathArguments::AngleBracketed(args)
        },
        ArgumentsShape::Parenthesized => PathArguments::Parenthesized,
    };
    Segment { ident: shape.ident, arguments }
}

/// Whether the types of the parameters of `sig` are no deeper than
/// `depth` levels.
pub open spec fn signature_fits(sig: FnSignatureView, depth: nat) -> bool {
    forall|i: int|
        0 <= i < sig.inputs.len() ==> (#[trigger] sig.inputs[i] matches FnArgView::Typed(ty)
            ==> fits(ty, depth))
}

/// Copies a signature: its name and line, and its parameters in their
/// order, a parameter without a type as a receiver, the type of any other
/// as far as [`TYPE_DEPTH`] levels down.
fn signature_of(sig: &syn::Signature) -> (r: FnSignature)
    ensures
        signature_fits(r@, TYPE_DEPTH as nat),
{
    let shape = signature_shape(sig);
    let mut inputs: Vec<FnArg> = Vec::new();
    let mut i: usize = 0;
    while i < shape.inputs.len()
        invariant
            i <= shape.inputs.len(),
            inputs@.len() == i,
            forall|k: int|
                0 <= k < i ==> (fn_arg_view(#[trigger] inputs@[k]) matches FnArgView::Typed(ty)
                    ==> fits(ty, TYPE_DEPTH as nat)),
        decreases shape.inputs.len() - i,
    {
        let input = match shape.inputs[i] {
            Some(ty) => FnArg::Typed(type_expr_of(ty, TYPE_DEPTH)),
            None => FnArg::Receiver,
        };
        inputs.push(input);
        i += 1;
    }
    FnSignature { ident: shape.ident, line: shape.line, inputs }
}

/// Gathers the declarations that a walk comes across at one level of
/// nesting.
pub struct TreeBuilder {
    items: Vec<Item>,
}

impl View for TreeBuilder {
    type V = Seq<ItemView>;

    /// The declarations gathered so far, in the order they were found.
    closed spec fn view(&self) -> Seq<ItemView> {
        items_view(self.items@)
    }
}

/// Goes on with the walk below a free function: `syn::visit::visit_item_fn`,
/// which calls `builder` back for what it finds there. Nothing is claimed
/// of what `builder` holds afterwards.
#[verifier::external_body]
fn walk_fn(builder: &mut TreeBuilder, node: &syn::ItemFn) {
    syn::visit::visit_item_fn(builder, node)
}

/// Goes on with the walk below a method: `syn::visit::visit_impl_item_fn`,
/// which calls `builder` back for what it finds there. Nothing is claimed
/// of what `builder` holds afterwards.
#[verifier::external_body]
fn walk_method(builder: &mut TreeBuilder, node: &syn::ImplItemFn) {
    syn::visit::visit_impl_item_fn(builder, node)
}

/// The two places where the walk is listened to. Each adds one declaration
/// to the level it was called at, after everything that was there, with
/// what the walk below it found as the declarations nested in it.
impl<'ast> syn::visit::Visit<'ast> for TreeBuilder {
    fn visit_item_fn(&mut self, node: &'ast syn::ItemFn)
        ensures
            final(self)@.len() == old(self)@.len() + 1,
            final(self)@.drop_last() == old(self)@,
            final(self)@.last() matches ItemView::Fn { sig, .. } && signature_fits(
                sig,
                TYPE_DEPTH as nat,
            ),
    {
        let sig = signature_of(fn_signature(node));
        let mut body = TreeBuilder { items: Vec::new() };
        walk_fn(&mut body, node);
        self.items.push(Item::Fn { sig, nested: body.items });
        assert(self@.drop_last() =~= old(self)@);
    }

    fn visit_impl_item_fn(&mut self, node: &'ast syn::ImplItemFn)
        ensures
            final(self)@.len() == old(self)@.len() + 1,
            final(self)@.drop_last() == old(self)@,
            final(self)@.last() matches ItemView::Method { sig, .. } && signature_fits(
                sig,
                TYPE_DEPTH as nat,
            ),
    {
        let sig = signature_of(method_signature(node));
        let mut body = TreeBuilder { items: Vec::new() };
        walk_method(&mut body, node);
        self.items.push(Item::Method { sig, nested: body.items });
        assert(self@.drop_last() =~= old(self)@);
    }
}

/// Parses `source` with `syn::parse_file` and walks the result with
/// `syn::visit::visit_file`, which hands every free function and every
/// method to a [`TreeBuilder`], outermost first and in the order they are
/// written.
///
/// Before that, `proc_macro2::extra::invalidate_current_thread_spans`
/// forgets the texts that were parsed on this thread earlier, so that the
/// positions in `source` start at 1 whatever was parsed before; with the
/// bound on the length of `source` they fit in the 32 bits that
/// `proc_macro2` keeps them in.
///
/// Taken on trust: the outcome depends on `source` alone. It is what
/// [`syntax_of`] names.
#[verifier::external_body]
fn read_syntax(source: &str) -> (r: Result<SourceFile, syn::Error>)
    requires
        source@.len() <= MAX_SOURCE_LEN,
    ensures
        r matches Ok(file) ==> syntax_of(source@) == Some(file@),
        r is Err ==> syntax_of(source@) is None,
{
    proc_macro2::extra::invalidate_current_thread_spans();
    let tree = syn::parse_file(source)?;
    let mut builder = TreeBuilder { items: Vec::new() };
    syn::visit::visit_file(&mut builder, &tree);
    Ok(SourceFile { items: builder.items })
}

/// Reads the declarations of a source file from its text. A text of more
/// than [`MAX_SOURCE_LEN`] characters is turned down as it stands.
///
/// The text is parsed on the calling thread, and the positions that
/// `proc_macro2` handed out on that thread before are no longer good
/// afterwards. This is for programs, not for procedural macros, inside
/// which `proc_macro2` cannot forget them.
pub fn parse_source(source: &str) -> (r: Result<SourceFile, ParseError>)
    ensures
        r matches Ok(file) ==> declarations_of(source@) == Some(file@),
        r is Err ==> declarations_of(source@) is None,
{
    if source.unicode_len() > MAX_SOURCE_LEN {
        return Err(
            ParseError { message: "source text is too long".to_owned(), line: 0, column: 0 },
        );
    }
    match read_syntax(source) {
        Ok(file) => Ok(file),
        Err(error) => Err(error_shape(&error)),
    }
}

} // verus!
