//! The fuzzability classifier: which parameter types can be fed from raw
//! fuzzer input.
//!
//! The classifier goes by how a type is written, not by what it means: an
//! alias of `Vec<u8>` is not recognised, and neither is `std::vec::Vec<u8>`.

use vstd::prelude::*;
use vstd::string::StringExecFns;
use crate::syntax::{
    generic_argument_view, path_arguments_view, segment_view, type_expr_view, type_path_view,
    GenericArgument, GenericArgumentView, PathArguments, PathArgumentsView, SegmentView, TypeExpr,
    TypeExprView, TypePath, TypePathView,
};

verus! {

/// Whether `path` is one bare name: not qualified, no leading `::`, a
/// single segment. The segment may still have arguments.
pub open spec fn is_bare(path: TypePathView) -> bool {
    !path.qualified && !path.leading_colon && path.segments.len() == 1
}

/// Whether `path` is the identifier `name` and nothing more: one bare name
/// without arguments.
pub open spec fn path_is_ident(path: TypePathView, name: Seq<char>) -> bool {
    &&& is_bare(path)
    &&& path.segments[0].arguments is Absent
    &&& path.segments[0].ident == name
}

/// Whether `ty` is the type written `u8`.
pub open spec fn is_byte(ty: TypeExprView) -> bool {
    ty matches TypeExprView::Path(path) && path_is_ident(path, "u8"@)
}

/// Whether `ty` is a reference to a slice of `u8`: `&[u8]`, with or
/// without a lifetime or `mut`.
pub open spec fn is_byte_slice_reference(ty: TypeExprView) -> bool {
    &&& ty matches TypeExprView::Reference(referent)
    &&& *referent matches TypeExprView::Slice(elem)
    &&& is_byte(*elem)
}

/// Whether `arguments` is `<u8>`: exactly one argument between angle
/// brackets, the type `u8`.
pub open spec fn is_byte_argument(arguments: PathArgumentsView) -> bool {
    &&& arguments matches PathArgumentsView::AngleBracketed(args)
    &&& args.len() == 1
    &&& args[0] matches GenericArgumentView::Type(arg)
    &&& is_byte(arg)
}

/// Whether `ty` is the type written `Vec<u8>`: the bare name `Vec` with
/// exactly one argument between angle brackets, the type `u8`.
pub open spec fn is_byte_vec(ty: TypeExprView) -> bool {
    &&& ty matches TypeExprView::Path(path)
    &&& is_bare(path)
    &&& path.segments[0].ident == "Vec"@
    &&& is_byte_argument(path.segments[0].arguments)
}

/// Whether `ty` is the type written `String`, without arguments.
pub open spec fn is_string(ty: TypeExprView) -> bool {
    ty matches TypeExprView::Path(path) && path_is_ident(path, "String"@)
}

/// A type is fuzzable when it is written in one of exactly three ways:
/// `&[u8]`, `Vec<u8>` or `String`.
pub open spec fn is_fuzzable(ty: TypeExprView) -> bool {
    is_byte_slice_reference(ty) || is_byte_vec(ty) || is_string(ty)
}

/// How many levels of a type the classifier looks at: `&`, `[..]` and `u8`
/// are the three levels of `&[u8]`.
pub const TYPE_DEPTH: usize = 3;

/// `ty` cut off below `depth` levels: what lies deeper is `Other`. The
/// arguments of a named type are one level below it.
pub open spec fn cut(ty: TypeExprView, depth: nat) -> TypeExprView
    decreases depth,
{
    if depth == 0 {
        TypeExprView::Other
    } else {
        let below = (depth - 1) as nat;
        match ty {
            TypeExprView::Reference(referent) => TypeExprView::Reference(
                Box::new(cut(*referent, below)),
            ),
            TypeExprView::Slice(elem) => TypeExprView::Slice(Box::new(cut(*elem, below))),
            TypeExprView::Path(path) => TypeExprView::Path(
                TypePathView {
                    qualified: path.qualified,
                    leading_colon: path.leading_colon,
                    segments: Seq::new(
                        path.segments.len(),
                        |i: int|
                            SegmentView {
                                ident: path.segments[i].ident,
                                arguments: match path.segments[i].arguments {
                                    PathArgumentsView::AngleBracketed(args) => {
                                        PathArgumentsView::AngleBracketed(
                                            Seq::new(
                                                args.len(),
                                                |j: int|
                                                    match args[j] {
                                                        GenericArgumentView::Type(arg) => {
                                                            GenericArgumentView::Type(
                                                                cut(arg, below),
                                                            )
                                                        },
                                                        GenericArgumentView::Other => {
                                                            GenericArgumentView::Other
                                                        },
                                                    },
                                            ),
                                        )
                                    },
                                    other => other,
                                },
                            },
                    ),
                },
            ),
            TypeExprView::Other => TypeExprView::Other,
        }
    }
}

/// Whether `ty` is no deeper than `depth` levels: cutting it off there
/// leaves it as it is.
pub open spec fn fits(ty: TypeExprView, depth: nat) -> bool {
    cut(ty, depth) == ty
}

/// Whether an argument, if it is a type, is no deeper than `depth` levels.
pub open spec fn argument_fits(arg: GenericArgumentView, depth: nat) -> bool {
    arg matches GenericArgumentView::Type(ty) ==> fits(ty, depth)
}

/// Whether the type arguments of a segment are no deeper than `depth`
/// levels.
pub open spec fn segment_fits(segment: SegmentView, depth: nat) -> bool {
    segment.arguments matches PathArgumentsView::AngleBracketed(args) ==> forall|j: int|
        0 <= j < args.len() ==> argument_fits(#[trigger] args[j], depth)
}

/// Whether the type arguments of a path are no deeper than `depth` levels.
pub open spec fn path_fits(path: TypePathView, depth: nat) -> bool {
    forall|i: int| 0 <= i < path.segments.len() ==> segment_fits(#[trigger] path.segments[i], depth)
}

/// A named type is one level deeper than its arguments.
pub proof fn lemma_path_fits(path: TypePathView, depth: nat)
    requires
        path_fits(path, depth),
    ensures
        fits(TypeExprView::Path(path), depth + 1),
{
    let whole = TypeExprView::Path(path);
    let after = cut(whole, depth + 1)->Path_0;
    assert forall|i: int| 0 <= i < path.segments.len() implies after.segments[i]
        == path.segments[i] by {
        assert(segment_fits(path.segments[i], depth));
        if let PathArgumentsView::AngleBracketed(args) = path.segments[i].arguments {
            let cut_args = after.segments[i].arguments->AngleBracketed_0;
            assert forall|j: int| 0 <= j < args.len() implies cut_args[j] == args[j] by {
                assert(argument_fits(args[j], depth));
            }
            assert(cut_args =~= args);
        }
    }
    assert(after.segments =~= path.segments);
}

/// Whether a type is `u8` shows at its outermost level.
proof fn lemma_is_byte_of_cut(ty: TypeExprView, depth: nat)
    requires
        depth >= 1,
    ensures
        is_byte(cut(ty, depth)) == is_byte(ty),
{
}

/// The classifier looks no deeper than [`TYPE_DEPTH`] levels: a type cut
/// off at that depth or below it is fuzzable exactly when the whole type is.
pub proof fn lemma_classifier_depth(ty: TypeExprView, depth: nat)
    requires
        depth >= TYPE_DEPTH,
    ensures
        is_fuzzable(cut(ty, depth)) == is_fuzzable(ty),
{
    reveal_with_fuel(cut, 3);
    match ty {
        TypeExprView::Reference(referent) => {
            if let TypeExprView::Slice(elem) = *referent {
                lemma_is_byte_of_cut(*elem, (depth - 2) as nat);
            }
        },
        TypeExprView::Path(path) => {
            if path.segments.len() >= 1 {
                if let PathArgumentsView::AngleBracketed(args) = path.segments[0].arguments {
                    if args.len() == 1 {
                        if let GenericArgumentView::Type(arg) = args[0] {
                            lemma_is_byte_of_cut(arg, (depth - 1) as nat);
                        }
                    }
                }
            }
        },
        _ => {},
    }
}

/// The three fuzzable shapes exclude one another, and only a reference or
/// a named type can have one of them.
pub proof fn lemma_shapes_are_distinct(ty: TypeExprView)
    ensures
        !(is_byte_slice_reference(ty) && is_byte_vec(ty)),
        !(is_byte_slice_reference(ty) && is_string(ty)),
        !(is_byte_vec(ty) && is_string(ty)),
        is_fuzzable(ty) ==> ty is Reference || ty is Path,
{
}

/// The near misses among named types. A named type is not fuzzable if it
/// is more than one bare name; if the name is neither `Vec` nor `String`;
/// if it is `Vec` with anything but the one argument `u8`; or if it is
/// `String` with arguments.
pub proof fn lemma_near_misses(path: TypePathView)
    ensures
        !is_bare(path) ==> !is_fuzzable(TypeExprView::Path(path)),
        is_bare(path) && path.segments[0].ident != "Vec"@ && path.segments[0].ident != "String"@
            ==> !is_fuzzable(TypeExprView::Path(path)),
        is_bare(path) && path.segments[0].ident == "Vec"@ && !is_byte_argument(
            path.segments[0].arguments,
        ) ==> !is_fuzzable(TypeExprView::Path(path)),
        is_bare(path) && path.segments[0].ident == "String"@ && !(path.segments[0].arguments
            is Absent) ==> !is_fuzzable(TypeExprView::Path(path)),
{
    reveal_strlit("Vec");
    reveal_strlit("String");
    assert("String"@.len() == 6);
}

fn ident_is(ident: &String, name: &str) -> (r: bool)
    ensures
        r == (ident@ == name@),
{
    let wanted = String::from_str(name);
    *ident == wanted
}

fn is_bare_path(path: &TypePath) -> (r: bool)
    ensures
        r == is_bare(path@),
{
    !path.qualified && !path.leading_colon && path.segments.len() == 1
}

/// Whether `path` is the identifier `name` and nothing more.
pub fn is_ident(path: &TypePath, name: &str) -> (r: bool)
    ensures
        r == path_is_ident(path@, name@),
{
    if !is_bare_path(path) {
        return false;
    }
    let segment = &path.segments[0];
    match segment.arguments {
        PathArguments::Absent => ident_is(&segment.ident, name),
        _ => false,
    }
}

fn is_byte_type(ty: &TypeExpr) -> (r: bool)
    ensures
        r == is_byte(ty@),
{
    match ty {
        TypeExpr::Path(path) => is_ident(path, "u8"),
        _ => false,
    }
}

fn is_byte_slice_reference_type(ty: &TypeExpr) -> (r: bool)
    ensures
        r == is_byte_slice_reference(ty@),
{
    proof {
        reveal_with_fuel(type_expr_view, 2);
    }
    match ty {
        TypeExpr::Reference(referent) => match &**referent {
            TypeExpr::Slice(elem) => is_byte_type(elem),
            _ => false,
        },
        _ => false,
    }
}

fn is_byte_vec_type(ty: &TypeExpr) -> (r: bool)
    ensures
        r == is_byte_vec(ty@),
{
    match ty {
        TypeExpr::Path(path) => {
            if !is_bare_path(path) {
                return false;
            }
            let first = &path.segments[0];
            if !ident_is(&first.ident, "Vec") {
                return false;
            }
            match &first.arguments {
                PathArguments::AngleBracketed(args) => {
                    if args.len() != 1 {
                        return false;
                    }
                    match &args[0] {
                        GenericArgument::Type(arg) => is_byte_type(arg),
                        GenericArgument::Other => false,
                    }
                },
                _ => false,
            }
        },
        _ => false,
    }
}

fn is_string_type(ty: &TypeExpr) -> (r: bool)
    ensures
        r == is_string(ty@),
{
    match ty {
        TypeExpr::Path(path) => is_ident(path, "String"),
        _ => false,
    }
}

/// Decides whether a parameter of type `ty` makes its function a fuzzing
/// target: whether `ty` is written `&[u8]`, `Vec<u8>` or `String`.
pub fn is_fuzzable_type(ty: &TypeExpr) -> (r: bool)
    ensures
        r == is_fuzzable(ty@),
{
    is_byte_slice_reference_type(ty) || is_byte_vec_type(ty) || is_string_type(ty)
}

} // verus!
