//! The traversal: which targets a source file holds, and in which order
//! they are reported.

use vstd::prelude::*;
use crate::classify::{is_fuzzable, is_fuzzable_type};
use crate::error::SearchError;
use crate::parse::{declarations_of, parse_source};
use crate::syntax::{
    fn_arg_view, item_view, items_view, lemma_nested_view, FnArg, FnArgView, FnSignature,
    FnSignatureView, Item, ItemView, SourceFile,
};
use crate::target::{Target, TargetView};

verus! {

/// Whether a parameter counts: it is written with a type, and the type is
/// fuzzable. A receiver never counts.
pub open spec fn is_fuzzable_arg(arg: FnArgView) -> bool {
    arg matches FnArgView::Typed(ty) && is_fuzzable(ty)
}

/// [`is_fuzzable_arg`] as a predicate to filter by.
pub open spec fn fuzzable_arg() -> spec_fn(FnArgView) -> bool {
    |arg: FnArgView| is_fuzzable_arg(arg)
}

/// How many of `inputs` count.
pub open spec fn fuzzable_count(inputs: Seq<FnArgView>) -> nat {
    inputs.filter(fuzzable_arg()).len()
}

/// The target that a function with signature `sig` is reported as.
pub open spec fn target_of(file_path: Seq<char>, sig: FnSignatureView) -> TargetView {
    TargetView { name: sig.ident, file_path, line: sig.line }
}

/// The targets of one free function: its target, once for each parameter
/// that counts.
pub open spec fn signature_targets(file_path: Seq<char>, sig: FnSignatureView) -> Seq<TargetView> {
    Seq::new(fuzzable_count(sig.inputs), |i: int| target_of(file_path, sig))
}

/// The targets of one declaration and of everything nested in it. A free
/// function comes before the functions in its body; a method contributes
/// only what is nested in it.
pub open spec fn item_targets(file_path: Seq<char>, item: ItemView) -> Seq<TargetView>
    decreases item,
{
    match item {
        ItemView::Fn { sig, nested } => signature_targets(file_path, sig) + items_targets(
            file_path,
            nested,
        ),
        ItemView::Method { sig, nested } => items_targets(file_path, nested),
    }
}

/// The targets of a run of declarations: those of the first, then those of
/// the second, and so on.
pub open spec fn items_targets(file_path: Seq<char>, items: Seq<ItemView>) -> Seq<TargetView>
    decreases items,
{
    if items.len() == 0 {
        Seq::empty()
    } else {
        items_targets(file_path, items.drop_last()) + item_targets(file_path, items.last())
    }
}

/// Whether `item` holds a function that is reported: it is a free function
/// with a parameter that counts, or such a function is nested in it.
pub open spec fn item_qualifies(item: ItemView) -> bool
    decreases item,
{
    match item {
        ItemView::Fn { sig, nested } => fuzzable_count(sig.inputs) > 0 || any_qualifies(nested),
        ItemView::Method { sig, nested } => any_qualifies(nested),
    }
}

/// Whether any of `items` holds a function that is reported.
pub open spec fn any_qualifies(items: Seq<ItemView>) -> bool
    decreases items,
{
    items.len() > 0 && (any_qualifies(items.drop_last()) || item_qualifies(items.last()))
}

/// A function with `n` parameters of which `k` count is reported exactly
/// `k` times, `k` at most `n`, and every report is the same: the
/// function's name, the file, and the line of the name.
pub proof fn lemma_one_target_per_fuzzable_parameter(file_path: Seq<char>, sig: FnSignatureView)
    ensures
        signature_targets(file_path, sig).len() == fuzzable_count(sig.inputs),
        fuzzable_count(sig.inputs) <= sig.inputs.len(),
        forall|i: int|
            0 <= i < signature_targets(file_path, sig).len() ==> signature_targets(
                file_path,
                sig,
            )[i] == (TargetView { name: sig.ident, file_path, line: sig.line }),
{
    sig.inputs.lemma_filter_len(fuzzable_arg());
}

/// The parameters that count are the same however the parameters are
/// ordered: filtering first and forgetting the order afterwards gives what
/// forgetting the order first and filtering afterwards gives.
proof fn lemma_filter_to_multiset(inputs: Seq<FnArgView>)
    ensures
        inputs.filter(fuzzable_arg()).to_multiset() == inputs.to_multiset().filter(fuzzable_arg()),
    decreases inputs.len(),
{
    broadcast use vstd::multiset::group_multiset_axioms;

    let pred = fuzzable_arg();
    if inputs.len() == 0 {
        reveal(Seq::filter);
        inputs.to_multiset_ensures();
    } else {
        let front = inputs.drop_last();
        let last = inputs.last();
        lemma_filter_to_multiset(front);
        assert(inputs =~= front.push(last));
        front.lemma_filter_push(last, pred);
        vstd::seq_lib::to_multiset_build(front, last);
        if pred(last) {
            vstd::seq_lib::to_multiset_build(front.filter(pred), last);
        }
    }
}

/// What a function is reported as does not depend on the order of its
/// parameters: two signatures with the same name and line whose parameters
/// are the same up to order have the same targets.
pub proof fn lemma_parameter_order_is_immaterial(
    file_path: Seq<char>,
    first: FnSignatureView,
    second: FnSignatureView,
)
    requires
        first.ident == second.ident,
        first.line == second.line,
        first.inputs.to_multiset() == second.inputs.to_multiset(),
    ensures
        signature_targets(file_path, first) == signature_targets(file_path, second),
{
    lemma_filter_to_multiset(first.inputs);
    lemma_filter_to_multiset(second.inputs);
    vstd::seq_lib::to_multiset_len(first.inputs.filter(fuzzable_arg()));
    vstd::seq_lib::to_multiset_len(second.inputs.filter(fuzzable_arg()));
}

/// Targets come in the order their functions are written: what is found in
/// a run of declarations followed by another is what is found in the
/// first, followed by what is found in the second.
pub proof fn lemma_targets_follow_declarations(
    file_path: Seq<char>,
    first: Seq<ItemView>,
    second: Seq<ItemView>,
)
    ensures
        items_targets(file_path, first + second) == items_targets(file_path, first)
            + items_targets(file_path, second),
    decreases second.len(),
{
    if second.len() == 0 {
    } else {
        lemma_targets_follow_declarations(file_path, first, second.drop_last());
        assert((first + second).drop_last() =~= first + second.drop_last());
    }
}

/// A free function is reported before the functions written in its body,
/// and those before whatever follows it.
pub proof fn lemma_function_comes_before_its_body(
    file_path: Seq<char>,
    sig: FnSignatureView,
    nested: Seq<ItemView>,
    rest: Seq<ItemView>,
)
    ensures
        items_targets(file_path, seq![ItemView::Fn { sig, nested }] + rest) == signature_targets(
            file_path,
            sig,
        ) + items_targets(file_path, nested) + items_targets(file_path, rest),
{
    let head = seq![ItemView::Fn { sig, nested }];
    lemma_targets_follow_declarations(file_path, head, rest);
    assert(items_targets(file_path, head.drop_last()).len() == 0);
    assert(items_targets(file_path, head) =~= item_targets(file_path, head.last()));
}

/// A method is never reported, whatever its parameters are: it adds to the
/// targets only what the functions written in its body add.
pub proof fn lemma_methods_are_passed_over(
    file_path: Seq<char>,
    sig: FnSignatureView,
    nested: Seq<ItemView>,
)
    ensures
        item_targets(file_path, ItemView::Method { sig, nested }) == items_targets(
            file_path,
            nested,
        ),
        nested.len() == 0 ==> item_targets(file_path, ItemView::Method { sig, nested }).len() == 0,
{
}

/// A declaration yields no target exactly when it holds no function that
/// is reported.
pub proof fn lemma_item_without_targets(file_path: Seq<char>, item: ItemView)
    ensures
        item_targets(file_path, item).len() == 0 <==> !item_qualifies(item),
    decreases item,
{
    match item {
        ItemView::Fn { sig, nested } => {
            lemma_without_targets(file_path, nested);
        },
        ItemView::Method { sig, nested } => {
            lemma_without_targets(file_path, nested);
        },
    }
}

/// A file in which no free function has a parameter that counts yields no
/// targets, and only such a file does.
pub proof fn lemma_without_targets(file_path: Seq<char>, items: Seq<ItemView>)
    ensures
        items_targets(file_path, items).len() == 0 <==> !any_qualifies(items),
    decreases items,
{
    if items.len() > 0 {
        lemma_without_targets(file_path, items.drop_last());
        lemma_item_without_targets(file_path, items.last());
    }
}

/// Collects the targets of the declarations it is shown, for one file.
pub struct FunctionFinder {
    root: String,
    results: Vec<Target>,
}

/// Mathematical value of a [`FunctionFinder`].
pub struct FunctionFinderView {
    /// The path that every target is reported under.
    pub root: Seq<char>,
    /// The targets collected so far, in the order they were found.
    pub results: Seq<TargetView>,
}

impl View for FunctionFinder {
    type V = FunctionFinderView;

    closed spec fn view(&self) -> FunctionFinderView {
        FunctionFinderView { root: self.root@, results: self.results.deep_view() }
    }
}

impl FunctionFinder {
    /// A finder for the file at `root`, with nothing found yet.
    pub fn new(root: String) -> (finder: Self)
        ensures
            finder@ == (FunctionFinderView { root: root@, results: Seq::empty() }),
    {
        let finder = FunctionFinder { root, results: Vec::new() };
        assert(finder.results.deep_view() =~= Seq::empty());
        finder
    }

    /// The path that targets are reported under.
    pub fn root(&self) -> (root: &str)
        ensures
            root@ == self@.root,
    {
        self.root.as_str()
    }

    /// The targets found so far.
    pub fn results(&self) -> (results: &Vec<Target>)
        ensures
            results.deep_view() == self@.results,
    {
        &self.results
    }

    /// Gives up the finder for the targets it found.
    pub fn into_results(self) -> (results: Vec<Target>)
        ensures
            results.deep_view() == self@.results,
    {
        self.results
    }

    /// Reports a free function with signature `sig`: one target for each of
    /// its parameters that is written with a fuzzable type.
    pub fn visit_signature(&mut self, sig: &FnSignature)
        ensures
            final(self)@.root == old(self)@.root,
            final(self)@.results == old(self)@.results + signature_targets(old(self)@.root, sig@),
    {
        let ghost target = target_of(self.root@, sig@);
        let mut i: usize = 0;
        while i < sig.inputs.len()
            invariant
                i <= sig.inputs.len(),
                self.root == old(self).root,
                target == target_of(self.root@, sig@),
                self.results.deep_view() == old(self).results.deep_view() + Seq::new(
                    fuzzable_count(sig@.inputs.take(i as int)),
                    |k: int| target,
                ),
            decreases sig.inputs.len() - i,
        {
            let ghost before = self.results.deep_view();
            let ghost counted = fuzzable_count(sig@.inputs.take(i as int));
            proof {
                assert(sig@.inputs.take(i as int + 1) =~= sig@.inputs.take(i as int).push(
                    sig@.inputs[i as int],
                ));
                sig@.inputs.take(i as int).lemma_filter_len_push(
                    fuzzable_arg(),
                    sig@.inputs[i as int],
                );
            }
            let found = match &sig.inputs[i] {
                FnArg::Typed(ty) => is_fuzzable_type(ty),
                FnArg::Receiver => false,
            };
            if found {
                self.results.push(
                    Target { name: sig.ident.clone(), file_path: self.root.clone(), line: sig.line },
                );
                assert(before.push(target) =~= old(self).results.deep_view() + Seq::new(
                    counted + 1,
                    |k: int| target,
                ));
            }
            i += 1;
        }
        assert(sig@.inputs.take(i as int) =~= sig@.inputs);
    }

    /// Reports a free function and then everything nested in its body.
    pub fn visit_item_fn(&mut self, sig: &FnSignature, nested: &Vec<Item>)
        ensures
            final(self)@.root == old(self)@.root,
            final(self)@.results == old(self)@.results + signature_targets(old(self)@.root, sig@)
                + items_targets(old(self)@.root, items_view(nested@)),
        decreases nested, 1nat,
    {
        self.visit_signature(sig);
        self.visit_items(nested);
    }

    /// Reports the targets of `item` and of everything nested in it. A
    /// method is passed over, but what is nested in its body is not.
    pub fn visit_item(&mut self, item: &Item)
        ensures
            final(self)@.root == old(self)@.root,
            final(self)@.results == old(self)@.results + item_targets(old(self)@.root, item@),
        decreases item, 0nat,
    {
        proof {
            lemma_nested_view(*item);
        }
        match item {
            Item::Fn { sig, nested } => {
                self.visit_item_fn(sig, nested);
            },
            Item::Method { sig, nested } => {
                self.visit_items(nested);
            },
        }
    }

    /// Reports the targets of `items`, one declaration after the other.
    pub fn visit_items(&mut self, items: &Vec<Item>)
        ensures
            final(self)@.root == old(self)@.root,
            final(self)@.results == old(self)@.results + items_targets(
                old(self)@.root,
                items_view(items@),
            ),
        decreases items, 0nat,
    {
        let ghost views = items_view(items@);
        let mut i: usize = 0;
        while i < items.len()
            invariant
                i <= items.len(),
                views == items_view(items@),
                self@.root == old(self)@.root,
                self@.results == old(self)@.results + items_targets(
                    self@.root,
                    views.take(i as int),
                ),
            decreases items.len() - i,
        {
            assert(views.take(i as int + 1).drop_last() =~= views.take(i as int));
            self.visit_item(&items[i]);
            i += 1;
        }
        assert(views.take(i as int) =~= views);
    }

    /// Reports the targets of a whole file.
    pub fn visit_file(&mut self, file: &SourceFile)
        ensures
            final(self)@.root == old(self)@.root,
            final(self)@.results == old(self)@.results + items_targets(old(self)@.root, file@),
    {
        self.visit_items(&file.items);
    }
}

/// The targets of `file`, reported under `file_path`, in the order their
/// functions are written.
pub fn find_targets(file_path: &str, file: &SourceFile) -> (targets: Vec<Target>)
    ensures
        targets.deep_view() == items_targets(file_path@, file@),
{
    let mut finder = FunctionFinder::new(file_path.to_owned());
    finder.visit_file(file);
    finder.into_results()
}

/// Searches the text of one source file: reads its declarations from
/// `source`, as [`parse_source`] does, and reports their targets under
/// `file_path`. Text that cannot be read is an error, never an empty
/// result.
pub fn search_file(file_path: &str, source: &str) -> (r: Result<Vec<Target>, SearchError>)
    ensures
        match r {
            Ok(targets) => declarations_of(source@) matches Some(items) && targets.deep_view()
                == items_targets(file_path@, items),
            Err(error) => declarations_of(source@) is None && error is Parse,
        },
{
    match parse_source(source) {
        Ok(file) => Ok(find_targets(file_path, &file)),
        Err(error) => Err(SearchError::Parse(error)),
    }
}

} // verus!
