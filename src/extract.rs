//! Extraction of the test functions of a module and of the directive that
//! names their instantiation arguments.
use crate::ast::{AttrStyle, Attribute, GenericParam, Generics, Item, ItemFn, ItemMod, ReturnType};
use crate::error::{ErrorRecord, ExtractError};
use crate::options::MacroOpts;
use vstd::prelude::*;

verus! {

/// The name of the module attribute that lists the instantiation arguments.
pub const DIRECTIVE_NAME: &'static str = "instantiate_tests";

/// The test functions of a module, in declaration order.
#[derive(Debug)]
pub struct Tests<S> {
    pub test_fns: Vec<TestFn<S>>,
}

/// What the code emission needs of one test function: the attributes to put
/// on each generated function (the test markers, then the copied attributes),
/// its qualifiers, name and return type, and its built signature.
#[derive(Debug)]
pub struct TestFn<S> {
    pub test_attrs: Vec<Attribute>,
    pub asyncness: bool,
    pub unsafety: bool,
    pub ident: String,
    pub output: ReturnType,
    pub sig: S,
}

pub open spec fn marker_pred(opts: MacroOpts) -> spec_fn(Attribute) -> bool {
    |a: Attribute| opts.spec_is_test_attr(a)
}

pub open spec fn unmarked_pred(opts: MacroOpts) -> spec_fn(Attribute) -> bool {
    |a: Attribute| !opts.spec_is_test_attr(a)
}

pub open spec fn copied_pred(opts: MacroOpts) -> spec_fn(Attribute) -> bool {
    |a: Attribute| opts.spec_is_copied_attr(a)
}

/// The test markers among `attrs`, in order.
pub open spec fn markers(opts: MacroOpts, attrs: Seq<Attribute>) -> Seq<Attribute> {
    attrs.filter(marker_pred(opts))
}

/// The attributes of `attrs` that are not test markers, in order.
pub open spec fn unmarked(opts: MacroOpts, attrs: Seq<Attribute>) -> Seq<Attribute> {
    attrs.filter(unmarked_pred(opts))
}

/// The attributes of `attrs` that are copied onto generated tests, in order.
pub open spec fn copied(opts: MacroOpts, attrs: Seq<Attribute>) -> Seq<Attribute> {
    attrs.filter(copied_pred(opts))
}

/// Filtering a prefix one element longer adds that element or nothing.
proof fn lemma_filter_step<A>(s: Seq<A>, i: int, p: spec_fn(A) -> bool)
    requires
        0 <= i < s.len(),
    ensures
        s.take(i + 1).filter(p) == (if p(s[i]) {
            s.take(i).filter(p).push(s[i])
        } else {
            s.take(i).filter(p)
        }),
{
    reveal(Seq::filter);
    assert(s.take(i + 1).drop_last() =~= s.take(i));
    assert(s.take(i + 1).last() == s[i]);
}

/// The attributes that a test record carries for a function with `attrs`:
/// its markers, then the copied attributes among those left on it.
pub open spec fn record_attrs(opts: MacroOpts, attrs: Seq<Attribute>) -> Seq<Attribute> {
    markers(opts, attrs) + copied(opts, unmarked(opts, attrs))
}

/// Takes the test markers off `item`. Returns `None`, with `item` left as it
/// is, where it has none; otherwise the markers in order followed by the
/// copied attributes among those left on it.
pub fn extract_test_attrs(opts: &MacroOpts, item: &mut ItemFn) -> (r: Option<Vec<Attribute>>)
    ensures
        markers(*opts, old(item).attrs@).len() == 0 ==> r is None && *final(item) == *old(item),
        markers(*opts, old(item).attrs@).len() > 0 ==> r is Some && r->Some_0@ == record_attrs(
            *opts,
            old(item).attrs@,
        ) && final(item).attrs@ == unmarked(*opts, old(item).attrs@) && final(item).is_async
            == old(item).is_async && final(item).is_unsafe == old(item).is_unsafe
            && final(item).ident == old(item).ident && final(item).generics == old(item).generics
            && final(item).output == old(item).output,
{
    let ghost orig = item.attrs@;
    let mut test_attrs: Vec<Attribute> = Vec::new();
    let mut pos: usize = 0;
    let ghost mut j: int = 0;
    while pos < item.attrs.len()
        invariant
            0 <= j <= orig.len(),
            item.attrs@ == unmarked(*opts, orig.take(j)) + orig.skip(j),
            pos == unmarked(*opts, orig.take(j)).len(),
            test_attrs@ == markers(*opts, orig.take(j)),
            test_attrs@.len() == 0 ==> *item == *old(item),
            item.is_async == old(item).is_async,
            item.is_unsafe == old(item).is_unsafe,
            item.ident == old(item).ident,
            item.generics == old(item).generics,
            item.output == old(item).output,
        decreases item.attrs.len() - pos,
    {
        proof {
            lemma_filter_step(orig, j, marker_pred(*opts));
            lemma_filter_step(orig, j, unmarked_pred(*opts));
            assert(orig.skip(j)[0] == orig[j]);
            assert(orig.skip(j).drop_first() =~= orig.skip(j + 1));
        }
        if opts.is_test_attr(&item.attrs[pos]) {
            let a = item.attrs.remove(pos);
            test_attrs.push(a);
            assert(item.attrs@ =~= unmarked(*opts, orig.take(j + 1)) + orig.skip(j + 1));
        } else {
            pos += 1;
            assert(item.attrs@ =~= unmarked(*opts, orig.take(j + 1)) + orig.skip(j + 1));
        }
        proof {
            j = j + 1;
        }
    }
    assert(j == orig.len()) by {
        if j < orig.len() {
            assert(item.attrs@.len() > pos);
        }
    }
    assert(orig.take(j) =~= orig);
    assert(item.attrs@ =~= unmarked(*opts, orig));
    if test_attrs.len() == 0 {
        return None;
    }
    let ghost base = test_attrs@;
    let ghost rest = item.attrs@;
    let mut i: usize = 0;
    while i < item.attrs.len()
        invariant
            i <= rest.len(),
            item.attrs@ == rest,
            test_attrs@ == base + copied(*opts, rest.take(i as int)),
        decreases rest.len() - i,
    {
        proof {
            lemma_filter_step(rest, i as int, copied_pred(*opts));
        }
        if opts.is_copied_attr(&item.attrs[i]) {
            test_attrs.push(item.attrs[i].duplicate());
        }
        i += 1;
        assert(test_attrs@ =~= base + copied(*opts, rest.take(i as int)));
    }
    assert(rest.take(rest.len() as int) =~= rest);
    Some(test_attrs)
}

pub open spec fn counts_toward_arity() -> spec_fn(GenericParam) -> bool {
    |p: GenericParam| !(p is Lifetime)
}

/// The generic arity of a function: its type and const parameters.
pub open spec fn arity(f: ItemFn) -> nat {
    f.generics.params@.filter(counts_toward_arity()).len()
}

fn generic_arity(generics: &Generics) -> (r: usize)
    ensures
        r == generics.params@.filter(counts_toward_arity()).len(),
{
    let ghost ps = generics.params@;
    let mut n: usize = 0;
    let mut i: usize = 0;
    while i < generics.params.len()
        invariant
            i <= ps.len(),
            generics.params@ == ps,
            n == ps.take(i as int).filter(counts_toward_arity()).len(),
            n <= i,
        decreases ps.len() - i,
    {
        proof {
            lemma_filter_step(ps, i as int, counts_toward_arity());
        }
        match &generics.params[i] {
            GenericParam::Lifetime(_) => {},
            _ => {
                n += 1;
            },
        }
        i += 1;
    }
    assert(ps.take(ps.len() as int) =~= ps);
    n
}

/// The number of test functions among `items`.
pub open spec fn candidate_count(opts: MacroOpts, items: Seq<Item>) -> nat
    decreases items.len(),
{
    if items.len() == 0 {
        0
    } else {
        candidate_count(opts, items.drop_last()) + if is_candidate(opts, items.last()) {
            1nat
        } else {
            0nat
        }
    }
}

/// `item` is a function with at least one test marker.
pub open spec fn is_candidate(opts: MacroOpts, item: Item) -> bool {
    item is Fn && markers(opts, item->Fn_0.attrs@).len() > 0
}

/// The signature outcome that belongs to the test function after `pre`.
pub open spec fn sig_after<S>(
    opts: MacroOpts,
    pre: Seq<Item>,
    sigs: Seq<Result<S, ExtractError>>,
) -> Result<S, ExtractError> {
    sigs[candidate_count(opts, pre) as int]
}

/// The arity of the first test function among `items` whose signature was
/// built, if there is one.
pub open spec fn baseline<S>(
    opts: MacroOpts,
    items: Seq<Item>,
    sigs: Seq<Result<S, ExtractError>>,
) -> Option<nat>
    decreases items.len(),
{
    if items.len() == 0 {
        None
    } else {
        let pre = items.drop_last();
        let b = baseline(opts, pre, sigs);
        if b is None && is_candidate(opts, items.last()) && sig_after(opts, pre, sigs) is Ok {
            Some(arity(items.last()->Fn_0))
        } else {
            b
        }
    }
}

/// `item`, standing after `pre`, is a test function that is accepted.
pub open spec fn accepts<S>(
    opts: MacroOpts,
    pre: Seq<Item>,
    item: Item,
    sigs: Seq<Result<S, ExtractError>>,
) -> bool {
    let b = baseline(opts, pre, sigs);
    is_candidate(opts, item) && sig_after(opts, pre, sigs) is Ok && (b is None || b->Some_0 == arity(
        item->Fn_0,
    ))
}

/// The failures that `item`, standing after `pre`, gives rise to.
pub open spec fn errors_at<S>(
    opts: MacroOpts,
    pre: Seq<Item>,
    item: Item,
    sigs: Seq<Result<S, ExtractError>>,
) -> Seq<ExtractError> {
    if !is_candidate(opts, item) {
        seq![]
    } else {
        match sig_after(opts, pre, sigs) {
            Err(e) => seq![e],
            Ok(_) => match baseline(opts, pre, sigs) {
                Some(n) => if n != arity(item->Fn_0) {
                    seq![
                        ExtractError::ArityMismatch {
                            span: item->Fn_0.generics.span,
                            ident: item->Fn_0.ident,
                            arity: arity(item->Fn_0) as usize,
                            baseline: n as usize,
                        },
                    ]
                } else {
                    seq![]
                },
                None => seq![],
            },
        }
    }
}

/// All failures of a pass over `items`, in declaration order.
pub open spec fn errors_of<S>(
    opts: MacroOpts,
    items: Seq<Item>,
    sigs: Seq<Result<S, ExtractError>>,
) -> Seq<ExtractError>
    decreases items.len(),
{
    if items.len() == 0 {
        seq![]
    } else {
        let pre = items.drop_last();
        errors_of(opts, pre, sigs) + errors_at(opts, pre, items.last(), sigs)
    }
}

/// The positions of the accepted test functions among `items`, in order.
pub open spec fn accepted<S>(
    opts: MacroOpts,
    items: Seq<Item>,
    sigs: Seq<Result<S, ExtractError>>,
) -> Seq<int>
    decreases items.len(),
{
    if items.len() == 0 {
        seq![]
    } else {
        let pre = items.drop_last();
        let a = accepted(opts, pre, sigs);
        if accepts(opts, pre, items.last(), sigs) {
            a.push(items.len() - 1)
        } else {
            a
        }
    }
}

/// `after` is `before` once its test markers are taken off: a test
/// function loses exactly its markers, anything else stays as it is.
pub open spec fn stripped(opts: MacroOpts, before: Item, after: Item) -> bool {
    if is_candidate(opts, before) {
        let f = before->Fn_0;
        &&& after is Fn
        &&& after->Fn_0.attrs@ == unmarked(opts, f.attrs@)
        &&& after->Fn_0.is_async == f.is_async
        &&& after->Fn_0.is_unsafe == f.is_unsafe
        &&& after->Fn_0.ident == f.ident
        &&& after->Fn_0.generics == f.generics
        &&& after->Fn_0.output == f.output
    } else {
        after == before
    }
}

/// `t` is the record of test function `f`, whose signature was built as `sig`.
pub open spec fn record_of<S>(opts: MacroOpts, t: TestFn<S>, f: ItemFn, sig: S) -> bool {
    &&& t.test_attrs@ == record_attrs(opts, f.attrs@)
    &&& t.asyncness == f.is_async
    &&& t.unsafety == f.is_unsafe
    &&& t.ident == f.ident
    &&& t.output == f.output
    &&& t.sig == sig
}

/// The records of a pass over `items` are those of its accepted functions.
pub open spec fn records_match<S>(
    opts: MacroOpts,
    tests: Seq<TestFn<S>>,
    items: Seq<Item>,
    sigs: Seq<Result<S, ExtractError>>,
) -> bool {
    let acc = accepted(opts, items, sigs);
    &&& tests.len() == acc.len()
    &&& forall|k: int|
        0 <= k < acc.len() ==> record_of(
            opts,
            #[trigger] tests[k],
            items[acc[k]]->Fn_0,
            sig_after(opts, items.take(acc[k]), sigs)->Ok_0,
        )
}

proof fn lemma_accepted_bounds<S>(
    opts: MacroOpts,
    items: Seq<Item>,
    sigs: Seq<Result<S, ExtractError>>,
)
    ensures
        forall|k: int|
            0 <= k < accepted(opts, items, sigs).len() ==> 0 <= #[trigger] accepted(
                opts,
                items,
                sigs,
            )[k] < items.len(),
    decreases items.len(),
{
    if items.len() > 0 {
        let pre = items.drop_last();
        lemma_accepted_bounds(opts, pre, sigs);
        let a = accepted(opts, pre, sigs);
        assert forall|k: int| 0 <= k < accepted(opts, items, sigs).len() implies 0
            <= #[trigger] accepted(opts, items, sigs)[k] < items.len() by {
            if k < a.len() {
                assert(0 <= a[k] < pre.len());
            }
        }
    }
}

/// Every accepted test function of a pass has the same generic arity: that of
/// the first test function whose signature was built.
pub proof fn lemma_accepted_share_arity<S>(
    opts: MacroOpts,
    items: Seq<Item>,
    sigs: Seq<Result<S, ExtractError>>,
)
    ensures
        baseline(opts, items, sigs) is None ==> accepted(opts, items, sigs).len() == 0,
        forall|k: int|
            0 <= k < accepted(opts, items, sigs).len() ==> arity(
                items[#[trigger] accepted(opts, items, sigs)[k]]->Fn_0,
            ) == baseline(opts, items, sigs)->Some_0,
    decreases items.len(),
{
    if items.len() > 0 {
        let pre = items.drop_last();
        lemma_accepted_share_arity(opts, pre, sigs);
        lemma_accepted_bounds(opts, pre, sigs);
        let pa = accepted(opts, pre, sigs);
        let acc = accepted(opts, items, sigs);
        assert forall|k: int| 0 <= k < acc.len() implies arity(items[#[trigger] acc[k]]->Fn_0)
            == baseline(opts, items, sigs)->Some_0 by {
            if k < pa.len() {
                assert(acc[k] == pa[k]);
                assert(items[acc[k]] == pre[pa[k]]);
            }
        }
    }
}

/// A function without test markers is left as it is by a pass and has no
/// record.
pub proof fn lemma_unmarked_fn_untouched<S>(
    opts: MacroOpts,
    items: Seq<Item>,
    sigs: Seq<Result<S, ExtractError>>,
    after: Item,
    i: int,
)
    requires
        0 <= i < items.len(),
        items[i] is Fn,
        markers(opts, items[i]->Fn_0.attrs@).len() == 0,
        stripped(opts, items[i], after),
    ensures
        after == items[i],
        !accepted(opts, items, sigs).contains(i),
    decreases items.len(),
{
    let pre = items.drop_last();
    lemma_accepted_bounds(opts, pre, sigs);
    let pa = accepted(opts, pre, sigs);
    let acc = accepted(opts, items, sigs);
    if i < items.len() - 1 {
        assert(pre[i] == items[i]);
        lemma_unmarked_fn_untouched(opts, pre, sigs, after, i);
    }
    assert forall|k: int| 0 <= k < acc.len() implies acc[k] != i by {
        if k < pa.len() {
            assert(acc[k] == pa[k]);
            assert(pa[k] < pre.len());
        }
    }
}

/// A test function whose signature was built but whose generic arity differs
/// from the one set before it is left out of the records, and the pass
/// reports a mismatch that names it.
pub proof fn lemma_arity_mismatch_reported<S>(
    opts: MacroOpts,
    items: Seq<Item>,
    sigs: Seq<Result<S, ExtractError>>,
    i: int,
)
    requires
        0 <= i < items.len(),
        is_candidate(opts, items[i]),
        sig_after(opts, items.take(i), sigs) is Ok,
        baseline(opts, items.take(i), sigs) is Some,
        baseline(opts, items.take(i), sigs)->Some_0 != arity(items[i]->Fn_0),
    ensures
        !accepted(opts, items, sigs).contains(i),
        errors_of(opts, items, sigs).contains(
            ExtractError::ArityMismatch {
                span: items[i]->Fn_0.generics.span,
                ident: items[i]->Fn_0.ident,
                arity: arity(items[i]->Fn_0) as usize,
                baseline: baseline(opts, items.take(i), sigs)->Some_0 as usize,
            },
        ),
    decreases items.len(),
{
    let pre = items.drop_last();
    let e = ExtractError::ArityMismatch {
        span: items[i]->Fn_0.generics.span,
        ident: items[i]->Fn_0.ident,
        arity: arity(items[i]->Fn_0) as usize,
        baseline: baseline(opts, items.take(i), sigs)->Some_0 as usize,
    };
    lemma_accepted_bounds(opts, pre, sigs);
    let pa = accepted(opts, pre, sigs);
    if i == items.len() - 1 {
        assert(pre =~= items.take(i));
        assert(errors_at(opts, pre, items.last(), sigs) == seq![e]);
        assert(errors_of(opts, items, sigs).last() == e);
        assert(accepted(opts, items, sigs) == pa);
        assert forall|k: int| 0 <= k < pa.len() implies pa[k] != i by {
            assert(pa[k] < pre.len());
        }
    } else {
        assert(pre.take(i) =~= items.take(i));
        assert(pre[i] == items[i]);
        lemma_arity_mismatch_reported(opts, pre, sigs, i);
        let pe = errors_of(opts, pre, sigs);
        let j = choose|j: int| 0 <= j < pe.len() && pe[j] == e;
        assert(errors_of(opts, items, sigs)[j] == e);
        let acc = accepted(opts, items, sigs);
        assert forall|k: int| 0 <= k < acc.len() implies acc[k] != i by {
            if k < pa.len() {
                assert(acc[k] == pa[k]);
            }
        }
    }
}

proof fn lemma_candidate_count_prefix(opts: MacroOpts, items: Seq<Item>, i: int)
    requires
        0 <= i < items.len(),
    ensures
        candidate_count(opts, items.take(i + 1)) == candidate_count(opts, items.take(i)) + if is_candidate(opts, items[i]) {
            1nat
        } else {
            0nat
        },
        candidate_count(opts, items.take(i + 1)) <= candidate_count(opts, items),
    decreases items.len(),
{
    assert(items.take(i + 1).drop_last() =~= items.take(i));
    if i + 1 < items.len() {
        let pre = items.drop_last();
        assert(pre.take(i + 1) =~= items.take(i + 1));
        assert(pre.take(i) =~= items.take(i));
        lemma_candidate_count_prefix(opts, pre, i);
    } else {
        assert(items.take(i + 1) =~= items);
    }
}

/// `after` is module `before` once the test markers of its test functions
/// are taken off; its attributes, name and location are kept.
pub open spec fn module_stripped(opts: MacroOpts, before: ItemMod, after: ItemMod) -> bool {
    let items = before.content->Some_0@;
    &&& after.attrs == before.attrs
    &&& after.ident == before.ident
    &&& after.span == before.span
    &&& after.content is Some
    &&& after.content->Some_0@.len() == items.len()
    &&& forall|i: int|
        0 <= i < items.len() ==> stripped(opts, items[i], #[trigger] after.content->Some_0@[i])
}

impl<S> Tests<S> {
    /// Extracts the test functions of module `ast`. `sigs` holds what the
    /// signature builder made of each function declaration of the module, in
    /// declaration order. Test markers are taken off the test functions even
    /// where the extraction fails: the module is then not meant to be used.
    pub fn try_extract(
        opts: &MacroOpts,
        ast: &mut ItemMod,
        sigs: Vec<Result<S, ExtractError>>,
    ) -> (r: Result<Tests<S>, Vec<ExtractError>>)
        requires
            old(ast).content is Some ==> sigs@.len() == candidate_count(*opts, old(ast).content->Some_0@),
        ensures
            old(ast).content is None ==> *final(ast) == *old(ast) && r is Err && r->Err_0@ == seq![
                ExtractError::NotInline { span: old(ast).span },
            ],
            old(ast).content is Some ==> ({
                let items = old(ast).content->Some_0@;
                let errs = errors_of(*opts, items, sigs@);
                &&& module_stripped(*opts, *old(ast), *final(ast))
                &&& r is Ok <==> errs.len() == 0
                &&& r is Ok ==> records_match(*opts, r->Ok_0.test_fns@, items, sigs@)
                &&& r is Err ==> r->Err_0@ == errs
            }),
    {
        let mut content: Option<Vec<Item>> = None;
        std::mem::swap(&mut ast.content, &mut content);
        match content {
            None => Err(vec![ExtractError::NotInline { span: ast.span }]),
            Some(items) => {
                let mut items = items;
                let (tests, errors) = Self::extract_recording_errors(opts, &mut items, sigs);
                ast.content = Some(items);
                match errors.check() {
                    Ok(()) => Ok(tests),
                    Err(e) => Err(e),
                }
            },
        }
    }

    /// One pass over `items`: strips the test markers of each test function,
    /// takes the signature outcome of each function declaration from `sigs` in
    /// order, and records every failure instead of stopping at the first.
    pub fn extract_recording_errors(
        opts: &MacroOpts,
        items: &mut Vec<Item>,
        sigs: Vec<Result<S, ExtractError>>,
    ) -> (r: (Tests<S>, ErrorRecord))
        requires
            sigs@.len() == candidate_count(*opts, old(items)@),
        ensures
            final(items)@.len() == old(items)@.len(),
            forall|i: int|
                0 <= i < old(items)@.len() ==> stripped(
                    *opts,
                    old(items)@[i],
                    #[trigger] final(items)@[i],
                ),
            records_match(*opts, r.0.test_fns@, old(items)@, sigs@),
            r.1@ == errors_of(*opts, old(items)@, sigs@),
    {
        let ghost old_items = items@;
        let ghost all_sigs = sigs@;
        let mut sigs = sigs;
        let mut test_fns: Vec<TestFn<S>> = Vec::new();
        let mut errors = ErrorRecord::new();
        let mut mod_wide_generic_arity: Option<usize> = None;
        let mut i: usize = 0;
        while i < items.len()
            invariant
                items@.len() == old_items.len(),
                i <= old_items.len(),
                all_sigs.len() == candidate_count(*opts, old_items),
                forall|j: int|
                    0 <= j < i ==> stripped(*opts, old_items[j], #[trigger] items@[j]),
                forall|j: int| i <= j < old_items.len() ==> #[trigger] items@[j] == old_items[j],
                candidate_count(*opts, old_items.take(i as int)) <= all_sigs.len(),
                sigs@ == all_sigs.skip(candidate_count(*opts, old_items.take(i as int)) as int),
                mod_wide_generic_arity is None <==> baseline(
                    *opts,
                    old_items.take(i as int),
                    all_sigs,
                ) is None,
                mod_wide_generic_arity is Some ==> mod_wide_generic_arity->Some_0 == baseline(
                    *opts,
                    old_items.take(i as int),
                    all_sigs,
                )->Some_0,
                errors@ == errors_of(*opts, old_items.take(i as int), all_sigs),
                records_match(*opts, test_fns@, old_items.take(i as int), all_sigs),
            decreases old_items.len() - i,
        {
            let ghost pre = old_items.take(i as int);
            let ghost cur = old_items.take(i + 1);
            proof {
                lemma_candidate_count_prefix(*opts, old_items, i as int);
                assert(cur.drop_last() =~= pre);
                assert(cur.last() == old_items[i as int]);
            }
            let is_fn = match &items[i] {
                Item::Fn(_) => true,
                Item::Other(_) => false,
            };
            if is_fn {
                let it = items.remove(i);
                let mut f = match it {
                    Item::Fn(f) => f,
                    Item::Other(_) => {
                        proof {
                            assert(false);
                        }
                        return (Tests { test_fns }, errors);
                    },
                };
                let found = extract_test_attrs(opts, &mut f);
                match found {
                    None => {
                        items.insert(i, Item::Fn(f));
                    },
                    Some(test_attrs) => {
                        let sig = sigs.remove(0);
                        assert(sigs@ =~= all_sigs.skip(candidate_count(*opts, cur) as int));
                        let fn_generic_arity = generic_arity(&f.generics);
                        match sig {
                            Err(e) => {
                                errors.add_error(e);
                            },
                            Ok(sig) => {
                                let mut ok = true;
                                match mod_wide_generic_arity {
                                    None => {
                                        mod_wide_generic_arity = Some(fn_generic_arity);
                                    },
                                    Some(n) => {
                                        if fn_generic_arity != n {
                                            errors.add_error(
                                                ExtractError::ArityMismatch {
                                                    span: f.generics.span,
                                                    ident: f.ident.clone(),
                                                    arity: fn_generic_arity,
                                                    baseline: n,
                                                },
                                            );
                                            ok = false;
                                        }
                                    },
                                }
                                if ok {
                                    test_fns.push(
                                        TestFn {
                                            test_attrs,
                                            asyncness: f.is_async,
                                            unsafety: f.is_unsafe,
                                            ident: f.ident.clone(),
                                            output: f.output.duplicate(),
                                            sig,
                                        },
                                    );
                                }
                            },
                        }
                        items.insert(i, Item::Fn(f));
                    },
                }
            }
            proof {
                assert(errors@ =~= errors_of(*opts, cur, all_sigs));
                let acc = accepted(*opts, cur, all_sigs);
                lemma_accepted_bounds(*opts, pre, all_sigs);
                let pa = accepted(*opts, pre, all_sigs);
                assert forall|k: int| 0 <= k < acc.len() implies record_of(
                    *opts,
                    #[trigger] test_fns@[k],
                    cur[acc[k]]->Fn_0,
                    sig_after(*opts, cur.take(acc[k]), all_sigs)->Ok_0,
                ) by {
                    if k < pa.len() {
                        assert(acc[k] == pa[k]);
                        assert(cur.take(acc[k]) =~= pre.take(pa[k]));
                        assert(cur[acc[k]] == pre[pa[k]]);
                    } else {
                        assert(acc[k] == i);
                        assert(cur.take(acc[k]) =~= pre);
                    }
                }
            }
            i += 1;
        }
        assert(old_items.take(old_items.len() as int) =~= old_items);
        (Tests { test_fns }, errors)
    }
}

/// `outcome` is one that parsing `tokens` as an angle-bracketed list of
/// generic arguments can give: the arguments printed as tokens, or the
/// parser's message. How tokens are lexed and printed depends on whether the
/// process runs inside a procedural macro, so this is a relation, not a
/// function of `tokens`.
pub uninterp spec fn generic_args_outcome(
    tokens: Seq<char>,
    outcome: Result<Seq<Seq<char>>, Seq<char>>,
) -> bool;

/// The parse outcome as plain values.
pub open spec fn outcome_view(r: Result<Vec<String>, String>) -> Result<
    Seq<Seq<char>>,
    Seq<char>,
> {
    match r {
        Ok(args) => Ok(args@.map_values(|a: String| a@)),
        Err(message) => Err(message@),
    }
}

/// Relies on `syn::parse_str::<syn::AngleBracketedGenericArguments>` to parse
/// `tokens`, on `quote::ToTokens` to print each argument back as tokens, and on
/// the `Display` of `syn::Error` for the parser's message. The outcome is one
/// that parsing `tokens` gives; nothing more is claimed of it.
#[verifier::external_body]
fn parse_generic_args(tokens: &String) -> (r: Result<Vec<String>, String>)
    ensures
        generic_args_outcome(tokens@, outcome_view(r)),
{
    match syn::parse_str::<syn::AngleBracketedGenericArguments>(tokens) {
        Ok(parsed) => Ok(
            parsed.args.iter().map(|a| quote::ToTokens::to_token_stream(a).to_string()).collect(),
        ),
        Err(e) => Err(e.to_string()),
    }
}

/// The generic arguments named by a module's instantiation directive, each as
/// tokens, in order.
#[derive(Clone, Debug, PartialEq, Eq)]
pub struct InstArguments(pub Vec<String>);

impl View for InstArguments {
    type V = Seq<Seq<char>>;

    open spec fn view(&self) -> Seq<Seq<char>> {
        self.0@.map_values(|a: String| a@)
    }
}

/// `a` is the instantiation directive.
pub open spec fn is_directive(a: Attribute) -> bool {
    a.path@ == DIRECTIVE_NAME@
}

/// No attribute of `attrs` at a position in `from..to` is the directive.
pub open spec fn no_directive_in(attrs: Seq<Attribute>, from: int, to: int) -> bool {
    forall|j: int| from <= j < to ==> !is_directive(#[trigger] attrs[j])
}

/// `p` is the position of the first directive at or after `from`.
pub open spec fn next_directive(attrs: Seq<Attribute>, from: int, p: int) -> bool {
    &&& from <= p < attrs.len()
    &&& is_directive(attrs[p])
    &&& no_directive_in(attrs, from, p)
}

/// What applying the parse outcome `parsed` of the directive at `pos` to
/// module `before` does: the arguments are returned and that attribute taken
/// off, or the parser's message is returned and the module left as it is.
pub open spec fn directive_applied(
    before: ItemMod,
    after: ItemMod,
    pos: int,
    parsed: Result<Vec<String>, String>,
    r: Result<Option<InstArguments>, ExtractError>,
) -> bool {
    match parsed {
        Ok(args) => {
            &&& r == Ok::<Option<InstArguments>, ExtractError>(Some(InstArguments(args)))
            &&& after.attrs@ == before.attrs@.remove(pos)
            &&& after.ident == before.ident
            &&& after.content == before.content
            &&& after.span == before.span
        },
        Err(message) => {
            &&& r == Err::<Option<InstArguments>, ExtractError>(
                ExtractError::MalformedArguments { span: before.attrs@[pos].span, message },
            )
            &&& after == before
        },
    }
}

/// What extracting the directive of module `before` does: `after` is the
/// module afterwards and `r` the outcome. A module with no directive is left
/// as it is. The directive must be an outer attribute, the only one of its
/// name, with an angle-bracketed list of generic arguments; it is then taken
/// off the module and its arguments returned. Otherwise the module is left as
/// it is and the first problem found is returned. Otherwise the directive's
/// argument tokens are parsed, and an outcome of that parse is applied as
/// `directive_applied` says.
pub open spec fn directive_extraction(
    before: ItemMod,
    after: ItemMod,
    r: Result<Option<InstArguments>, ExtractError>,
) -> bool {
    let attrs = before.attrs@;
    if no_directive_in(attrs, 0, attrs.len() as int) {
        r is Ok && r->Ok_0 is None && after == before
    } else {
        let p = choose|p: int| #[trigger] next_directive(attrs, 0, p);
        let a = attrs[p];
        if a.style is Inner {
            r == Err::<Option<InstArguments>, ExtractError>(
                ExtractError::InnerDirective { span: a.span },
            ) && after == before
        } else if !no_directive_in(attrs, p + 1, attrs.len() as int) {
            let q = choose|q: int| #[trigger] next_directive(attrs, p + 1, q);
            r == Err::<Option<InstArguments>, ExtractError>(
                ExtractError::DuplicateDirective { span: attrs[q].span },
            ) && after == before
        } else if a.args is None {
            r == Err::<Option<InstArguments>, ExtractError>(
                ExtractError::MissingArguments { span: a.span },
            ) && after == before
        } else {
            exists|parsed: Result<Vec<String>, String>|
                #[trigger] directive_applied(before, after, p, parsed, r)
                    && generic_args_outcome(a.args->Some_0@, outcome_view(parsed))
        }
    }
}

proof fn lemma_next_directive_exists(attrs: Seq<Attribute>, from: int)
    requires
        0 <= from,
        !no_directive_in(attrs, from, attrs.len() as int),
    ensures
        exists|p: int| #[trigger] next_directive(attrs, from, p),
    decreases attrs.len() - from,
{
    if is_directive(attrs[from]) {
        assert(next_directive(attrs, from, from));
    } else {
        lemma_next_directive_exists(attrs, from + 1);
        let p = choose|p: int| #[trigger] next_directive(attrs, from + 1, p);
        assert(next_directive(attrs, from, p));
    }
}

/// Extracting the directive again, from a module it was taken off, finds no
/// directive and leaves the module as it is.
pub proof fn lemma_directive_extraction_idempotent(
    m0: ItemMod,
    m1: ItemMod,
    m2: ItemMod,
    r1: Result<Option<InstArguments>, ExtractError>,
    r2: Result<Option<InstArguments>, ExtractError>,
)
    requires
        directive_extraction(m0, m1, r1),
        r1 is Ok,
        directive_extraction(m1, m2, r2),
    ensures
        r2 is Ok && r2->Ok_0 is None,
        m2 == m1,
{
    let attrs = m0.attrs@;
    if !no_directive_in(attrs, 0, attrs.len() as int) {
        lemma_next_directive_exists(attrs, 0);
        let p = choose|p: int| #[trigger] next_directive(attrs, 0, p);
        let a = attrs[p];
        assert(next_directive(attrs, 0, p));
        assert(!(a.style is Inner));
        assert(no_directive_in(attrs, p + 1, attrs.len() as int));
        assert(a.args is Some);
        let parsed = choose|parsed: Result<Vec<String>, String>| #[trigger]
            directive_applied(m0, m1, p, parsed, r1);
        assert(parsed is Ok);
        let rest = m1.attrs@;
        assert(rest == attrs.remove(p));
        assert forall|j: int| 0 <= j < rest.len() implies !is_directive(#[trigger] rest[j]) by {
            if j < p {
                assert(rest[j] == attrs[j]);
            } else {
                assert(rest[j] == attrs[j + 1]);
            }
        }
    }
}

fn find_directive(attrs: &Vec<Attribute>, from: usize) -> (r: Option<usize>)
    requires
        from <= attrs@.len(),
    ensures
        r is None ==> no_directive_in(attrs@, from as int, attrs@.len() as int),
        r is Some ==> next_directive(attrs@, from as int, r->Some_0 as int),
{
    let name = DIRECTIVE_NAME.to_owned();
    proof {
        reveal_strlit("instantiate_tests");
    }
    let mut i: usize = from;
    while i < attrs.len()
        invariant
            from <= i <= attrs@.len(),
            name@ == DIRECTIVE_NAME@,
            no_directive_in(attrs@, from as int, i as int),
        decreases attrs@.len() - i,
    {
        if attrs[i].path == name {
            return Some(i);
        }
        i += 1;
    }
    None
}

impl InstArguments {
    /// Takes the instantiation directive off module `item` and returns the
    /// generic arguments that it lists, or `None` where the module has no
    /// directive. A second directive on the module is an error.
    pub fn try_extract(item: &mut ItemMod) -> (r: Result<Option<InstArguments>, ExtractError>)
        ensures
            directive_extraction(*old(item), *final(item), r),
    {
        let ghost attrs = item.attrs@;
        let pos = match find_directive(&item.attrs, 0) {
            None => {
                return Ok(None);
            },
            Some(pos) => pos,
        };
        proof {
            let p = choose|p: int| #[trigger] next_directive(attrs, 0, p);
            assert(p == pos) by {
                if p < pos {
                    assert(!is_directive(attrs[p]));
                } else if p > pos {
                    assert(!is_directive(attrs[pos as int]));
                }
            }
        }
        assert(pos < item.attrs.len());
        let span = item.attrs[pos].span;
        match item.attrs[pos].style {
            AttrStyle::Inner => {
                return Err(ExtractError::InnerDirective { span });
            },
            AttrStyle::Outer => {},
        }
        match find_directive(&item.attrs, pos + 1) {
            Some(q) => {
                proof {
                    let q2 = choose|q2: int| #[trigger] next_directive(attrs, pos + 1, q2);
                    assert(q2 == q) by {
                        if q2 < q {
                            assert(!is_directive(attrs[q2]));
                        } else if q2 > q {
                            assert(!is_directive(attrs[q as int]));
                        }
                    }
                }
                return Err(ExtractError::DuplicateDirective { span: item.attrs[q].span });
            },
            None => {},
        }
        let parsed = match &item.attrs[pos].args {
            None => {
                return Err(ExtractError::MissingArguments { span });
            },
            Some(tokens) => parse_generic_args(tokens),
        };
        let ghost chosen = parsed;
        let r = apply_directive(item, pos, parsed);
        assert(directive_applied(*old(item), *item, pos as int, chosen, r));
        assert(generic_args_outcome(
            old(item).attrs@[pos as int].args->Some_0@,
            outcome_view(chosen),
        ));
        r
    }
}

/// Applies the parse outcome `parsed` of the directive at `pos` to `item`:
/// on success takes that attribute off and returns the arguments, on failure
/// returns the parser's message and leaves `item` as it is.
pub fn apply_directive(
    item: &mut ItemMod,
    pos: usize,
    parsed: Result<Vec<String>, String>,
) -> (r: Result<Option<InstArguments>, ExtractError>)
    requires
        pos < old(item).attrs@.len(),
    ensures
        directive_applied(*old(item), *final(item), pos as int, parsed, r),
{
    match parsed {
        Err(message) => Err(ExtractError::MalformedArguments { span: item.attrs[pos].span, message }),
        Ok(args) => {
            item.attrs.remove(pos);
            Ok(Some(InstArguments(args)))
        },
    }
}

} // verus!
