//! Properties of whole resolutions, stated over the answers that the sources
//! give, in the order the queries are owed.
use crate::context::{context_outcome, documents_of};
use crate::error::ResolveErrorView;
use crate::fanout::{batches_of, run, FanOutView};
use crate::registry::{found_names, missing_names, texts};
use crate::render::{DocumentView, RetrievedItem};
use crate::tools::tool_outcome;
use vstd::prelude::*;

verus! {

broadcast use Seq::lemma_flatten_push;

/// Mapping items to documents commutes with concatenating batches.
pub proof fn lemma_documents_of_flatten(bs: Seq<Seq<RetrievedItem>>)
    ensures
        documents_of(bs.flatten()) == bs.map_values(|b: Seq<RetrievedItem>| documents_of(b)).flatten(),
    decreases bs.len(),
{
    if bs.len() > 0 {
        let init = bs.drop_last();
        lemma_documents_of_flatten(init);
        assert(bs =~= init.push(bs.last()));
        let m = bs.map_values(|b: Seq<RetrievedItem>| documents_of(b));
        assert(m =~= init.map_values(|b: Seq<RetrievedItem>| documents_of(b)).push(documents_of(bs.last())));
        assert(documents_of(init.flatten() + bs.last()) =~= documents_of(init.flatten()) + documents_of(bs.last()));
    }
}

/// While every answer succeeds, a fan-out holds them all as batches, in
/// order, and owes the next source.
pub proof fn lemma_run_all_ok<T>(counts: Seq<usize>, answers: Seq<Result<Seq<T>, Seq<char>>>)
    requires
        answers.len() <= counts.len(),
        forall|k: int| 0 <= k < answers.len() ==> answers[k] is Ok,
    ensures
        run(counts, answers) == (FanOutView { counts, batches: batches_of(answers), failure: None }),
    decreases answers.len(),
{
    if answers.len() > 0 {
        lemma_run_all_ok(counts, answers.drop_last());
        assert(batches_of(answers) =~= batches_of(answers.drop_last()).push(answers.last()->Ok_0));
    } else {
        assert(batches_of(answers) =~= Seq::<Seq<T>>::empty());
    }
}

/// Once a source has failed, no further answer changes a fan-out.
pub proof fn lemma_run_after_failure<T>(
    counts: Seq<usize>,
    answers: Seq<Result<Seq<T>, Seq<char>>>,
    k: int,
    m: Seq<char>,
)
    requires
        0 <= k < answers.len(),
        k < counts.len(),
        answers[k] == Err::<Seq<T>, Seq<char>>(m),
        forall|j: int| 0 <= j < k ==> answers[j] is Ok,
    ensures
        run(counts, answers) == (FanOutView {
            counts,
            batches: batches_of(answers.subrange(0, k)),
            failure: Some(m),
        }),
    decreases answers.len(),
{
    if answers.len() == k + 1 {
        assert(answers.drop_last() =~= answers.subrange(0, k));
        lemma_run_all_ok(counts, answers.subrange(0, k));
    } else {
        assert(answers.drop_last()[k] == answers[k]);
        lemma_run_after_failure(counts, answers.drop_last(), k, m);
        assert(answers.drop_last().subrange(0, k) =~= answers.subrange(0, k));
    }
}

/// When every context source answers, the documents are each source's
/// items in the order it gave them, the sources taken in their configured
/// order.
pub proof fn law_context_order(counts: Seq<usize>, answers: Seq<Result<Seq<RetrievedItem>, Seq<char>>>)
    requires
        answers.len() == counts.len(),
        forall|k: int| 0 <= k < answers.len() ==> answers[k] is Ok,
    ensures
        run(counts, answers).pending() is None,
        context_outcome(run(counts, answers)) == Ok::<Seq<DocumentView>, ResolveErrorView>(
            batches_of(answers).map_values(|b: Seq<RetrievedItem>| documents_of(b)).flatten(),
        ),
{
    lemma_run_all_ok(counts, answers);
    lemma_documents_of_flatten(batches_of(answers));
}

/// When a source fails, the fan-out stops there, having issued no query to a
/// later source, and its outcome is that failure alone.
pub proof fn law_failure_is_terminal<T>(
    counts: Seq<usize>,
    answers: Seq<Result<Seq<T>, Seq<char>>>,
    k: int,
    m: Seq<char>,
)
    requires
        0 <= k < answers.len(),
        k < counts.len(),
        answers[k] == Err::<Seq<T>, Seq<char>>(m),
        forall|j: int| 0 <= j < k ==> answers[j] is Ok,
    ensures
        run(counts, answers).pending() is None,
        run(counts, answers).issued() == k + 1,
        run(counts, answers).outcome() == Err::<Seq<T>, ResolveErrorView>(
            ResolveErrorView::RetrievalFailure(m),
        ),
{
    lemma_run_after_failure(counts, answers, k, m);
}

/// When a context source fails, the context resolution yields that failure
/// and no documents.
pub proof fn law_context_failure(
    counts: Seq<usize>,
    answers: Seq<Result<Seq<RetrievedItem>, Seq<char>>>,
    k: int,
    m: Seq<char>,
)
    requires
        0 <= k < answers.len(),
        k < counts.len(),
        answers[k] == Err::<Seq<RetrievedItem>, Seq<char>>(m),
        forall|j: int| 0 <= j < k ==> answers[j] is Ok,
    ensures
        context_outcome(run(counts, answers)) == Err::<Seq<DocumentView>, ResolveErrorView>(
            ResolveErrorView::RetrievalFailure(m),
        ),
{
    law_failure_is_terminal(counts, answers, k, m);
}

/// When a tool source fails, the tool resolution yields that failure and no
/// tools, whatever the static tools were.
pub proof fn law_tool_failure(
    reg: Seq<Seq<char>>,
    static_names: Seq<Seq<char>>,
    counts: Seq<usize>,
    answers: Seq<Result<Seq<String>, Seq<char>>>,
    k: int,
    m: Seq<char>,
)
    requires
        0 <= k < answers.len(),
        k < counts.len(),
        answers[k] == Err::<Seq<String>, Seq<char>>(m),
        forall|j: int| 0 <= j < k ==> answers[j] is Ok,
    ensures
        tool_outcome(reg, static_names, run(counts, answers)) == Err::<
            (Seq<Seq<char>>, Seq<Seq<char>>),
            ResolveErrorView,
        >(ResolveErrorView::RetrievalFailure(m)),
{
    law_failure_is_terminal(counts, answers, k, m);
}

/// The tools to define are the static tools found, in list order, followed
/// by the retrieved tools found, in source and rank order.
pub proof fn law_static_before_dynamic(
    reg: Seq<Seq<char>>,
    static_names: Seq<Seq<char>>,
    f: FanOutView<String>,
)
    requires
        f.outcome() is Ok,
    ensures
        tool_outcome(reg, static_names, f) matches Ok((tools, _)) && {
            let n = found_names(reg, static_names).len() as int;
            &&& tools.subrange(0, n) == found_names(reg, static_names)
            &&& tools.subrange(n, tools.len() as int) == found_names(
                reg,
                texts(f.batches.flatten()),
            )
        },
{
    let ids = texts(f.batches.flatten());
    let tools = found_names(reg, static_names) + found_names(reg, ids);
    let n = found_names(reg, static_names).len() as int;
    assert(tools.subrange(0, n) =~= found_names(reg, static_names));
    assert(tools.subrange(n, tools.len() as int) =~= found_names(reg, ids));
}

/// A static name without a registered tool adds no tool and is reported as
/// missing; every registered static name still gives its tool; and the
/// resolution fails only where a source does.
pub proof fn law_missing_static_tool_skipped(
    reg: Seq<Seq<char>>,
    static_names: Seq<Seq<char>>,
    i: int,
    f: FanOutView<String>,
)
    requires
        0 <= i < static_names.len(),
        !reg.contains(static_names[i]),
    ensures
        found_names(reg, static_names) == found_names(reg, static_names.remove(i)),
        missing_names(reg, static_names).contains(static_names[i]),
        forall|j: int|
            0 <= j < static_names.len() && reg.contains(#[trigger] static_names[j])
                ==> found_names(reg, static_names).contains(static_names[j]),
        tool_outcome(reg, static_names, f) is Err <==> f.failure is Some,
{
    let s = static_names;
    let a = s.subrange(0, i);
    let b = s.subrange(i + 1, s.len() as int);
    let x = seq![s[i]];
    assert(s =~= a + x + b);
    assert(s.remove(i) =~= a + b);
    let p = |n: Seq<char>| reg.contains(n);
    let q = |n: Seq<char>| !reg.contains(n);
    Seq::filter_distributes_over_add(a + x, b, p);
    Seq::filter_distributes_over_add(a, x, p);
    Seq::filter_distributes_over_add(a, b, p);
    reveal_with_fuel(Seq::filter, 2);
    assert(x.filter(p) =~= Seq::<Seq<char>>::empty());
    assert(x.filter(q) =~= x);
    Seq::filter_distributes_over_add(a + x, b, q);
    Seq::filter_distributes_over_add(a, x, q);
    assert(missing_names(reg, s) == a.filter(q) + x + b.filter(q));
    assert(missing_names(reg, s)[a.filter(q).len() as int] == s[i]);
    assert forall|j: int| 0 <= j < s.len() && reg.contains(#[trigger] s[j]) implies found_names(
        reg,
        s,
    ).contains(s[j]) by {
        s.lemma_filter_contains(p, j);
    }
}

/// Resolution holds no hidden state: the same configuration, prompt text and
/// answers give the same documents and the same tools.
pub proof fn law_resolution_deterministic(
    reg: Seq<Seq<char>>,
    static_names: Seq<Seq<char>>,
    counts: Seq<usize>,
    context_answers: Seq<Result<Seq<RetrievedItem>, Seq<char>>>,
    tool_answers: Seq<Result<Seq<String>, Seq<char>>>,
    again_context: Seq<Result<Seq<RetrievedItem>, Seq<char>>>,
    again_tools: Seq<Result<Seq<String>, Seq<char>>>,
)
    requires
        again_context == context_answers,
        again_tools == tool_answers,
    ensures
        context_outcome(run(counts, again_context)) == context_outcome(run(counts, context_answers)),
        tool_outcome(reg, static_names, run(counts, again_tools)) == tool_outcome(
            reg,
            static_names,
            run(counts, tool_answers),
        ),
{
}

} // verus!
