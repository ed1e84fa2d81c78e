//! Runs of the page and item sequences against a scripted fetch function, and
//! what holds of every such run.
//!
//! A run is a number of pulls, each of which does what `step` followed by
//! `on_page` or `on_error` does to a sequence. The fetch function is given as
//! the list of its replies, call by call; a call past the end of that list
//! fails.
use vstd::prelude::*;
use crate::paginator::{after_page, ItemView};

verus! {

/// What one call of the fetch function returns: a page, with its items and
/// its continuation token, or a failure.
pub enum Reply<I> {
    Page(Seq<I>, Seq<char>),
    Failure,
}

/// What one pull hands to the consumer. A fetched page or a failure carries
/// the number of fetch calls made before it and the token that the call
/// received.
pub enum Pulled<I> {
    Page(nat, Seq<char>),
    Item(I),
    Failed(nat, Seq<char>),
    End,
}

/// The reply of fetch call `call`.
pub open spec fn reply<I>(script: Seq<Reply<I>>, call: nat) -> Reply<I> {
    if call < script.len() {
        script[call as int]
    } else {
        Reply::Failure
    }
}

/// The token that fetch call `call` receives in a run that was seeded with
/// `seed` and whose earlier calls all returned pages.
pub open spec fn asked<I>(seed: Seq<char>, script: Seq<Reply<I>>, call: nat) -> Seq<char> {
    if call == 0 {
        seed
    } else {
        match reply(script, (call - 1) as nat) {
            Reply::Page(_, token) => token,
            Reply::Failure => Seq::empty(),
        }
    }
}

/// One pull of a page sequence in state `state`, after `calls` fetch calls:
/// what it hands out, the state after it, and the number of calls after it.
pub open spec fn pull_page<I>(state: Option<Seq<char>>, script: Seq<Reply<I>>, calls: nat) -> (
    Pulled<I>,
    Option<Seq<char>>,
    nat,
) {
    match state {
        None => (Pulled::End, None, calls),
        Some(token) => match reply(script, calls) {
            Reply::Page(_, next) => (Pulled::Page(calls, token), after_page(next), calls + 1),
            Reply::Failure => (Pulled::Failed(calls, token), None, calls + 1),
        },
    }
}

/// What `pulls` pulls of a page sequence hand out.
pub open spec fn run_pages<I>(
    state: Option<Seq<char>>,
    script: Seq<Reply<I>>,
    calls: nat,
    pulls: nat,
) -> Seq<Pulled<I>>
    decreases pulls,
{
    if pulls == 0 {
        Seq::empty()
    } else {
        let (out, next, after) = pull_page(state, script, calls);
        seq![out] + run_pages(next, script, after, (pulls - 1) as nat)
    }
}

/// One pull of an item sequence: it fetches pages until one has an item, a
/// fetch fails, or the pages end.
pub open spec fn pull_item<I>(state: ItemView<I>, script: Seq<Reply<I>>, calls: nat) -> (
    Pulled<I>,
    ItemView<I>,
    nat,
)
    decreases script.len() - calls,
{
    if state.buffered.len() > 0 {
        (
            Pulled::Item(state.buffered[0]),
            ItemView { pages: state.pages, buffered: state.buffered.drop_first() },
            calls,
        )
    } else {
        match state.pages {
            None => (Pulled::End, state, calls),
            Some(token) => if calls < script.len() {
                match script[calls as int] {
                    Reply::Page(items, next) => pull_item(
                        ItemView { pages: after_page(next), buffered: items },
                        script,
                        calls + 1,
                    ),
                    Reply::Failure => (
                        Pulled::Failed(calls, token),
                        ItemView { pages: None, buffered: state.buffered },
                        calls + 1,
                    ),
                }
            } else {
                (
                    Pulled::Failed(calls, token),
                    ItemView { pages: None, buffered: state.buffered },
                    calls + 1,
                )
            },
        }
    }
}

/// What `pulls` pulls of an item sequence hand out.
pub open spec fn run_items<I>(
    state: ItemView<I>,
    script: Seq<Reply<I>>,
    calls: nat,
    pulls: nat,
) -> Seq<Pulled<I>>
    decreases pulls,
{
    if pulls == 0 {
        Seq::empty()
    } else {
        let (out, next, after) = pull_item(state, script, calls);
        seq![out] + run_items(next, script, after, (pulls - 1) as nat)
    }
}

/// `n` pulls that each end the sequence.
pub open spec fn ends<I>(n: nat) -> Seq<Pulled<I>> {
    Seq::new(n, |j: int| Pulled::End)
}

/// A script of `n` pages whose tokens are all non-empty but the last one.
pub open spec fn complete_script<I>(script: Seq<Reply<I>>, n: nat) -> bool {
    &&& script.len() == n
    &&& n >= 1
    &&& forall|k: int| 0 <= k < n ==> #[trigger] script[k] is Page
    &&& forall|k: int| 0 <= k < n - 1 ==> (#[trigger] script[k])->Page_1.len() > 0
    &&& script[n - 1]->Page_1.len() == 0
}

/// Once a page sequence has ended, every pull ends it again and calls no
/// fetch, whatever the fetch would return.
pub proof fn lemma_ended_pages_stay_ended<I>(script: Seq<Reply<I>>, calls: nat, pulls: nat)
    ensures
        pull_page(None, script, calls) == (Pulled::<I>::End, None::<Seq<char>>, calls),
        run_pages(None, script, calls, pulls) == ends::<I>(pulls),
    decreases pulls,
{
    if pulls > 0 {
        lemma_ended_pages_stay_ended(script, calls, (pulls - 1) as nat);
        assert(run_pages(None, script, calls, pulls) =~= ends::<I>(pulls));
    }
}

/// Once an item sequence has ended, every pull ends it again and calls no
/// fetch, whatever the fetch would return.
pub proof fn lemma_ended_items_stay_ended<I>(script: Seq<Reply<I>>, calls: nat, pulls: nat)
    ensures
        pull_item(ItemView { pages: None, buffered: Seq::empty() }, script, calls) == (
            Pulled::<I>::End,
            ItemView::<I> { pages: None, buffered: Seq::empty() },
            calls,
        ),
        run_items(ItemView { pages: None, buffered: Seq::empty() }, script, calls, pulls) == ends::<
            I,
        >(pulls),
    decreases pulls,
{
    if pulls > 0 {
        lemma_ended_items_stay_ended(script, calls, (pulls - 1) as nat);
        assert(run_items(ItemView { pages: None, buffered: Seq::empty() }, script, calls, pulls)
            =~= ends::<I>(pulls));
    }
}

proof fn lemma_run_pages_len<I>(state: Option<Seq<char>>, script: Seq<Reply<I>>, calls: nat, pulls: nat)
    ensures
        run_pages(state, script, calls, pulls).len() == pulls,
    decreases pulls,
{
    if pulls > 0 {
        let (out, next, after) = pull_page(state, script, calls);
        lemma_run_pages_len(next, script, after, (pulls - 1) as nat);
    }
}

proof fn lemma_run_items_len<I>(state: ItemView<I>, script: Seq<Reply<I>>, calls: nat, pulls: nat)
    ensures
        run_items(state, script, calls, pulls).len() == pulls,
    decreases pulls,
{
    if pulls > 0 {
        let (out, next, after) = pull_item(state, script, calls);
        lemma_run_items_len(next, script, after, (pulls - 1) as nat);
    }
}

/// The state of a page sequence seeded with `seed` after `call` fetch calls
/// that all returned pages.
pub open spec fn state_before<I>(seed: Seq<char>, script: Seq<Reply<I>>, call: nat) -> Option<
    Seq<char>,
> {
    if call == 0 {
        Some(seed)
    } else {
        after_page(asked(seed, script, call))
    }
}

/// The first `m` calls of `script` return pages, and all but the last of them
/// have a non-empty continuation token.
pub open spec fn pages_then<I>(script: Seq<Reply<I>>, m: nat) -> bool {
    &&& m <= script.len()
    &&& forall|k: int| 0 <= k < m ==> #[trigger] script[k] is Page
    &&& forall|k: int| 0 <= k < m - 1 ==> (#[trigger] script[k])->Page_1.len() > 0
}

/// The pages that a run of page sequence hands out from call `c` on, before
/// call `m`.
pub open spec fn fetched_pages<I>(seed: Seq<char>, script: Seq<Reply<I>>, c: nat, m: nat) -> Seq<
    Pulled<I>,
> {
    Seq::new((m - c) as nat, |j: int| Pulled::Page((c + j) as nat, asked(seed, script, (c + j) as nat)))
}

proof fn lemma_page_prefix<I>(seed: Seq<char>, script: Seq<Reply<I>>, m: nat, c: nat, rest: nat)
    requires
        pages_then(script, m),
        c <= m,
    ensures
        run_pages(state_before(seed, script, c), script, c, ((m - c) + rest) as nat) == fetched_pages(
            seed,
            script,
            c,
            m,
        ) + run_pages(state_before(seed, script, m), script, m, rest),
    decreases m - c,
{
    if c < m {
        lemma_page_prefix(seed, script, m, c + 1, rest);
        assert(script[c as int] is Page);
        if c > 0 {
            assert(script[c - 1] is Page);
            assert(script[c - 1]->Page_1.len() > 0);
        }
        assert(state_before(seed, script, c) == Some(asked(seed, script, c)));
        assert(after_page(script[c as int]->Page_1) == state_before(seed, script, c + 1));
        assert(fetched_pages(seed, script, c, m) =~= seq![
            Pulled::Page(c, asked(seed, script, c)),
        ] + fetched_pages(seed, script, c + 1, m));
        assert(run_pages(state_before(seed, script, c), script, c, ((m - c) + rest) as nat) =~= seq![
            Pulled::Page(c, asked(seed, script, c)),
        ] + run_pages(state_before(seed, script, c + 1), script, c + 1, ((m - (c + 1)) + rest) as nat));
    } else {
        assert(fetched_pages(seed, script, c, m) + run_pages(state_before(seed, script, m), script, m, rest)
            =~= run_pages(state_before(seed, script, m), script, m, rest));
    }
}

/// When the fetches of `n` pages all succeed and only the last page has an
/// empty token, the page sequence hands out those `n` pages in order, the
/// first fetch receiving the seed and each later one the token of the page
/// before; every pull after that ends the sequence.
pub proof fn lemma_complete_run<I>(seed: Seq<char>, script: Seq<Reply<I>>, n: nat, extra: nat)
    requires
        complete_script(script, n),
    ensures
        run_pages(Some(seed), script, 0, n + extra) == Seq::new(
            n,
            |j: int| Pulled::<I>::Page(j as nat, asked(seed, script, j as nat)),
        ) + ends::<I>(extra),
{
    assert(pages_then(script, n));
    lemma_page_prefix(seed, script, n, 0, extra);
    assert(script[n - 1] is Page);
    assert(state_before(seed, script, n) == None::<Seq<char>>);
    lemma_ended_pages_stay_ended(script, n, extra);
    assert(fetched_pages(seed, script, 0, n) =~= Seq::new(
        n,
        |j: int| Pulled::<I>::Page(j as nat, asked(seed, script, j as nat)),
    ));
}

/// When fetch call `k - 1` (the `k`-th fetch) fails and the fetches before it
/// return pages with non-empty tokens, the page sequence hands out those
/// `k - 1` pages in order, then that one failure, and every later pull ends it.
pub proof fn lemma_failed_run<I>(seed: Seq<char>, script: Seq<Reply<I>>, k: nat, extra: nat)
    requires
        1 <= k <= script.len(),
        forall|i: int| 0 <= i < k - 1 ==> #[trigger] script[i] is Page && script[i]->Page_1.len()
            > 0,
        script[k - 1] is Failure,
    ensures
        run_pages(Some(seed), script, 0, k + extra) == Seq::new(
            (k - 1) as nat,
            |j: int| Pulled::<I>::Page(j as nat, asked(seed, script, j as nat)),
        ) + seq![Pulled::Failed((k - 1) as nat, asked(seed, script, (k - 1) as nat))] + ends::<I>(
            extra,
        ),
{
    let m = (k - 1) as nat;
    assert(pages_then(script, m));
    lemma_page_prefix(seed, script, m, 0, 1 + extra);
    if m > 0 {
        assert(script[m - 1] is Page);
    }
    assert(state_before(seed, script, m) == Some(asked(seed, script, m)));
    lemma_ended_pages_stay_ended(script, k, extra);
    assert(run_pages(state_before(seed, script, m), script, m, 1 + extra) =~= seq![
        Pulled::Failed(m, asked(seed, script, m)),
    ] + ends::<I>(extra));
    assert(fetched_pages(seed, script, 0, m) =~= Seq::new(
        m,
        |j: int| Pulled::<I>::Page(j as nat, asked(seed, script, j as nat)),
    ));
}

/// A failure or an end in `run` is followed by ends only.
pub open spec fn final_after_end<I>(run: Seq<Pulled<I>>) -> bool {
    forall|i: int, j: int|
        #![trigger run[i], run[j]]
        0 <= i < j < run.len() && (run[i] is Failed || run[i] is End) ==> run[j] is End
}

/// In every run of a page sequence, a failure or an end is followed by ends
/// only: nothing is fetched after it.
pub proof fn lemma_nothing_after_end<I>(
    state: Option<Seq<char>>,
    script: Seq<Reply<I>>,
    calls: nat,
    pulls: nat,
)
    ensures
        final_after_end(run_pages(state, script, calls, pulls)),
    decreases pulls,
{
    if pulls > 0 {
        let run = run_pages(state, script, calls, pulls);
        let (out, next, after) = pull_page(state, script, calls);
        let tail = run_pages(next, script, after, (pulls - 1) as nat);
        assert(run == seq![out] + tail);
        lemma_run_pages_len(next, script, after, (pulls - 1) as nat);
        lemma_nothing_after_end(next, script, after, (pulls - 1) as nat);
        if out is Failed || out is End {
            lemma_ended_pages_stay_ended(script, after, (pulls - 1) as nat);
        }
        assert forall|i: int, j: int|
            #![trigger run[i], run[j]]
            0 <= i < j < run.len() && (run[i] is Failed || run[i] is End) implies run[j] is End by {
            assert(run[j] == tail[j - 1]);
            if i > 0 {
                assert(run[i] == tail[i - 1]);
            }
        }
    }
}

/// Each fetch of a run receives the token of the page fetched just before it,
/// and the first fetch receives the seed unchanged.
pub proof fn lemma_tokens_are_threaded<I>(seed: Seq<char>, script: Seq<Reply<I>>, pulls: nat)
    ensures
        forall|j: int|
            0 <= j < pulls ==> match #[trigger] run_pages(Some(seed), script, 0, pulls)[j] {
                Pulled::Page(call, token) => call == j && token == asked(seed, script, call),
                Pulled::Failed(call, token) => call == j && token == asked(seed, script, call),
                _ => true,
            },
{
    lemma_threaded_from(seed, script, Some(seed), 0, pulls);
}

proof fn lemma_threaded_from<I>(
    seed: Seq<char>,
    script: Seq<Reply<I>>,
    state: Option<Seq<char>>,
    c: nat,
    pulls: nat,
)
    requires
        state is None || state == Some(asked(seed, script, c)),
    ensures
        forall|j: int|
            0 <= j < pulls ==> match #[trigger] run_pages(state, script, c, pulls)[j] {
                Pulled::Page(call, token) => call == c + j && token == asked(seed, script, call),
                Pulled::Failed(call, token) => call == c + j && token == asked(seed, script, call),
                _ => true,
            },
    decreases pulls,
{
    if pulls > 0 {
        let run = run_pages(state, script, c, pulls);
        let (out, next, after) = pull_page(state, script, c);
        if state is None {
            lemma_ended_pages_stay_ended(script, c, (pulls - 1) as nat);
            assert forall|j: int| 0 <= j < pulls implies #[trigger] run[j] is End by {
                if j > 0 {
                    assert(run[j] == ends::<I>((pulls - 1) as nat)[j - 1]);
                }
            }
        } else {
            assert(after == c + 1);
            assert(next is None || next == Some(asked(seed, script, c + 1)));
            lemma_threaded_from(seed, script, next, after, (pulls - 1) as nat);
            let tail = run_pages(next, script, after, (pulls - 1) as nat);
            assert(run == seq![out] + tail);
            lemma_run_pages_len(next, script, after, (pulls - 1) as nat);
            assert forall|j: int| 0 <= j < pulls implies match #[trigger] run[j] {
                Pulled::Page(call, token) => call == c + j && token == asked(seed, script, call),
                Pulled::Failed(call, token) => call == c + j && token == asked(seed, script, call),
                _ => true,
            } by {
                if j > 0 {
                    assert(run[j] == tail[j - 1]);
                }
            }
        }
    }
}

/// The items of the replies of calls `c` up to `m` of `script`, page after page.
pub open spec fn items_between<I>(script: Seq<Reply<I>>, c: nat, m: nat) -> Seq<I> {
    Seq::new((m - c) as nat, |j: int| script[c + j]->Page_0).flatten()
}

/// The items of every page of `script`, page by page.
pub open spec fn page_items<I>(script: Seq<Reply<I>>) -> Seq<Seq<I>> {
    Seq::new(script.len(), |k: int| script[k]->Page_0)
}

/// Items handed out one by one.
pub open spec fn handed_out<I>(items: Seq<I>) -> Seq<Pulled<I>> {
    items.map_values(|x: I| Pulled::Item(x))
}

proof fn lemma_items_between_split<I>(script: Seq<Reply<I>>, c: nat, m: nat)
    requires
        c < m,
    ensures
        items_between(script, c, m) == script[c as int]->Page_0 + items_between(script, c + 1, m),
{
    let s = Seq::new((m - c) as nat, |j: int| script[c + j]->Page_0);
    assert(s.drop_first() =~= Seq::new((m - (c + 1)) as nat, |j: int| script[(c + 1) + j]->Page_0));
}

proof fn lemma_item_prefix<I>(
    seed: Seq<char>,
    script: Seq<Reply<I>>,
    m: nat,
    c: nat,
    b: Seq<I>,
    rest: nat,
)
    requires
        pages_then(script, m),
        c <= m,
    ensures
        run_items(
            ItemView { pages: state_before(seed, script, c), buffered: b },
            script,
            c,
            b.len() + items_between(script, c, m).len() + rest,
        ) == handed_out(b + items_between(script, c, m)) + run_items(
            ItemView { pages: state_before(seed, script, m), buffered: Seq::empty() },
            script,
            m,
            rest,
        ),
    decreases b.len() + items_between(script, c, m).len(), m - c,
{
    let st = ItemView { pages: state_before(seed, script, c), buffered: b };
    let later = items_between(script, c, m);
    let tail = run_items(
        ItemView { pages: state_before(seed, script, m), buffered: Seq::empty() },
        script,
        m,
        rest,
    );
    let pulls = (b.len() + later.len() + rest) as nat;
    if b.len() > 0 {
        let st2 = ItemView { pages: state_before(seed, script, c), buffered: b.drop_first() };
        lemma_item_prefix(seed, script, m, c, b.drop_first(), rest);
        assert(run_items(st, script, c, pulls) == seq![Pulled::Item(b[0])] + run_items(
            st2,
            script,
            c,
            (pulls - 1) as nat,
        ));
        assert(handed_out(b + later) =~= seq![Pulled::Item(b[0])] + handed_out(
            b.drop_first() + later,
        ));
        assert(run_items(st, script, c, pulls) =~= handed_out(b + later) + tail);
    } else if c == m {
        assert(later =~= Seq::<I>::empty());
        assert(b =~= Seq::<I>::empty());
        assert(handed_out(b + later) =~= Seq::<Pulled<I>>::empty());
        assert(handed_out(b + later) + tail =~= tail);
    } else {
        lemma_items_between_split(script, c, m);
        assert(script[c as int] is Page);
        if c > 0 {
            assert(script[c - 1] is Page);
            assert(script[c - 1]->Page_1.len() > 0);
        }
        let page = script[c as int]->Page_0;
        let st2 = ItemView { pages: state_before(seed, script, c + 1), buffered: page };
        assert(after_page(script[c as int]->Page_1) == state_before(seed, script, c + 1));
        assert(pull_item(st, script, c) == pull_item(st2, script, c + 1));
        lemma_item_prefix(seed, script, m, c + 1, page, rest);
        assert(b + later =~= page + items_between(script, c + 1, m));
        if pulls > 0 {
            assert(run_items(st, script, c, pulls) == run_items(st2, script, c + 1, pulls));
        } else {
            assert(handed_out(b + later) =~= Seq::<Pulled<I>>::empty());
            assert(handed_out(b + later) + tail =~= tail);
        }
    }
}

/// When the fetches of `n` pages all succeed and only the last page has an
/// empty token, the item sequence hands out the items of every page, page
/// after page and in order within a page, pages without items included; every
/// pull after that ends the sequence.
pub proof fn lemma_items_flattened<I>(seed: Seq<char>, script: Seq<Reply<I>>, n: nat, extra: nat)
    requires
        complete_script(script, n),
    ensures
        run_items(
            ItemView { pages: Some(seed), buffered: Seq::empty() },
            script,
            0,
            page_items(script).flatten().len() + extra,
        ) == handed_out(page_items(script).flatten()) + ends::<I>(extra),
{
    assert(pages_then(script, n));
    assert(Seq::new((n - 0) as nat, |j: int| script[0 + j]->Page_0) =~= page_items(script));
    lemma_item_prefix(seed, script, n, 0, Seq::empty(), extra);
    assert(Seq::<I>::empty() + items_between(script, 0, n) =~= page_items(script).flatten());
    assert(script[n - 1] is Page);
    assert(state_before(seed, script, n) == None::<Seq<char>>);
    lemma_ended_items_stay_ended(script, n, extra);
}

/// When fetch call `k - 1` (the `k`-th fetch) fails and the fetches before it
/// return pages with non-empty tokens, the item sequence hands out the items
/// of those pages in order, then that one failure, and every later pull ends
/// it.
pub proof fn lemma_failed_item_run<I>(seed: Seq<char>, script: Seq<Reply<I>>, k: nat, extra: nat)
    requires
        1 <= k <= script.len(),
        forall|i: int| 0 <= i < k - 1 ==> #[trigger] script[i] is Page && script[i]->Page_1.len()
            > 0,
        script[k - 1] is Failure,
    ensures
        run_items(
            ItemView { pages: Some(seed), buffered: Seq::empty() },
            script,
            0,
            items_between(script, 0, (k - 1) as nat).len() + 1 + extra,
        ) == handed_out(items_between(script, 0, (k - 1) as nat)) + seq![
            Pulled::Failed((k - 1) as nat, asked(seed, script, (k - 1) as nat)),
        ] + ends::<I>(extra),
{
    let m = (k - 1) as nat;
    assert(pages_then(script, m));
    lemma_item_prefix(seed, script, m, 0, Seq::empty(), 1 + extra);
    assert(Seq::<I>::empty() + items_between(script, 0, m) =~= items_between(script, 0, m));
    if m > 0 {
        assert(script[m - 1] is Page);
    }
    assert(state_before(seed, script, m) == Some(asked(seed, script, m)));
    lemma_ended_items_stay_ended(script, k, extra);
    assert(run_items(
        ItemView { pages: state_before(seed, script, m), buffered: Seq::empty() },
        script,
        m,
        1 + extra,
    ) =~= seq![Pulled::Failed(m, asked(seed, script, m))] + ends::<I>(extra));
}

proof fn lemma_item_pull_settles<I>(state: ItemView<I>, script: Seq<Reply<I>>, calls: nat)
    ensures
        (pull_item(state, script, calls).0 is Failed || pull_item(state, script, calls).0 is End)
            ==> pull_item(state, script, calls).1 == (ItemView::<I> {
            pages: None,
            buffered: Seq::empty(),
        }),
    decreases script.len() - calls,
{
    if state.buffered.len() == 0 {
        assert(state.buffered =~= Seq::<I>::empty());
        if state.pages is Some && calls < script.len() {
            if let Reply::Page(items, next) = script[calls as int] {
                lemma_item_pull_settles(
                    ItemView { pages: after_page(next), buffered: items },
                    script,
                    calls + 1,
                );
            }
        }
    }
}

/// In every run of an item sequence, a failure or an end is followed by ends
/// only: nothing is fetched after it.
pub proof fn lemma_no_item_after_end<I>(
    state: ItemView<I>,
    script: Seq<Reply<I>>,
    calls: nat,
    pulls: nat,
)
    ensures
        final_after_end(run_items(state, script, calls, pulls)),
    decreases pulls,
{
    if pulls > 0 {
        let run = run_items(state, script, calls, pulls);
        let (out, next, after) = pull_item(state, script, calls);
        let tail = run_items(next, script, after, (pulls - 1) as nat);
        assert(run == seq![out] + tail);
        lemma_run_items_len(next, script, after, (pulls - 1) as nat);
        lemma_no_item_after_end(next, script, after, (pulls - 1) as nat);
        lemma_item_pull_settles(state, script, calls);
        if out is Failed || out is End {
            lemma_ended_items_stay_ended(script, after, (pulls - 1) as nat);
        }
        assert forall|i: int, j: int|
            #![trigger run[i], run[j]]
            0 <= i < j < run.len() && (run[i] is Failed || run[i] is End) implies run[j] is End by {
            assert(run[j] == tail[j - 1]);
            if i > 0 {
                assert(run[i] == tail[i - 1]);
            }
        }
    }
}

} // verus!
