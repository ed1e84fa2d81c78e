//! Sequences of pages and of items over a paged list call.
//!
//! A list call returns a batch of items and a continuation token; an empty
//! token means that no page follows. The sequences here decide which token to
//! fetch next and when to stop. They do no I/O: whoever drives them performs
//! the fetch and reports its outcome.
use vstd::prelude::*;

verus! {

/// A response of a list call: one page of items, and the token of the page
/// after it.
pub trait PageableResponse {
    type PageItem;

    /// Consumes the response and returns the items of its page.
    fn items(self) -> Vec<Self::PageItem>;

    /// The token of the next page; empty when no page follows.
    fn next_page_token(&self) -> String;
}

/// The continuation of a page sequence: the token to fetch next, or the end.
pub enum LoopState {
    Continue(String),
    Break,
}

impl View for LoopState {
    type V = Option<Seq<char>>;

    open spec fn view(&self) -> Option<Seq<char>> {
        match self {
            LoopState::Continue(token) => Some(token@),
            LoopState::Break => None,
        }
    }
}

/// The state that follows a page whose continuation token is `token`.
pub open spec fn after_page(token: Seq<char>) -> Option<Seq<char>> {
    if token.len() == 0 {
        None
    } else {
        Some(token)
    }
}

impl LoopState {
    /// The state that follows a page whose continuation token is `token`.
    pub fn from_token(token: &str) -> (r: LoopState)
        ensures
            r@ == after_page(token@),
    {
        if token.is_empty() {
            LoopState::Break
        } else {
            LoopState::Continue(token.to_string())
        }
    }
}

/// What a page sequence asks of its driver: fetch the page of this token, or stop.
pub enum PageStep {
    Fetch(String),
    Done,
}

impl PageStep {
    /// The token this step asks to fetch, if it asks for a fetch.
    pub open spec fn requested(&self) -> Option<Seq<char>> {
        match self {
            PageStep::Fetch(token) => Some(token@),
            PageStep::Done => None,
        }
    }
}

/// A lazy, forward-only sequence of pages.
///
/// Its view is the token that the next fetch receives, or `None` once the
/// sequence has ended: after a page with an empty continuation token, or after
/// a failed fetch.
pub struct PageSequence {
    state: LoopState,
}

impl View for PageSequence {
    type V = Option<Seq<char>>;

    closed spec fn view(&self) -> Option<Seq<char>> {
        self.state@
    }
}

impl PageSequence {
    /// A sequence whose first fetch receives `seed_token`, empty or not.
    pub fn new(seed_token: String) -> (r: PageSequence)
        ensures
            r@ == Some(seed_token@),
    {
        PageSequence { state: LoopState::Continue(seed_token) }
    }

    /// Whether the sequence has ended.
    pub fn is_done(&self) -> (r: bool)
        ensures
            r == (self@ is None),
    {
        match &self.state {
            LoopState::Continue(_) => false,
            LoopState::Break => true,
        }
    }

    /// What the next pull does: fetch with the current token, or end at once.
    pub fn step(&self) -> (r: PageStep)
        ensures
            r.requested() == self@,
    {
        match &self.state {
            LoopState::Continue(token) => PageStep::Fetch(token.clone()),
            LoopState::Break => PageStep::Done,
        }
    }

    /// Records a fetched page by its continuation token.
    pub fn on_page(&mut self, next_page_token: &str)
        ensures
            final(self)@ == after_page(next_page_token@),
    {
        self.state = LoopState::from_token(next_page_token);
    }

    /// Records a failed fetch: the sequence ends.
    pub fn on_error(&mut self)
        ensures
            final(self)@ is None,
    {
        self.state = LoopState::Break;
    }

    /// The sequence of the items of these pages, starting with no page read.
    pub fn items<I>(self) -> (r: ItemSequence<I>)
        ensures
            r@ == (ItemView::<I> { pages: self@, buffered: Seq::empty() }),
    {
        let r = ItemSequence { pages: self, pending: Vec::new() };
        assert(r@.buffered =~= Seq::empty());
        r
    }
}

/// The state of an item sequence: the state of its pages, and the items of
/// the last fetched page that were not handed out yet.
pub struct ItemView<I> {
    pub pages: Option<Seq<char>>,
    pub buffered: Seq<I>,
}

/// What an item sequence asks of its driver: take this item, fetch the page of
/// this token, or stop.
pub enum ItemStep<I> {
    Item(I),
    Fetch(String),
    Done,
}

/// A lazy, forward-only sequence of the items of a page sequence, page after
/// page. It holds only the unread rest of the last fetched page.
pub struct ItemSequence<I> {
    pages: PageSequence,
    // the unread items, last one first
    pending: Vec<I>,
}

impl<I> View for ItemSequence<I> {
    type V = ItemView<I>;

    closed spec fn view(&self) -> ItemView<I> {
        ItemView {
            pages: self.pages@,
            buffered: Seq::new(self.pending@.len(), |i: int| self.pending@[self.pending@.len() - 1 - i]),
        }
    }
}

impl<I> ItemSequence<I> {
    /// What the next pull does: hand out the next buffered item; with none
    /// left, fetch the next page or end.
    pub fn step(&mut self) -> (r: ItemStep<I>)
        ensures
            old(self)@.buffered.len() > 0 ==> r == ItemStep::Item(old(self)@.buffered[0])
                && final(self)@ == (ItemView {
                pages: old(self)@.pages,
                buffered: old(self)@.buffered.drop_first(),
            }),
            old(self)@.buffered.len() == 0 ==> final(self)@ == old(self)@ && match old(self)@.pages {
                Some(token) => r matches ItemStep::Fetch(t) && t@ == token,
                None => r is Done,
            },
    {
        match self.pending.pop() {
            Some(item) => {
                let ghost before = old(self)@.buffered;
                assert(final(self)@.buffered =~= before.drop_first());
                ItemStep::Item(item)
            },
            None => match self.pages.step() {
                PageStep::Fetch(token) => ItemStep::Fetch(token),
                PageStep::Done => ItemStep::Done,
            },
        }
    }

    /// Records a fetched page: its items are read next, and its continuation
    /// token decides what follows them.
    pub fn on_page(&mut self, items: Vec<I>, next_page_token: &str)
        ensures
            final(self)@ == (ItemView { pages: after_page(next_page_token@), buffered: items@ }),
    {
        let ghost all = items@;
        let mut items = items;
        let mut pending: Vec<I> = Vec::new();
        while items.len() > 0
            invariant
                items@.len() + pending@.len() == all.len(),
                items@ == all.subrange(0, items@.len() as int),
                forall|i: int| 0 <= i < pending@.len() ==> pending@[i] == all[all.len() - 1 - i],
            decreases items@.len(),
        {
            match items.pop() {
                Some(item) => pending.push(item),
                None => {},
            }
        }
        self.pages.on_page(next_page_token);
        self.pending = pending;
        assert(self@.buffered =~= all);
    }

    /// Records a failed fetch: the sequence ends.
    pub fn on_error(&mut self)
        ensures
            final(self)@ == (ItemView::<I> { pages: None, buffered: old(self)@.buffered }),
    {
        self.pages.on_error();
    }
}

} // verus!
