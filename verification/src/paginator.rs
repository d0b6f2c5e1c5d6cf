//! This module helps you implement pagination over a web API endpoint.
//!
//! Implement the [`PaginationDelegate`] trait to tell the engine how to keep
//! track of the current page and make requests to the API, then wrap the
//! delegate with [`PaginatedStream::from`] and pull items one at a time with
//! [`PaginatedStream::poll_next`].
//!
//! The engine itself performs no I/O. A page request is issued by handing the
//! delegate out to the caller ([`StreamPoll::Fetch`]) and resolved by handing
//! it back together with the outcome of [`PaginationDelegate::next_page`]
//! ([`FetchPoll::Ready`]), so the caller decides how the request is driven —
//! synchronously, or resumed later from an asynchronous task.
//!
//! Every call to [`PaginatedStream::poll_next`] is one step of the abstract
//! engine described by [`engine_step`] — its contract says so — and the
//! run-level guarantees are proved over sequences of such steps: items come
//! out in the exact order the pages came in
//! ([`lemma_order_preservation`]), an error is yielded at most once and
//! closes the stream for good ([`lemma_error_terminality`]), and a closed
//! stream reports completion forever ([`lemma_idempotent_completion`]).

use std::collections::VecDeque;

use vstd::prelude::*;

verus! {

/// This is the trait that needs to be implemented in order to tell the
/// [`PaginatedStream`] how to keep track of the current page and make
/// requests to the API.
///
/// The indices of the pages are handled automatically, simply implement
/// `offset` and `set_offset` correctly to ensure that any internal fields are
/// being updated.
pub trait PaginationDelegate: Sized {
    /// This is the type of the item that calls to `poll_next` are expected to
    /// yield.
    type Item;
    /// This is the type of the error that a failed call to `next_page`
    /// produces.
    type Error;

    /// Model of the cumulative item offset that the delegate currently
    /// reports through `offset`.
    spec fn offset_spec(&self) -> usize;

    /// Model of the advisory total that the delegate currently reports
    /// through `total_items`.
    spec fn total_spec(&self) -> Option<usize>;

    /// Whether this implementation stores exactly the offset it is given.
    /// An implementation that translates offsets into page indices may
    /// instead clamp a short page's remainder to a past-the-end sentinel
    /// (a value no smaller than the one given), and reports `false` here.
    spec fn stores_exact_offset() -> bool;

    /// Performs the request for the next page and returns either a vector of
    /// the result items or an error. May perform arbitrary I/O. Each call
    /// must produce the page following whatever offset was last set.
    fn next_page(&mut self) -> Result<Vec<Self::Item>, Self::Error>;

    /// Gets the current offset, which will be the index at the end of the
    /// current/previous page. The value returned from this will be changed by
    /// [`PaginatedStream`] immediately following a successful call to
    /// [`Self::next_page`], increasing by the number of items returned.
    fn offset(&self) -> (r: usize)
        ensures
            r == self.offset_spec(),
    ;

    /// Sets the offset for the next page. The offset is required to be the
    /// index of the last item from the previous page. The delegate never
    /// reports an offset below the one given, but may clamp it upward to a
    /// past-the-end sentinel when the page was short. Offset bookkeeping
    /// leaves the advisory total alone: the total changes only as pages are
    /// fetched.
    fn set_offset(&mut self, value: usize)
        ensures
            value <= final(self).offset_spec(),
            Self::stores_exact_offset() ==> final(self).offset_spec() == value,
            final(self).total_spec() == old(self).total_spec(),
    ;

    /// Gets the total count of items that are currently expected from the
    /// API. This may change between calls, and is advisory: the engine uses
    /// it only as a termination hint.
    fn total_items(&self) -> (r: Option<usize>)
        ensures
            r == self.total_spec(),
    ;
}

/// Whether the delegate's reported offset has reached or passed its advisory
/// total, an absent total being treated as unbounded.
pub open spec fn reached_advisory_total<D: PaginationDelegate>(delegate: D) -> bool {
    delegate.offset_spec() >= match delegate.total_spec() {
        Some(total) => total as int,
        None => usize::MAX as int,
    }
}

/// Resolution value of a page request issued through [`StreamPoll::Fetch`]
/// and the inner value of [`PaginatedStream::Ready`]: the delegate, together
/// with the fetched items that have not yet been yielded.
pub struct ReadyStateValue<D: PaginationDelegate> {
    /// The delegate that the page was fetched with.
    pub delegate: D,
    /// The fetched items not yet handed out, in page order.
    pub items: VecDeque<D::Item>,
}

/// What the caller reports about the page request it was asked to issue, on
/// each call to [`PaginatedStream::poll_next`].
pub enum FetchPoll<D: PaginationDelegate> {
    /// No page request is outstanding, or the outstanding one has not
    /// resolved yet.
    Pending,
    /// The outstanding request resolved: the delegate is handed back with
    /// the result of [`PaginationDelegate::next_page`].
    Ready(D, Result<Vec<D::Item>, D::Error>),
}

/// The outcome of one pull from the stream, mirroring what polling a
/// suspended sequence reports to its consumer.
pub enum StreamPoll<D: PaginationDelegate> {
    /// A new page request must be issued: call
    /// [`PaginationDelegate::next_page`] on this delegate and report the
    /// outcome on a later pull. The stream is not ready.
    Fetch(D),
    /// The page request is still in flight; the stream is not ready.
    NotReady,
    /// The next item of the sequence.
    Item(D::Item),
    /// The page request failed. The error is yielded exactly once; the
    /// stream is closed afterwards.
    Failed(D::Error),
    /// End of the sequence; repeated indefinitely once reached.
    Done,
}

/// This enumerable holds the current state of the paginated stream. The
/// caller pulls items by calling [`PaginatedStream::poll_next`] repeatedly;
/// the commentary on that method describes how the state is changed as the
/// stream is polled.
pub enum PaginatedStream<D: PaginationDelegate> {
    /// This is the entry-point, or rather where the state machine begins.
    /// This is also used to indicate that the state machine is ready for the
    /// next page from the API. This will be set when the state was
    /// previously `Ready` but had no more items to yield.
    Request(D),
    /// At some point in the past, the stream asked its caller to request the
    /// next page, and the outcome has not been reported back yet. The
    /// delegate is away with that request until it resolves.
    Pending,
    /// The next page is ready and its current items have been taken and are
    /// currently being yielded to whatever is polling the stream. This state
    /// will remain the same until it runs out of items, and on the very next
    /// poll, the state will change back to `Request` if there is another
    /// page, or `Closed` if the expected number of results has already been
    /// yielded.
    Ready(ReadyStateValue<D>),
    /// Either an error has occurred or the API has been exhausted of the
    /// items that it is willing to provide. Polling the stream when this is
    /// the state will always yield `Done`, and will never change once this
    /// has been set.
    Closed,
    /// This state is used internally while the result of `poll_next` is
    /// being resolved, so that the next state can be built from parts of the
    /// previous one. It is never observable at the start or end of a call.
    Indeterminate,
}

impl<D: PaginationDelegate> From<D> for PaginatedStream<D> {
    /// Wraps a freshly constructed delegate; the stream always starts by
    /// requesting the first page.
    fn from(delegate: D) -> (r: Self)
        ensures
            r == PaginatedStream::<D>::Request(delegate),
    {
        PaginatedStream::Request(delegate)
    }
}

impl<D: PaginationDelegate> vstd::std_specs::convert::FromSpecImpl<D> for PaginatedStream<D> {
    open spec fn obeys_from_spec() -> bool {
        true
    }

    open spec fn from_spec(delegate: D) -> Self {
        PaginatedStream::Request(delegate)
    }
}

impl<D: PaginationDelegate> PaginatedStream<D> {
    /// The abstract state that this stream presents to its consumer.
    pub open spec fn abs(self) -> EngineState<D::Item> {
        match self {
            PaginatedStream::Request(_) => EngineState::Requesting,
            PaginatedStream::Pending => EngineState::Awaiting,
            PaginatedStream::Ready(rsv) => EngineState::Draining { buffer: rsv.items@ },
            PaginatedStream::Closed => EngineState::Closed,
            PaginatedStream::Indeterminate => arbitrary(),
        }
    }

    /// Polls the stream for the next item.
    ///
    /// `fetch` reports on the page request that an earlier call asked the
    /// caller to issue: `Pending` while nothing is outstanding or resolved,
    /// `Ready` to hand the delegate back with the result. The contract pins
    /// each transition of the state machine:
    ///
    /// - `Request`: the delegate is handed out for the next page request and
    ///   the state becomes `Pending`.
    /// - `Pending` with an unresolved fetch: stays `Pending`, not ready.
    /// - `Pending` with a fetched page: the offset is advanced by exactly
    ///   the number of items returned (the delegate may clamp it upward),
    ///   the first item is yielded at once and the rest become the `Ready`
    ///   buffer.
    /// - `Pending` with a failed fetch: the error is yielded exactly once
    ///   and the stream closes.
    /// - `Ready` with a non-empty buffer: the front item is yielded.
    /// - `Ready` with an empty buffer: if the offset has reached the
    ///   advisory total (absent meaning unbounded), the stream closes and
    ///   signals completion without another fetch being issued; otherwise
    ///   the delegate is handed out again for the next page.
    /// - `Closed`: completion is signalled, idempotently, forever.
    pub fn poll_next(&mut self, fetch: FetchPoll<D>) -> (r: StreamPoll<D>)
        requires
            !((*old(self)) is Indeterminate),
            !((*old(self)) is Pending) ==> fetch is Pending,
            (*old(self)) is Pending ==> (fetch matches FetchPoll::Ready(d, Ok(items)) ==> items@.len()
                > 0 && d.offset_spec() + items@.len() <= usize::MAX),
        ensures
            !((*final(self)) is Indeterminate),
            (*old(self)) matches PaginatedStream::Request(d) ==> (*final(self)) is Pending && r
                == StreamPoll::<D>::Fetch(d),
            (*old(self)) is Pending && fetch is Pending ==> (*final(self)) is Pending && r is NotReady,
            (*old(self)) is Pending ==> (fetch matches FetchPoll::Ready(d, Ok(items)) ==> r
                == StreamPoll::<D>::Item(items@[0]) && ((*final(self)) matches PaginatedStream::Ready(
            rsv) ==> {
                &&& rsv.items@ == items@.drop_first()
                &&& rsv.delegate.total_spec() == d.total_spec()
                &&& d.offset_spec() + items@.len() <= rsv.delegate.offset_spec()
                &&& (D::stores_exact_offset() ==> rsv.delegate.offset_spec() == d.offset_spec()
                    + items@.len())
            }) && (*final(self)) is Ready),
            (*old(self)) is Pending ==> (fetch matches FetchPoll::Ready(_, Err(e)) ==> (*final(self))
                is Closed && r == StreamPoll::<D>::Failed(e)),
            (*old(self)) matches PaginatedStream::Ready(rsv) ==> (rsv.items@.len() > 0 ==> r
                == StreamPoll::<D>::Item(rsv.items@[0]) && ((*final(self))
                matches PaginatedStream::Ready(after) ==> after.delegate == rsv.delegate
                && after.items@ == rsv.items@.drop_first()) && (*final(self)) is Ready),
            (*old(self)) matches PaginatedStream::Ready(rsv) ==> (rsv.items@.len() == 0
                && reached_advisory_total(rsv.delegate) ==> (*final(self)) is Closed && r is Done),
            (*old(self)) matches PaginatedStream::Ready(rsv) ==> (rsv.items@.len() == 0
                && !reached_advisory_total(rsv.delegate) ==> (*final(self)) is Pending && r
                == StreamPoll::<D>::Fetch(rsv.delegate)),
            (*old(self)) is Closed ==> (*final(self)) is Closed && r is Done,
            engine_step(
                (*old(self)).abs(),
                abs_event_of(fetch),
                (*final(self)).abs(),
                abs_yield_of(r),
            ),
    {
        // Take ownership of the current state and leave the `Indeterminate`
        // placeholder behind until the new state is in fact determined.
        let mut this = PaginatedStream::Indeterminate;
        core::mem::swap(self, &mut this);

        match this {
            // The entry of the state machine, or a poll right after a page's
            // items ran out. Hand the delegate out so that the caller issues
            // the request for the next page.
            PaginatedStream::Request(delegate) => {
                *self = PaginatedStream::Pending;
                StreamPoll::Fetch(delegate)
            },
            // A request was issued in the past; what happens now depends on
            // what the caller reports about it.
            PaginatedStream::Pending => {
                match fetch {
                    // Still in flight: put the state back and keep waiting.
                    FetchPoll::Pending => {
                        *self = PaginatedStream::Pending;
                        StreamPoll::NotReady
                    },
                    // The request resolved with new items and gave the
                    // delegate back.
                    FetchPoll::Ready(mut delegate, Ok(mut items)) => {
                        // Tell the delegate the offset for the next page,
                        // which is the sum of the old offset and the number
                        // of items that the API sent back.
                        let count = items.len();
                        let offset = delegate.offset();
                        delegate.set_offset(offset + count);
                        // Take the first item out so that it can be yielded.
                        let first = items.remove(0);
                        // Move the remaining items, in order, into the
                        // front-poppable buffer of the `Ready` state.
                        let ghost rest = items@;
                        let mut buffer: VecDeque<D::Item> = VecDeque::new();
                        while items.len() > 0
                            invariant
                                items@ + buffer@ == rest,
                            decreases items@.len(),
                        {
                            let ghost before = items@;
                            let item = items.pop().unwrap();
                            buffer.push_front(item);
                            proof {
                                assert(items@ + buffer@ =~= before + buffer@.drop_first());
                            }
                        }
                        proof {
                            assert(buffer@ =~= rest);
                        }
                        *self = PaginatedStream::Ready(ReadyStateValue { delegate, items: buffer });
                        StreamPoll::Item(first)
                    },
                    // The request resolved with an error: close the stream,
                    // so that the error is forwarded exactly once and any
                    // further polls yield `Done`.
                    FetchPoll::Ready(_, Err(error)) => {
                        *self = PaginatedStream::Closed;
                        StreamPoll::Failed(error)
                    },
                }
            },
            // A page has resolved in the past and items may remain in the
            // buffer.
            PaginatedStream::Ready(ReadyStateValue { delegate, mut items }) => {
                match items.pop_front() {
                    // There is at least one item in the buffer, so yield it.
                    Some(item) => {
                        *self = PaginatedStream::Ready(ReadyStateValue { delegate, items });
                        StreamPoll::Item(item)
                    },
                    // The buffer is empty: decide between completion and the
                    // next page.
                    None => {
                        let total = match delegate.total_items() {
                            Some(total) => total,
                            None => usize::MAX,
                        };
                        if delegate.offset() >= total {
                            // All the items the API is willing to send have
                            // been yielded.
                            *self = PaginatedStream::Closed;
                            StreamPoll::Done
                        } else {
                            // Ask for the next page within the same call; no
                            // extra suspension is needed to re-enter the
                            // requesting step.
                            *self = PaginatedStream::Pending;
                            StreamPoll::Fetch(delegate)
                        }
                    },
                }
            },
            // Either an error has occurred, or the last item has been
            // yielded already; report completion, idempotently.
            PaginatedStream::Closed => {
                *self = PaginatedStream::Closed;
                StreamPoll::Done
            },
            // Excluded by the precondition: the placeholder is never
            // observable at the start of a call.
            PaginatedStream::Indeterminate => vstd::pervasive::unreached(),
        }
    }

    /// Upper-bound size estimate: the advisory total while the state holds
    /// the delegate (`Request` or `Ready`); unknown while the delegate is
    /// away with a page request, and once the stream has closed.
    pub fn size_hint(&self) -> (r: (usize, Option<usize>))
        ensures
            r.0 == 0,
            self matches PaginatedStream::Request(d) ==> r.1 == d.total_spec(),
            self matches PaginatedStream::Ready(rsv) ==> r.1 == rsv.delegate.total_spec(),
            self is Pending || self is Closed || self is Indeterminate ==> r.1 is None,
    {
        match self {
            PaginatedStream::Request(delegate) => (0, delegate.total_items()),
            PaginatedStream::Ready(rsv) => (0, rsv.delegate.total_items()),
            _ => (0, None),
        }
    }
}

/// Abstract state of the engine, as a consumer observes it between calls:
/// about to request a page, awaiting one, draining the buffered remainder of
/// one, or closed for good.
pub enum EngineState<I> {
    /// About to ask the source for the next page.
    Requesting,
    /// A page request has been issued and not yet resolved; the source is
    /// away with it.
    Awaiting,
    /// A page has been fetched; its not-yet-yielded items are being handed
    /// out one at a time, in order.
    Draining {
        /// The fetched items not yet handed out.
        buffer: Seq<I>,
    },
    /// Terminal: the source signalled completion, or an error was already
    /// delivered.
    Closed,
}

/// What the caller supplies on one pull: nothing, a resolved page, or a
/// failed one.
pub enum EngineEvent<I, E> {
    /// A pull with no page request resolved.
    Polled,
    /// The outstanding page request resolved with these items.
    PageResolved(Seq<I>),
    /// The outstanding page request failed.
    PageFailed(E),
}

/// What one pull yields to the consumer.
pub enum EngineYield<I, E> {
    /// A new page request was issued; the stream is not ready.
    FetchIssued,
    /// The outstanding page request has not resolved; the stream is not
    /// ready.
    NotReady,
    /// One item of the sequence.
    Item(I),
    /// The error of a failed page request, delivered exactly once.
    Failed(E),
    /// End of the sequence.
    Done,
}

/// The abstract event that a `fetch` argument of
/// [`PaginatedStream::poll_next`] stands for.
pub open spec fn abs_event_of<D: PaginationDelegate>(fetch: FetchPoll<D>) -> EngineEvent<
    D::Item,
    D::Error,
> {
    match fetch {
        FetchPoll::Pending => EngineEvent::Polled,
        FetchPoll::Ready(_, result) => match result {
            Ok(items) => EngineEvent::PageResolved(items@),
            Err(error) => EngineEvent::PageFailed(error),
        },
    }
}

/// The abstract yield that a result of [`PaginatedStream::poll_next`] stands
/// for.
pub open spec fn abs_yield_of<D: PaginationDelegate>(poll: StreamPoll<D>) -> EngineYield<
    D::Item,
    D::Error,
> {
    match poll {
        StreamPoll::Fetch(_) => EngineYield::FetchIssued,
        StreamPoll::NotReady => EngineYield::NotReady,
        StreamPoll::Item(item) => EngineYield::Item(item),
        StreamPoll::Failed(error) => EngineYield::Failed(error),
        StreamPoll::Done => EngineYield::Done,
    }
}

/// The transition relation of the engine: one pull takes the state `pre` and
/// the event `ev` to the state `post`, yielding `out`. The choice between
/// completing and requesting another page when the buffer has drained
/// depends on the source's reported offset and advisory total, which the
/// abstract state does not carry, so that step admits either outcome.
pub open spec fn engine_step<I, E>(
    pre: EngineState<I>,
    ev: EngineEvent<I, E>,
    post: EngineState<I>,
    out: EngineYield<I, E>,
) -> bool {
    match (pre, ev) {
        (EngineState::Requesting, EngineEvent::Polled) => post is Awaiting && out is FetchIssued,
        (EngineState::Awaiting, EngineEvent::Polled) => post is Awaiting && out is NotReady,
        (EngineState::Awaiting, EngineEvent::PageResolved(page)) => page.len() > 0 && post
            == (EngineState::Draining { buffer: page.drop_first() }) && out == EngineYield::<
            I,
            E,
        >::Item(page[0]),
        (EngineState::Awaiting, EngineEvent::PageFailed(error)) => post is Closed && out
            == EngineYield::<I, E>::Failed(error),
        (EngineState::Draining { buffer }, EngineEvent::Polled) => if buffer.len() > 0 {
            post == (EngineState::Draining { buffer: buffer.drop_first() }) && out == EngineYield::<
                I,
                E,
            >::Item(buffer[0])
        } else {
            (post is Closed && out is Done) || (post is Awaiting && out is FetchIssued)
        },
        (EngineState::Closed, EngineEvent::Polled) => post is Closed && out is Done,
        _ => false,
    }
}

/// A run of the engine: `states` begins with `start` and each consecutive
/// pair is related by [`engine_step`] under the matching event, yielding the
/// matching output.
pub open spec fn valid_run<I, E>(
    start: EngineState<I>,
    events: Seq<EngineEvent<I, E>>,
    states: Seq<EngineState<I>>,
    outs: Seq<EngineYield<I, E>>,
) -> bool
    decreases events.len(),
{
    &&& states.len() == events.len() + 1
    &&& outs.len() == events.len()
    &&& states[0] == start
    &&& events.len() > 0 ==> {
        &&& valid_run(start, events.drop_last(), states.drop_last(), outs.drop_last())
        &&& engine_step(
            states[states.len() - 2],
            events.last(),
            states.last(),
            outs.last(),
        )
    }
}

/// All items yielded by a sequence of pulls, in order.
pub open spec fn yielded_items<I, E>(outs: Seq<EngineYield<I, E>>) -> Seq<I>
    decreases outs.len(),
{
    if outs.len() == 0 {
        Seq::empty()
    } else {
        yielded_items(outs.drop_last()) + match outs.last() {
            EngineYield::Item(item) => seq![item],
            _ => Seq::empty(),
        }
    }
}

/// The concatenation, in order, of every page that resolved during a
/// sequence of events.
pub open spec fn resolved_items<I, E>(events: Seq<EngineEvent<I, E>>) -> Seq<I>
    decreases events.len(),
{
    if events.len() == 0 {
        Seq::empty()
    } else {
        resolved_items(events.drop_last()) + match events.last() {
            EngineEvent::PageResolved(page) => page,
            _ => Seq::empty(),
        }
    }
}

/// The items still buffered in a state.
pub open spec fn buffered_items<I>(state: EngineState<I>) -> Seq<I> {
    match state {
        EngineState::Draining { buffer } => buffer,
        _ => Seq::empty(),
    }
}

/// Order preservation: in any run of the engine from its starting state, the
/// items yielded so far followed by the items still buffered are exactly the
/// concatenation of the resolved pages, in order. In particular, once the
/// run ends closed — pulled until completion — the consumer has received
/// every page's items, concatenated in the exact order the source returned
/// them.
pub proof fn lemma_order_preservation<I, E>(
    events: Seq<EngineEvent<I, E>>,
    states: Seq<EngineState<I>>,
    outs: Seq<EngineYield<I, E>>,
)
    requires
        valid_run(EngineState::Requesting, events, states, outs),
    ensures
        yielded_items(outs) + buffered_items(states.last()) == resolved_items(events),
        states.last() is Closed ==> yielded_items(outs) == resolved_items(events),
    decreases events.len(),
{
    if events.len() == 0 {
        assert(yielded_items(outs) + buffered_items(states.last()) =~= resolved_items(events));
    } else {
        lemma_order_preservation(events.drop_last(), states.drop_last(), outs.drop_last());
        let pre = states[states.len() - 2];
        assert(states.drop_last().last() == pre);
        assert(engine_step(pre, events.last(), states.last(), outs.last()));
        match (pre, events.last()) {
            (EngineState::Awaiting, EngineEvent::PageResolved(page)) => {
                assert(page =~= seq![page[0]] + page.drop_first());
                assert(yielded_items(outs) + buffered_items(states.last()) =~= resolved_items(
                    events,
                ));
            },
            (EngineState::Draining { buffer }, EngineEvent::Polled) => {
                if buffer.len() > 0 {
                    assert(buffer =~= seq![buffer[0]] + buffer.drop_first());
                }
                assert(yielded_items(outs) + buffered_items(states.last()) =~= resolved_items(
                    events,
                ));
            },
            _ => {
                assert(yielded_items(outs) + buffered_items(states.last()) =~= resolved_items(
                    events,
                ));
            },
        }
        if states.last() is Closed {
            assert(yielded_items(outs) =~= yielded_items(outs) + buffered_items(states.last()));
        }
    }
}

/// Once a run reaches `Closed`, it stays closed, and every later pull yields
/// completion.
pub proof fn lemma_closed_persists<I, E>(
    start: EngineState<I>,
    events: Seq<EngineEvent<I, E>>,
    states: Seq<EngineState<I>>,
    outs: Seq<EngineYield<I, E>>,
    position: int,
)
    requires
        valid_run(start, events, states, outs),
        0 <= position < states.len(),
        states[position] is Closed,
    ensures
        forall|later: int| position <= later < states.len() ==> states[later] is Closed,
        forall|later: int| position <= later < outs.len() ==> outs[later] is Done,
    decreases events.len(),
{
    if events.len() > 0 {
        if position < states.len() - 1 {
            lemma_closed_persists(start, events.drop_last(), states.drop_last(), outs.drop_last(),
                position);
            assert(forall|later: int|
                position <= later < states.len() - 1 ==> states.drop_last()[later]
                    == states[later]);
            assert(forall|later: int|
                position <= later < outs.len() - 1 ==> outs.drop_last()[later] == outs[later]);
            assert(states[states.len() - 2] is Closed);
            assert(engine_step(states[states.len() - 2], events.last(), states.last(),
                outs.last()));
        }
    }
}

/// Error terminality: once a pull has yielded an error, the engine is closed
/// immediately afterwards, every later pull yields completion, and in
/// particular no second error and no further item is ever produced.
pub proof fn lemma_error_terminality<I, E>(
    start: EngineState<I>,
    events: Seq<EngineEvent<I, E>>,
    states: Seq<EngineState<I>>,
    outs: Seq<EngineYield<I, E>>,
    position: int,
)
    requires
        valid_run(start, events, states, outs),
        0 <= position < outs.len(),
        outs[position] is Failed,
    ensures
        states[position + 1] is Closed,
        forall|later: int| position < later < outs.len() ==> outs[later] is Done,
    decreases events.len(),
{
    if position == events.len() - 1 {
        assert(engine_step(states[position], events[position], states[position + 1],
            outs[position])) by {
            lemma_run_indexes_steps(start, events, states, outs, position);
        }
        assert(states[position + 1] is Closed);
    } else {
        lemma_error_terminality(start, events.drop_last(), states.drop_last(), outs.drop_last(),
            position);
    }
    lemma_closed_persists(start, events, states, outs, position + 1);
}

/// Every consecutive pair of a valid run is relateable through
/// [`engine_step`], not only the final one.
pub proof fn lemma_run_indexes_steps<I, E>(
    start: EngineState<I>,
    events: Seq<EngineEvent<I, E>>,
    states: Seq<EngineState<I>>,
    outs: Seq<EngineYield<I, E>>,
    position: int,
)
    requires
        valid_run(start, events, states, outs),
        0 <= position < events.len(),
    ensures
        engine_step(states[position], events[position], states[position + 1], outs[position]),
    decreases events.len(),
{
    if position < events.len() - 1 {
        lemma_run_indexes_steps(start, events.drop_last(), states.drop_last(), outs.drop_last(),
            position);
    }
}

/// Idempotent completion: a run that starts closed stays closed, and every
/// pull — no matter how many — yields completion.
pub proof fn lemma_idempotent_completion<I, E>(
    events: Seq<EngineEvent<I, E>>,
    states: Seq<EngineState<I>>,
    outs: Seq<EngineYield<I, E>>,
)
    requires
        valid_run(EngineState::Closed, events, states, outs),
    ensures
        forall|later: int| 0 <= later < states.len() ==> states[later] is Closed,
        forall|later: int| 0 <= later < outs.len() ==> outs[later] is Done,
{
    lemma_closed_persists(EngineState::Closed, events, states, outs, 0);
}

} // verus!
