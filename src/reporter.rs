use vstd::prelude::*;

verus! {

/// What a reporting channel's consumer does with what the channel gave.
pub enum ReportAction<T> {
    /// Write this message to the sink.
    Write(T),
    /// The channel is closed and drained: the consumer ends.
    Stop,
}

/// A consumer's history: the messages handed to its sink, in order, and
/// whether it has seen the channel close.
pub struct ConsumerView<T> {
    pub written: Seq<T>,
    pub closed: bool,
}

/// The history after one receive, `None` meaning that every sender was dropped
/// and nothing is left in the channel.
pub open spec fn consumer_after<T>(v: ConsumerView<T>, received: Option<T>) -> ConsumerView<T> {
    if v.closed {
        v
    } else {
        match received {
            Some(m) => ConsumerView { written: v.written.push(m), closed: false },
            None => ConsumerView { written: v.written, closed: true },
        }
    }
}

/// The history after a sequence of receives.
pub open spec fn consumer_after_all<T>(v: ConsumerView<T>, received: Seq<Option<T>>) -> ConsumerView<T>
    decreases received.len(),
{
    if received.len() == 0 {
        v
    } else {
        consumer_after(consumer_after_all(v, received.drop_last()), received.last())
    }
}

/// The receives that a channel yields once `messages` were sent and every
/// sender dropped: each message in the order sent, then the end.
pub open spec fn drained<T>(messages: Seq<T>) -> Seq<Option<T>> {
    messages.map_values(|m: T| Some(m)).push(None)
}

/// The consumer of one reporting channel: it hands every message to its sink
/// one at a time, in arrival order, and ends when the channel closes.
pub struct ReportConsumer<T> {
    closed: bool,
    written: Ghost<Seq<T>>,
}

impl<T> View for ReportConsumer<T> {
    type V = ConsumerView<T>;

    closed spec fn view(&self) -> ConsumerView<T> {
        ConsumerView { written: self.written@, closed: self.closed }
    }
}

impl<T> ReportConsumer<T> {
    /// A consumer that has written nothing yet.
    pub fn new() -> (c: ReportConsumer<T>)
        ensures
            c@.written == Seq::<T>::empty(),
            !c@.closed,
    {
        ReportConsumer { closed: false, written: Ghost(Seq::empty()) }
    }

    /// Whether the consumer has seen its channel close.
    pub fn is_closed(&self) -> (r: bool)
        ensures
            r == self@.closed,
    {
        self.closed
    }

    /// Decides what to do with one receive from the channel.
    pub fn on_receive(&mut self, received: Option<T>) -> (a: ReportAction<T>)
        ensures
            final(self)@ == consumer_after(old(self)@, received),
            match a {
                ReportAction::Write(m) => !old(self)@.closed && received == Some(m),
                ReportAction::Stop => old(self)@.closed || received is None,
            },
    {
        if self.closed {
            return ReportAction::Stop;
        }
        match received {
            Some(m) => {
                self.written = Ghost(self.written@.push(m));
                ReportAction::Write(m)
            }
            None => {
                self.closed = true;
                ReportAction::Stop
            }
        }
    }
}

proof fn lemma_drain_prefix<T>(messages: Seq<T>, k: int)
    requires
        0 <= k <= messages.len(),
    ensures
        consumer_after_all(
            ConsumerView { written: Seq::empty(), closed: false },
            messages.map_values(|m: T| Some(m)).take(k),
        ) == (ConsumerView { written: messages.take(k), closed: false }),
    decreases k,
{
    let opts = messages.map_values(|m: T| Some(m));
    if k == 0 {
        assert(opts.take(0) =~= Seq::<Option<T>>::empty());
        assert(messages.take(0) =~= Seq::<T>::empty());
    } else {
        lemma_drain_prefix(messages, k - 1);
        assert(opts.take(k).drop_last() =~= opts.take(k - 1));
        assert(messages.take(k) =~= messages.take(k - 1).push(messages[k - 1]));
    }
}

/// Once every sender of a channel is dropped, its consumer writes every message
/// that was sent, each once and in the order sent, and then ends.
pub proof fn lemma_drain_writes_every_message<T>(messages: Seq<T>)
    ensures
        consumer_after_all(ConsumerView { written: Seq::empty(), closed: false }, drained(messages))
            == (ConsumerView { written: messages, closed: true }),
{
    let opts = messages.map_values(|m: T| Some(m));
    lemma_drain_prefix(messages, messages.len() as int);
    assert(opts.take(messages.len() as int) =~= opts);
    assert(messages.take(messages.len() as int) =~= messages);
    assert(drained(messages).drop_last() =~= opts);
}

/// A closed consumer writes nothing more, whatever it receives.
pub proof fn lemma_closed_consumer_writes_nothing<T>(v: ConsumerView<T>, received: Seq<Option<T>>)
    requires
        v.closed,
    ensures
        consumer_after_all(v, received) == v,
    decreases received.len(),
{
    if received.len() > 0 {
        lemma_closed_consumer_writes_nothing(v, received.drop_last());
    }
}

} // verus!
