use vstd::prelude::*;

verus! {

/// The queue's failure on a blocking receive: every sender is gone, and no
/// item will ever come again.
#[derive(Debug)]
pub struct RecvError {
    error: String,
}

impl View for RecvError {
    type V = Seq<char>;

    closed spec fn view(&self) -> Seq<char> {
        self.error@
    }
}

impl RecvError {
    pub fn new(error: String) -> (r: Self)
        ensures
            r@ == error@,
    {
        RecvError { error }
    }

    /// The queue's own account of the failure.
    pub fn error(&self) -> (r: &str)
        ensures
            r@ == self@,
    {
        self.error.as_str()
    }
}

/// Why a non-blocking receive found no item.
#[derive(Clone, Copy, Debug, PartialEq, Eq, Structural)]
pub enum TryRecvErrorKind {
    /// Nothing is queued now; a sender is still alive, so an item may come.
    Empty,
    /// Every sender is gone: nothing will ever come.
    Disconnected,
}

/// The queue's failure on a non-blocking receive.
#[derive(Debug)]
pub struct TryRecvError {
    kind: TryRecvErrorKind,
    error: String,
}

impl View for TryRecvError {
    type V = (TryRecvErrorKind, Seq<char>);

    closed spec fn view(&self) -> (TryRecvErrorKind, Seq<char>) {
        (self.kind, self.error@)
    }
}

impl TryRecvError {
    pub fn new(kind: TryRecvErrorKind, error: String) -> (r: Self)
        ensures
            r@ == (kind, error@),
    {
        TryRecvError { kind, error }
    }

    /// A failure because the queue is empty for now.
    pub fn empty(error: String) -> (r: Self)
        ensures
            r@ == (TryRecvErrorKind::Empty, error@),
    {
        TryRecvError { kind: TryRecvErrorKind::Empty, error }
    }

    /// A failure because every sender is gone.
    pub fn disconnected(error: String) -> (r: Self)
        ensures
            r@ == (TryRecvErrorKind::Disconnected, error@),
    {
        TryRecvError { kind: TryRecvErrorKind::Disconnected, error }
    }

    pub fn kind(&self) -> (r: TryRecvErrorKind)
        ensures
            r == self@.0,
    {
        self.kind
    }

    pub fn is_empty(&self) -> (r: bool)
        ensures
            r == (self@.0 == TryRecvErrorKind::Empty),
    {
        self.kind == TryRecvErrorKind::Empty
    }

    pub fn is_disconnected(&self) -> (r: bool)
        ensures
            r == (self@.0 == TryRecvErrorKind::Disconnected),
    {
        self.kind == TryRecvErrorKind::Disconnected
    }

    /// The queue's own account of the failure.
    pub fn error(&self) -> (r: &str)
        ensures
            r@ == self@.1,
    {
        self.error.as_str()
    }
}

/// The queue's failure to take an item: no receiver is left, or the queue
/// refused it (a full bounded queue that does not wait, say). The item is
/// not queued.
#[derive(Debug)]
pub struct SendError {
    error: String,
}

impl View for SendError {
    type V = Seq<char>;

    closed spec fn view(&self) -> Seq<char> {
        self.error@
    }
}

impl SendError {
    pub fn new(error: String) -> (r: Self)
        ensures
            r@ == error@,
    {
        SendError { error }
    }

    /// The queue's own account of the failure.
    pub fn error(&self) -> (r: &str)
        ensures
            r@ == self@,
    {
        self.error.as_str()
    }
}

/// The consuming end of a queue. A `NetworkMessageSender` takes one, so the
/// dispatcher makes no choice of threading model: any channel that implements
/// this trait will do.
pub trait Receiver<T>: Send {
    /// Holds of each result that `recv` gives. An implementation may say
    /// more of its results here; by default this says nothing of them.
    open spec fn gave(&self, received: Result<T, RecvError>) -> bool {
        true
    }

    /// Waits for the next item. Items from one sender come in the order that
    /// it sent them. Fails only once every sender is gone; after that the
    /// receiver is not used again.
    fn recv(&self) -> (r: Result<T, RecvError>)
        ensures
            self.gave(r),
    ;

    /// Takes the next item if one is queued, without waiting. Fails with
    /// `TryRecvErrorKind::Empty` while a sender is alive and nothing is
    /// queued, and with `TryRecvErrorKind::Disconnected` once every sender is
    /// gone.
    fn try_recv(&self) -> Result<T, TryRecvError>;
}

/// The producing end of a queue, handed to the code that makes requests.
pub trait Sender<T>: Send {
    /// Queues `t`, or reports through `SendError` that the queue did not take
    /// it; an item is never dropped in silence.
    fn send(&self, t: T) -> Result<(), SendError>;

    /// Another handle on the same queue. Each handle may send on its own; the
    /// receiver sees the queue disconnected only once the last one is gone.
    fn box_clone(&self) -> Box<Self>
        where Self: Sized;
}

} // verus!
