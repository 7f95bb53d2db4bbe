use vstd::prelude::*;

use crate::channel::{Receiver, RecvError};
use crate::request::SendRequest;

verus! {

/// The network's failure to deliver one message: an unknown peer, a closed
/// connection, an I/O error.
#[derive(Clone, Debug)]
pub struct NetworkError {
    error: String,
}

impl View for NetworkError {
    type V = Seq<char>;

    closed spec fn view(&self) -> Seq<char> {
        self.error@
    }
}

impl NetworkError {
    pub fn new(error: String) -> (r: Self)
        ensures
            r@ == error@,
    {
        NetworkError { error }
    }

    /// The network's own account of the failure.
    pub fn error(&self) -> (r: &str)
        ensures
            r@ == self@,
    {
        self.error.as_str()
    }
}

/// The peers that a `NetworkMessageSender` delivers to. It may be shared with
/// other users, so an implementation does its own locking.
pub trait Network {
    /// Holds of each answer that `send` gives on a delivery of `payload` to
    /// `recipient`. An implementation may say more of its answers here; by
    /// default this says nothing of them.
    open spec fn answers(
        &self,
        recipient: Seq<char>,
        payload: Seq<u8>,
        answer: Result<(), Seq<char>>,
    ) -> bool {
        true
    }

    /// Delivers `payload` to the peer named `recipient`, once.
    fn send(&self, recipient: &str, payload: &[u8]) -> (r: Result<(), NetworkError>)
        ensures
            self.answers(recipient@, payload@, delivered_view(r)),
    ;
}

/// A request that the network failed to deliver, and why. The request is
/// dropped; this is the dispatcher's report of it.
#[derive(Clone, Debug)]
pub struct DeliveryFailure {
    recipient: String,
    error: NetworkError,
}

impl View for DeliveryFailure {
    /// The recipient's characters and the network's account of the failure.
    type V = (Seq<char>, Seq<char>);

    closed spec fn view(&self) -> (Seq<char>, Seq<char>) {
        (self.recipient@, self.error@)
    }
}

impl DeliveryFailure {
    pub fn recipient(&self) -> (r: &str)
        ensures
            r@ == self@.0,
    {
        self.recipient.as_str()
    }

    pub fn error(&self) -> (r: &NetworkError)
        ensures
            r@ == self@.1,
    {
        &self.error
    }
}

/// Why the dispatcher stopped.
#[derive(Debug)]
pub enum NetworkMessageSenderError {
    /// The queue is disconnected; the text says what the queue reported.
    RecvError(String),
}

impl View for NetworkMessageSenderError {
    type V = Seq<char>;

    open spec fn view(&self) -> Seq<char> {
        match self {
            NetworkMessageSenderError::RecvError(message) => message@,
        }
    }
}

/// The text that std's `Debug` writes for a string: quoted, with escapes.
pub uninterp spec fn debug_of(s: Seq<char>) -> Seq<char>;

/// Relies on std's `Debug` for `str`, through `format!("{:?}")`: the quoted
/// and escaped form of `s`, which depends on its characters alone.
#[verifier::external_body]
fn debug_str(s: &str) -> (r: String)
    ensures
        r@ == debug_of(s@),
{
    format!("{:?}", s)
}

/// The text of the error that stops the dispatcher, from the `Debug` form of
/// the queue's cause: the way a `RecvError` prints, after "Recv Error: ".
pub open spec fn recv_error_text(debug_cause: Seq<char>) -> Seq<char> {
    "Recv Error: RecvError { error: "@ + debug_cause + " }"@
}

/// The text of the error that a disconnect with the given cause stops the
/// dispatcher with.
pub open spec fn recv_failure_message(cause: Seq<char>) -> Seq<char> {
    recv_error_text(debug_of(cause))
}

/// Builds the error text from the `Debug` form of the queue's cause.
pub fn recv_error_message(debug_cause: &str) -> (r: String)
    ensures
        r@ == recv_error_text(debug_cause@),
{
    String::from_str("Recv Error: RecvError { error: ").concat(debug_cause).concat(" }")
}

impl NetworkMessageSenderError {
    /// The error that stops the dispatcher when its queue reports `recv_error`.
    pub fn from_recv_error(recv_error: RecvError) -> (r: Self)
        ensures
            r is RecvError,
            r@ == recv_failure_message(recv_error@),
    {
        let debug_cause = debug_str(recv_error.error());
        NetworkMessageSenderError::RecvError(recv_error_message(debug_cause.as_str()))
    }
}

/// Lets `?` turn a disconnect into the error that stops the dispatcher, with
/// the same text as `NetworkMessageSenderError::from_recv_error`.
impl From<RecvError> for NetworkMessageSenderError {
    fn from(recv_error: RecvError) -> (r: Self)
        ensures
            r is RecvError,
            r@ == recv_failure_message(recv_error@),
    {
        NetworkMessageSenderError::from_recv_error(recv_error)
    }
}

/// The text is a `String`, which no spec function can build, so the result
/// of `from` is stated by its own `ensures` rather than through `from_spec`.
impl vstd::std_specs::convert::FromSpecImpl<RecvError> for NetworkMessageSenderError {
    open spec fn obeys_from_spec() -> bool {
        false
    }

    open spec fn from_spec(v: RecvError) -> Self {
        NetworkMessageSenderError::RecvError(arbitrary())
    }
}

/// What the network's answer on a delivery of `request` leaves to report:
/// nothing when it was delivered, else the recipient and the cause.
pub open spec fn settled(request: (Seq<char>, Seq<u8>), delivered: Result<(), Seq<char>>) -> Option<
    (Seq<char>, Seq<char>),
> {
    match delivered {
        Ok(()) => None,
        Err(cause) => Some((request.0, cause)),
    }
}

/// One step of the dispatcher, from what the queue handed it and the
/// network's answer: a disconnect stops it with an error, anything else lets
/// it go on, with the failed delivery to report if there was one.
pub open spec fn step(
    received: Result<(Seq<char>, Seq<u8>), Seq<char>>,
    delivered: Result<(), Seq<char>>,
) -> Result<Option<(Seq<char>, Seq<char>)>, Seq<char>> {
    match received {
        Err(cause) => Err(recv_failure_message(cause)),
        Ok(request) => Ok(settled(request, delivered)),
    }
}

/// What a receive from the queue gave, over views.
pub open spec fn received_view(received: Result<SendRequest, RecvError>) -> Result<
    (Seq<char>, Seq<u8>),
    Seq<char>,
> {
    match received {
        Ok(request) => Ok(request@),
        Err(e) => Err(e@),
    }
}

/// The network's answer on a delivery, over views.
pub open spec fn delivered_view(delivered: Result<(), NetworkError>) -> Result<(), Seq<char>> {
    match delivered {
        Ok(()) => Ok(()),
        Err(e) => Err(e@),
    }
}

/// A reported failure, if any, over views.
pub open spec fn report_view(report: Option<DeliveryFailure>) -> Option<(Seq<char>, Seq<char>)> {
    match report {
        Some(failure) => Some(failure@),
        None => None,
    }
}

/// The result of a dispatcher step, over views.
pub open spec fn step_view(r: Result<Option<DeliveryFailure>, NetworkMessageSenderError>) -> Result<
    Option<(Seq<char>, Seq<char>)>,
    Seq<char>,
> {
    match r {
        Ok(report) => Ok(report_view(report)),
        Err(e) => Err(e@),
    }
}

/// Turns the network's answer on a delivery of `request` into the report of
/// a failure, if it failed. The request itself is dropped either way.
pub fn settle(request: SendRequest, delivered: Result<(), NetworkError>) -> (r: Option<
    DeliveryFailure,
>)
    ensures
        report_view(r) == settled(request@, delivered_view(delivered)),
{
    match delivered {
        Ok(()) => None,
        Err(error) => Some(
            DeliveryFailure { recipient: String::from_str(request.recipient()), error },
        ),
    }
}

/// A failed delivery does not stop the dispatcher: it goes on, and reports
/// the request's recipient with the network's cause.
pub proof fn lemma_delivery_failure_is_not_fatal(request: (Seq<char>, Seq<u8>), cause: Seq<char>)
    ensures
        step(Ok(request), Err(cause)) == Ok::<Option<(Seq<char>, Seq<char>)>, Seq<char>>(
            Some((request.0, cause)),
        ),
{
}

/// Only a disconnected queue stops the dispatcher, whatever the network
/// answers, and the error it stops with carries the queue's cause.
pub proof fn lemma_only_disconnect_is_fatal(
    received: Result<(Seq<char>, Seq<u8>), Seq<char>>,
    delivered: Result<(), Seq<char>>,
)
    ensures
        step(received, delivered) is Err <==> received is Err,
        received is Err ==> step(received, delivered)->Err_0 == recv_failure_message(
            received->Err_0,
        ),
{
}

/// Drains a queue of `SendRequest`s into a `Network`.
///
/// The queue and the network are type parameters rather than trait objects,
/// so that the contracts can speak of the `Receiver` and `Network` they were
/// given.
///
/// Each request is handed to the network once and then dropped, whether it
/// was delivered or not: a bad recipient or a network error never stops the
/// dispatcher. Only a disconnected queue does.
pub struct NetworkMessageSender<R, N> {
    rc: Box<R>,
    network: N,
}

impl<R: Receiver<SendRequest>, N: Network> NetworkMessageSender<R, N> {
    /// The queue that the dispatcher drains.
    pub closed spec fn receiver(&self) -> R {
        *self.rc
    }

    /// The network that the dispatcher delivers to.
    pub closed spec fn network(&self) -> N {
        self.network
    }

    pub fn new(rc: Box<R>, network: N) -> (r: Self)
        ensures
            r.receiver() == *rc,
            r.network() == network,
    {
        NetworkMessageSender { rc, network }
    }

    /// What a step that acted on `received` may return: a disconnect gives
    /// the error that stops the dispatcher; a request is handed to the
    /// network, and the result is what the network's answer leaves to report.
    pub open spec fn dispatched(
        &self,
        received: Result<SendRequest, RecvError>,
        r: Result<Option<DeliveryFailure>, NetworkMessageSenderError>,
    ) -> bool {
        exists|delivered: Result<(), Seq<char>>|
            (received is Ok ==> self.network().answers(
                received->Ok_0@.0,
                received->Ok_0@.1,
                delivered,
            )) && step_view(r) == #[trigger] step(received_view(received), delivered)
    }

    /// Hands `request` to the network, and reports the failure if it was not
    /// delivered.
    pub fn forward(&self, request: SendRequest) -> (r: Option<DeliveryFailure>)
        ensures
            exists|delivered: Result<(), Seq<char>>|
                self.network().answers(request@.0, request@.1, delivered) && report_view(r)
                    == #[trigger] settled(request@, delivered),
    {
        let delivered = self.network.send(request.recipient(), request.payload());
        let ghost answer = delivered_view(delivered);
        let r = settle(request, delivered);
        assert(report_view(r) == settled(request@, answer));
        r
    }

    /// Acts on one result of a receive from the queue: a disconnect gives the
    /// error that stops the dispatcher; a request is forwarded, and the
    /// failure of its delivery, if any, is reported.
    pub fn dispatch(&self, received: Result<SendRequest, RecvError>) -> (r: Result<
        Option<DeliveryFailure>,
        NetworkMessageSenderError,
    >)
        ensures
            self.dispatched(received, r),
    {
        let ghost rv = received_view(received);
        match received {
            Ok(request) => {
                let ghost rq = request;
                let report = self.forward(request);
                let ghost d = choose|d: Result<(), Seq<char>>|
                    self.network().answers(rq@.0, rq@.1, d) && report_view(report)
                        == #[trigger] settled(rq@, d);
                assert(step_view(Ok(report)) == step(rv, d));
                Ok(report)
            },
            Err(e) => {
                let r = Err(NetworkMessageSenderError::from_recv_error(e));
                assert(step_view(r) == step(rv, Ok(())));
                r
            },
        }
    }

    /// Waits for the next request from the queue and forwards it to the
    /// network. An `Err` means that the queue is disconnected, and the
    /// dispatcher is done.
    pub fn dispatch_next(&self) -> (r: Result<Option<DeliveryFailure>, NetworkMessageSenderError>)
        ensures
            exists|received: Result<SendRequest, RecvError>|
                #[trigger] self.receiver().gave(received) && self.dispatched(received, r),
    {
        let received = self.rc.recv();
        let ghost g = received;
        let r = self.dispatch(received);
        assert(self.receiver().gave(g) && self.dispatched(g, r));
        r
    }
}

} // verus!
