use vstd::prelude::*;

use crate::metadata::MetadataTree;

verus! {

// The two one-directional channels between the interface and the background
// fetch task are tokio's unbounded channels. The interface owns the sending
// half of the outbound channel and the receiving half of the inbound one;
// the fetch task owns the two opposite halves.

#[verifier::external_type_specification]
#[verifier::external_body]
#[verifier::reject_recursive_types(T)]
pub struct ExUnboundedSender<T>(tokio::sync::mpsc::UnboundedSender<T>);

#[verifier::external_type_specification]
#[verifier::external_body]
#[verifier::reject_recursive_types(T)]
pub struct ExUnboundedReceiver<T>(tokio::sync::mpsc::UnboundedReceiver<T>);

#[verifier::external_type_specification]
#[verifier::external_body]
#[verifier::reject_recursive_types(T)]
pub struct ExSendError<T>(tokio::sync::mpsc::error::SendError<T>);

/// Sending half of the outbound channel, together with the history of every
/// URL it has accepted, kept as ghost bookkeeping so contracts can say
/// exactly what a step put on the wire.
pub struct UrlSender {
    inner: tokio::sync::mpsc::UnboundedSender<String>,
    history: Ghost<Seq<Seq<char>>>,
}

impl UrlSender {
    /// Every URL this half has accepted, oldest first.
    pub closed spec fn sent(self) -> Seq<Seq<char>> {
        self.history@
    }

    /// Relies on tokio's `UnboundedSender::send`: it never blocks, queues
    /// the message when the receiving half is still alive, and otherwise
    /// fails, handing the message back inside the error. On success the
    /// message joins the send history; on failure nothing was sent.
    #[verifier::external_body]
    pub fn send(&mut self, url: String) -> (r: Result<
        (),
        tokio::sync::mpsc::error::SendError<String>,
    >)
        ensures
            r is Ok ==> final(self).sent() == old(self).sent().push(url@),
            r is Err ==> final(self).sent() == old(self).sent(),
    {
        self.inner.send(url)
    }
}

/// Relies on tokio's `unbounded_channel`: the two returned halves form one
/// empty first-in-first-out queue, so nothing has been sent yet through the
/// returned sending half.
#[verifier::external_body]
fn raw_url_channel() -> (tokio::sync::mpsc::UnboundedSender<String>, tokio::sync::mpsc::UnboundedReceiver<String>) {
    tokio::sync::mpsc::unbounded_channel()
}

/// A fresh outbound channel: the sending half with an empty send history,
/// and the raw receiving half, which goes to the fetch task.
pub fn new_url_channel() -> (r: (UrlSender, tokio::sync::mpsc::UnboundedReceiver<String>))
    ensures
        r.0.sent() == Seq::<Seq<char>>::empty(),
{
    let (tx, rx) = raw_url_channel();
    (UrlSender { inner: tx, history: Ghost(Seq::empty()) }, rx)
}

/// What one non-blocking poll of the inbound channel found.
pub enum PollOutcome {
    /// The fetch task answered: the metadata tree it retrieved, or the
    /// message of the error it ran into.
    Ready(Result<MetadataTree, String>),
    /// No answer yet; the fetch task is still alive.
    Empty,
    /// The fetch task is gone and every queued answer was consumed.
    Disconnected,
}

/// Receiving half of the inbound channel.
pub struct ResultReceiver {
    inner: tokio::sync::mpsc::UnboundedReceiver<Result<MetadataTree, String>>,
}

impl ResultReceiver {
    /// Relies on tokio's `UnboundedReceiver::try_recv`: it never blocks and
    /// answers with a queued value, with emptiness, or with disconnection
    /// once the sending half is gone and the queue drained. Which outcome
    /// comes back depends on the fetch task, so nothing more is promised of
    /// it.
    #[verifier::external_body]
    pub fn try_recv(&mut self) -> PollOutcome {
        match self.inner.try_recv() {
            Ok(resp) => PollOutcome::Ready(resp),
            Err(tokio::sync::mpsc::error::TryRecvError::Empty) => PollOutcome::Empty,
            Err(tokio::sync::mpsc::error::TryRecvError::Disconnected) => PollOutcome::Disconnected,
        }
    }
}

/// Relies on tokio's `unbounded_channel`: the two returned halves form one
/// empty first-in-first-out queue. The raw sending half goes to the fetch
/// task; the receiving half is what the interface polls.
#[verifier::external_body]
pub fn new_result_channel() -> (r: (
    tokio::sync::mpsc::UnboundedSender<Result<MetadataTree, String>>,
    ResultReceiver,
))
{
    let (tx, rx) = tokio::sync::mpsc::unbounded_channel();
    (tx, ResultReceiver { inner: rx })
}

/// Whether the `url` crate accepts the characters as a well-formed URL; a
/// function of the characters alone.
pub uninterp spec fn url_is_valid(s: Seq<char>) -> bool;

/// Relies on `url::Url::parse`: whether it accepts a string is a function
/// of the string's characters alone.
#[verifier::external_body]
pub fn parse_url_ok(s: &str) -> (r: bool)
    ensures
        r == url_is_valid(s@),
{
    url::Url::parse(s).is_ok()
}

/// Relies on tokio's `Display` for `SendError`, whose message is always
/// `channel closed`.
#[verifier::external_body]
pub fn err_to_string(e: &tokio::sync::mpsc::error::SendError<String>) -> (r: String)
    ensures
        r@ == "channel closed"@,
{
    format!("{}", e)
}

} // verus!
