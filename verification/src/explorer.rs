use vstd::prelude::*;

use crate::bridge::{
    err_to_string, new_result_channel, new_url_channel, parse_url_ok, url_is_valid, PollOutcome,
    ResultReceiver, UrlSender,
};
use crate::metadata::MetadataTree;
use crate::render::{render_tree, sections_shape, tree_sections_text, PalletSection};
use crate::timeout::{Timeout, TIMEOUT_MS};

verus! {

/// The explorer's whole session state: the URL under edit, the stored
/// outcome of the last answered request, the timeout guard, and the two
/// channel halves that connect the interface to the background fetch task.
///
/// Only `url` outlives a run; everything else is rebuilt fresh at startup.
pub struct ApiExplorer {
    pub url: String,
    pub response: Option<MetadataTree>,
    pub request_error: Option<String>,
    pub timeout: Timeout,
    pub sender: UrlSender,
    pub receiver: ResultReceiver,
}

/// What the request panel asks the drawing layer to show for one frame.
pub struct RequestPanel {
    /// The trigger control is interactive exactly when the URL text parses.
    pub trigger_enabled: bool,
    /// The stored request error, for an inline message in warning colour.
    pub error_text: Option<String>,
    /// Whether to warn that a non-empty URL text does not parse.
    pub show_invalid: bool,
}

/// Everything one frame of the interface shows, computed from the state.
pub struct FrameOutput {
    /// `None`: the controls are enabled. `Some(s)`: they are disabled while
    /// a request is outstanding, and a countdown of `s` seconds is shown.
    pub waiting_secs: Option<u64>,
    pub request: RequestPanel,
    /// One drawn section per pallet of the stored tree, if one is stored.
    pub sections: Option<Vec<PalletSection>>,
}

/// The inline message shown when the inbound channel reports the fetch
/// task gone for good.
pub open spec fn disconnect_text() -> Seq<char> {
    "The sender disconnected! Please, restart the app"@
}

/// The message a failed send is reported with.
pub open spec fn send_failed_text() -> Seq<char> {
    "channel closed"@
}

/// How one poll outcome of the inbound channel moves the state, and what
/// the poll handler reports: a ready reply stores the tree or hands back
/// the failure message, and either way spends the timeout so the controls
/// re-enable; an empty channel changes nothing; a disconnected channel
/// reports the fatal message. The `receiver` half is deliberately not
/// related: polling consumes from it.
pub open spec fn poll_step(
    pre: ApiExplorer,
    post: ApiExplorer,
    poll: PollOutcome,
    r: Result<(), String>,
) -> bool {
    &&& post.url == pre.url
    &&& post.sender == pre.sender
    &&& post.request_error == pre.request_error
    &&& post.timeout.duration == pre.timeout.duration
    &&& match poll {
        PollOutcome::Ready(reply) => match reply {
            Ok(tree) => {
                &&& r is Ok
                &&& post.response == Some(tree)
                &&& post.timeout.deadline is None
            },
            Err(msg) => {
                &&& r == Err::<(), String>(msg)
                &&& post.response == pre.response
                &&& post.timeout.deadline is None
            },
        },
        PollOutcome::Empty => {
            &&& r is Ok
            &&& post.response == pre.response
            &&& post.timeout == pre.timeout
        },
        PollOutcome::Disconnected => {
            &&& r matches Err(m) && m@ == disconnect_text()
            &&& post.response == pre.response
            &&& post.timeout == pre.timeout
        },
    }
}

/// How one whole poll-and-store pass over the inbound channel moves the
/// state: with a response already stored nothing changes; otherwise the
/// poll outcome decides as in [`poll_step`], and a failure or disconnection
/// message is stored for inline display.
///
/// Nothing ties a reply to the request that prompted it: a reply arriving
/// after the wait budget ran out is still stored by the next poll, last
/// write wins. With one request in flight at a time this cannot clobber a
/// newer outcome, but it is a gap to keep in mind, not a guarantee.
pub open spec fn response_step(pre: ApiExplorer, post: ApiExplorer, poll: PollOutcome) -> bool {
    &&& post.url == pre.url
    &&& post.sender == pre.sender
    &&& post.timeout.duration == pre.timeout.duration
    &&& if pre.response is Some {
        &&& post.response == pre.response
        &&& post.request_error == pre.request_error
        &&& post.timeout == pre.timeout
    } else {
        match poll {
            PollOutcome::Ready(reply) => match reply {
                Ok(tree) => {
                    &&& post.response == Some(tree)
                    &&& post.request_error == pre.request_error
                    &&& post.timeout.deadline is None
                },
                Err(msg) => {
                    &&& post.response is None
                    &&& post.request_error == Some(msg)
                    &&& post.timeout.deadline is None
                },
            },
            PollOutcome::Empty => {
                &&& post.response == pre.response
                &&& post.request_error == pre.request_error
                &&& post.timeout == pre.timeout
            },
            PollOutcome::Disconnected => {
                &&& post.response is None
                &&& post.request_error matches Some(m) && m@ == disconnect_text()
                &&& post.timeout == pre.timeout
            },
        }
    }
}

/// How one pass over the request panel moves the state: the trigger is
/// interactive exactly for a URL that parses; a click on it clears the
/// stored outcome, starts the wait and sends the URL, unless the channel
/// is closed, in which case the failure is stored instead; and a stored
/// error keeps the wait spent while it is displayed.
pub open spec fn request_step(
    pre: ApiExplorer,
    post: ApiExplorer,
    clicked: bool,
    now_ms: u64,
    out: RequestPanel,
) -> bool {
    let valid = url_is_valid(pre.url@);
    &&& post.url == pre.url
    &&& post.receiver == pre.receiver
    &&& post.timeout.duration == pre.timeout.duration
    &&& out.trigger_enabled == valid
    &&& out.show_invalid == (!valid && pre.url@.len() > 0)
    &&& out.error_text == post.request_error
    &&& if clicked && valid {
        &&& post.response is None
        &&& {
            ||| {
                &&& post.sender.sent() == pre.sender.sent().push(pre.url@)
                &&& post.request_error is None
                &&& post.timeout.deadline == Some((now_ms + pre.timeout.duration) as u64)
            }
            ||| {
                &&& post.sender.sent() == pre.sender.sent()
                &&& post.request_error matches Some(m) && m@ == send_failed_text()
                &&& post.timeout.deadline is None
            }
        }
    } else {
        &&& post.sender == pre.sender
        &&& post.response == pre.response
        &&& post.request_error == pre.request_error
        &&& post.timeout.deadline == if pre.request_error is Some {
            None::<u64>
        } else {
            pre.timeout.deadline
        }
    }
}

impl ApiExplorer {
    /// What outlives a run: the endpoint URL text alone.
    pub open spec fn persisted_state(self) -> Seq<char> {
        self.url@
    }

    /// A session rebuilt fresh around a restored URL text: nothing
    /// received, nothing failed, no wait running, five-second budget.
    pub open spec fn restored_from(self, saved: Seq<char>) -> bool {
        &&& self.url@ == saved
        &&& self.response is None
        &&& self.request_error is None
        &&& self.timeout.deadline is None
        &&& self.timeout.duration == TIMEOUT_MS
    }

    /// Fresh session state around the two channel halves the fetch task's
    /// counterparts were split from, with the restored URL text.
    pub fn with_channels(url: String, sender: UrlSender, receiver: ResultReceiver) -> (r: Self)
        ensures
            r.restored_from(url@),
            r.url == url,
            r.sender == sender,
    {
        ApiExplorer {
            url,
            response: None,
            request_error: None,
            timeout: Timeout::default(),
            sender,
            receiver,
        }
    }

    /// Replace the URL text under edit; nothing else moves.
    pub fn set_url(&mut self, url: String)
        ensures
            final(self).url == url,
            final(self).response == old(self).response,
            final(self).request_error == old(self).request_error,
            final(self).timeout == old(self).timeout,
            final(self).sender == old(self).sender,
            final(self).receiver == old(self).receiver,
    {
        self.url = url;
    }

    /// The text persisted at shutdown: the endpoint URL exactly.
    pub fn save(&self) -> (r: String)
        ensures
            r@ == self.persisted_state(),
    {
        self.url.clone()
    }

    /// Clear the stored outcome, start the wait and hand the URL to the
    /// fetch task; a closed channel is reported as the failure message.
    pub fn request_metadata(&mut self, now_ms: u64) -> (r: Result<(), String>)
        requires
            now_ms + old(self).timeout.duration <= u64::MAX,
        ensures
            final(self).url == old(self).url,
            final(self).receiver == old(self).receiver,
            final(self).response is None,
            final(self).request_error is None,
            final(self).timeout.duration == old(self).timeout.duration,
            final(self).timeout.deadline == Some((now_ms + old(self).timeout.duration) as u64),
            !final(self).timeout.spec_passed(now_ms),
            match r {
                Ok(()) => final(self).sender.sent() == old(self).sender.sent().push(
                    old(self).url@,
                ),
                Err(m) => final(self).sender.sent() == old(self).sender.sent() && m@
                    == send_failed_text(),
            },
    {
        self.request_error = None;
        self.response = None;
        self.timeout.start(now_ms);
        match self.sender.send(self.url.clone()) {
            Ok(()) => Ok(()),
            Err(e) => Err(err_to_string(&e)),
        }
    }

    /// Apply one poll outcome of the inbound channel, exactly as
    /// [`poll_step`] states.
    pub fn handle_poll(&mut self, poll: PollOutcome) -> (r: Result<(), String>)
        requires
            old(self).response is None,
        ensures
            poll_step(*old(self), *final(self), poll, r),
            final(self).receiver == old(self).receiver,
    {
        match poll {
            PollOutcome::Ready(reply) => match reply {
                Ok(tree) => {
                    self.response = Some(tree);
                    self.timeout.reset();
                    Ok(())
                },
                Err(msg) => {
                    self.timeout.reset();
                    Err(msg)
                },
            },
            PollOutcome::Empty => Ok(()),
            PollOutcome::Disconnected => Err(
                "The sender disconnected! Please, restart the app".to_owned(),
            ),
        }
    }

    /// Poll the inbound channel once, non-blockingly, unless a response is
    /// already stored; a ready reply moves the state as [`poll_step`] says.
    pub fn check_response(&mut self) -> (r: Result<(), String>)
        ensures
            old(self).response is Some ==> {
                &&& *final(self) == *old(self)
                &&& r is Ok
            },
            old(self).response is None ==> exists|poll: PollOutcome|
                #[trigger] poll_step(*old(self), *final(self), poll, r),
    {
        if self.response.is_some() {
            return Ok(());
        }
        let poll = self.receiver.try_recv();
        let r = self.handle_poll(poll);
        proof {
            assert(poll_step(*old(self), *self, poll, r));
        }
        r
    }

    /// One poll-and-store pass, then the drawn sections of the stored tree
    /// if one is stored: the state moves as [`response_step`] says for the
    /// poll outcome the channel answered with.
    pub fn render_response(&mut self) -> (out: Option<Vec<PalletSection>>)
        ensures
            exists|poll: PollOutcome| #[trigger] response_step(*old(self), *final(self), poll),
            match final(self).response {
                Some(tree) => out matches Some(s) && sections_shape(s@) == tree_sections_text(
                    tree,
                ),
                None => out is None,
            },
    {
        let r = self.check_response();
        let ghost mid = *self;
        let ghost gr = r;
        match r {
            Ok(()) => {},
            Err(e) => {
                self.request_error = Some(e);
            },
        }
        proof {
            if old(self).response is Some {
                assert(response_step(*old(self), *self, PollOutcome::Empty));
            } else {
                let p = choose|p: PollOutcome| poll_step(*old(self), mid, p, gr);
                assert(response_step(*old(self), *self, p));
            }
        }
        match &self.response {
            Some(tree) => Some(render_tree(tree)),
            None => None,
        }
    }

    /// The request panel's decision for one frame: validate the URL text,
    /// send it on a click of the enabled trigger, and report what to show,
    /// exactly as [`request_step`] states.
    pub fn render_request(&mut self, clicked: bool, now_ms: u64) -> (out: RequestPanel)
        requires
            now_ms + old(self).timeout.duration <= u64::MAX,
        ensures
            request_step(*old(self), *final(self), clicked, now_ms, out),
    {
        let is_valid = parse_url_ok(self.url.as_str());
        if clicked && is_valid {
            match self.request_metadata(now_ms) {
                Ok(()) => {},
                Err(e) => {
                    self.request_error = Some(e);
                },
            }
        }
        if self.request_error.is_some() {
            self.timeout.reset();
        }
        let error_text = match &self.request_error {
            Some(e) => Some(e.clone()),
            None => None,
        };
        let show_invalid = !is_valid && !self.url.as_str().is_empty();
        RequestPanel { trigger_enabled: is_valid, error_text, show_invalid }
    }

    /// Whether the controls are disabled while a request is outstanding:
    /// `None` means enabled; `Some(s)` means disabled, with a countdown of
    /// `s` seconds to show (the seconds left, counted upward from one).
    pub fn check_timeout_disable(&self, now_ms: u64) -> (r: Option<u64>)
        ensures
            r is None <==> self.timeout.spec_passed(now_ms),
            !self.timeout.spec_passed(now_ms) ==> r == Some(
                ((self.timeout.deadline->Some_0 - now_ms) / 1000 + 1) as u64,
            ),
    {
        if self.timeout.passed(now_ms) {
            None
        } else {
            let rem = self.timeout.remaining(now_ms);
            proof {
                vstd::arithmetic::div_mod::lemma_div_is_ordered(
                    rem as int,
                    u64::MAX as int,
                    1000,
                );
            }
            Some(rem / 1000 + 1)
        }
    }

    /// One whole frame: the countdown decision from the state as the frame
    /// begins, then the request panel's pass, then the poll-and-store pass
    /// with the drawn sections.
    pub fn update(&mut self, clicked: bool, now_ms: u64) -> (out: FrameOutput)
        requires
            now_ms + old(self).timeout.duration <= u64::MAX,
        ensures
            out.waiting_secs is None <==> old(self).timeout.spec_passed(now_ms),
            exists|mid: ApiExplorer, poll: PollOutcome|
                #![trigger request_step(*old(self), mid, clicked, now_ms, out.request), response_step(mid, *final(self), poll)]
                {
                    &&& request_step(*old(self), mid, clicked, now_ms, out.request)
                    &&& response_step(mid, *final(self), poll)
                },
            match final(self).response {
                Some(tree) => out.sections matches Some(s) && sections_shape(s@)
                    == tree_sections_text(tree),
                None => out.sections is None,
            },
    {
        let waiting_secs = self.check_timeout_disable(now_ms);
        let request = self.render_request(clicked, now_ms);
        let ghost mid = *self;
        let sections = self.render_response();
        proof {
            let p = choose|p: PollOutcome| response_step(mid, *self, p);
            assert(request_step(*old(self), mid, clicked, now_ms, request) && response_step(
                mid,
                *self,
                p,
            ));
        }
        FrameOutput { waiting_secs, request, sections }
    }
}

/// A fresh pair of bridges and the session state built around them: the
/// interface's two halves inside the state, the fetch task's two halves
/// handed back raw.
pub fn new_session(url: String) -> (r: (
    ApiExplorer,
    tokio::sync::mpsc::UnboundedReceiver<String>,
    tokio::sync::mpsc::UnboundedSender<Result<MetadataTree, String>>,
))
    ensures
        r.0.restored_from(url@),
        r.0.url == url,
        r.0.sender.sent() == Seq::<Seq<char>>::empty(),
{
    let (url_tx, url_rx) = new_url_channel();
    let (result_tx, result_rx) = new_result_channel();
    let explorer = ApiExplorer::with_channels(url, url_tx, result_rx);
    (explorer, url_rx, result_tx)
}

// What holds of the bridge for every run, stated once and proved from the
// step relations above.

/// An invalid URL text keeps the trigger disabled and puts nothing on the
/// outbound channel, whether or not a click arrives; a non-empty invalid
/// text is flagged inline.
pub proof fn lemma_invalid_url_sends_nothing(
    pre: ApiExplorer,
    post: ApiExplorer,
    clicked: bool,
    now_ms: u64,
    out: RequestPanel,
)
    requires
        !url_is_valid(pre.url@),
        request_step(pre, post, clicked, now_ms, out),
    ensures
        !out.trigger_enabled,
        post.sender.sent() == pre.sender.sent(),
        pre.url@.len() > 0 ==> out.show_invalid,
{
}

/// A click on the trigger over a valid URL that the channel accepted puts
/// exactly that one URL on the outbound channel and starts the wait, so
/// the guard has not passed.
pub proof fn lemma_trigger_sends_once(
    pre: ApiExplorer,
    post: ApiExplorer,
    now_ms: u64,
    out: RequestPanel,
)
    requires
        url_is_valid(pre.url@),
        now_ms + pre.timeout.duration <= u64::MAX,
        request_step(pre, post, true, now_ms, out),
        post.request_error is None,
    ensures
        post.sender.sent() == pre.sender.sent().push(pre.url@),
        !post.timeout.spec_passed(now_ms),
{
}

/// A success reply stores exactly the delivered tree and spends the
/// timeout, so the guard reads as passed at every instant again.
pub proof fn lemma_success_reply(
    pre: ApiExplorer,
    post: ApiExplorer,
    tree: MetadataTree,
    now_ms: u64,
)
    requires
        pre.response is None,
        response_step(pre, post, PollOutcome::Ready(Ok(tree))),
    ensures
        post.response == Some(tree),
        post.timeout.spec_passed(now_ms),
{
}

/// A failure reply stores exactly the delivered message for inline
/// display, stores no tree, and spends the timeout, so the guard reads as
/// passed at every instant again.
pub proof fn lemma_failure_reply(
    pre: ApiExplorer,
    post: ApiExplorer,
    msg: String,
    now_ms: u64,
)
    requires
        pre.response is None,
        response_step(pre, post, PollOutcome::Ready(Err(msg))),
    ensures
        post.request_error == Some(msg),
        post.response is None,
        post.timeout.spec_passed(now_ms),
{
}

/// Polling the inbound channel while it is empty moves nothing: the stored
/// response, the stored error, the timeout, the URL text and the send
/// history all stay as they were.
pub proof fn lemma_empty_poll_idempotent(pre: ApiExplorer, post: ApiExplorer)
    requires
        response_step(pre, post, PollOutcome::Empty),
    ensures
        post.response == pre.response,
        post.request_error == pre.request_error,
        post.timeout == pre.timeout,
        post.url == pre.url,
        post.sender == pre.sender,
{
}

/// With no reply by an instant past the end of the wait budget, an empty
/// poll leaves no response and no error stored, while the guard reads as
/// passed, so the controls re-enable for a retry.
pub proof fn lemma_timeout_reenables(
    pre: ApiExplorer,
    post: ApiExplorer,
    start_ms: u64,
    now_ms: u64,
)
    requires
        pre.response is None,
        pre.request_error is None,
        start_ms + pre.timeout.duration <= u64::MAX,
        pre.timeout.deadline == Some((start_ms + pre.timeout.duration) as u64),
        now_ms > start_ms + pre.timeout.duration,
        response_step(pre, post, PollOutcome::Empty),
    ensures
        post.response is None,
        post.request_error is None,
        post.timeout.spec_passed(now_ms),
{
}

/// Round trip: a session restored from a saved endpoint URL text saves the
/// very same text again, character for character.
pub proof fn lemma_persisted_url_round_trip(before: ApiExplorer, after: ApiExplorer)
    requires
        after.restored_from(before.persisted_state()),
    ensures
        after.persisted_state() == before.persisted_state(),
{
}

} // verus!
