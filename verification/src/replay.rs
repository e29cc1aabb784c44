//! A whole run against replies that are already at hand: what is sent, what
//! is reported and how the run ends.

use crate::clock::Timestamp;
use crate::exchange::{ApiError, ApiErrorView, Call, Reply, ReplyView, Request, RequestView};
use crate::gitlab::{GitLab, GitLabView};
use crate::workflow::{
    first_step, next_step, notice_views, Next, NextView, Notice, NoticeView, Outcome, Step,
    StepView,
};
use vstd::prelude::*;

verus! {

/// The record of a run.
#[derive(Debug, Clone, PartialEq, Eq)]
pub struct Transcript<'a> {
    /// The requests that were sent, in order, each with the call it makes.
    /// Where the replies ran out, the last of them is still unanswered.
    pub sent: Vec<(Call, Request<'a>)>,
    /// The lines that were reported, in order.
    pub notices: Vec<Notice>,
    /// How the run ended: well, with its outcome, or on a failed call, with
    /// the reason. `None` where the replies ran out before the run was over.
    pub end: Option<Result<Outcome, ApiError>>,
}

/// The record of a run as contracts see it.
pub struct TranscriptView {
    pub sent: Seq<(Call, RequestView)>,
    pub notices: Seq<NoticeView>,
    pub end: Option<Result<Outcome, ApiErrorView>>,
}

/// The requests of a list as contracts see them.
pub open spec fn sent_views(sent: Seq<(Call, Request<'_>)>) -> Seq<(Call, RequestView)> {
    sent.map_values(|pair: (Call, Request<'_>)| (pair.0, pair.1@))
}

/// The replies of a list as contracts see them.
pub open spec fn reply_views(replies: Seq<Reply>) -> Seq<ReplyView> {
    replies.map_values(|reply: Reply| reply@)
}

/// The end of a run as contracts see it.
pub open spec fn end_view(end: Option<Result<Outcome, ApiError>>) -> Option<
    Result<Outcome, ApiErrorView>,
> {
    match end {
        Some(Ok(outcome)) => Some(Ok(outcome)),
        Some(Err(error)) => Some(Err(error@)),
        None => None,
    }
}

impl<'a> View for Transcript<'a> {
    type V = TranscriptView;

    open spec fn view(&self) -> TranscriptView {
        TranscriptView {
            sent: sent_views(self.sent@),
            notices: notice_views(self.notices@),
            end: end_view(self.end),
        }
    }
}

impl TranscriptView {
    /// The status with which the process ends: zero where the run ended
    /// well, one where a call failed, `None` while the run is not over.
    pub open spec fn exit_code(self) -> Option<u8> {
        match self.end {
            Some(Ok(_)) => Some(0u8),
            Some(Err(_)) => Some(1u8),
            None => None,
        }
    }
}

/// The rest of a run that stands at `step`, when the calls still to be made
/// are answered by `replies`, first reply to first call. A run that is over
/// reads no further reply; a run that finds no reply for its request ends
/// there, unfinished.
pub open spec fn run_from(
    config: GitLabView,
    step: StepView,
    replies: Seq<ReplyView>,
    now: Timestamp,
) -> TranscriptView
    decreases replies.len(),
{
    match step.next {
        NextView::Stop(outcome) => TranscriptView {
            sent: Seq::empty(),
            notices: step.notices,
            end: Some(Ok(outcome)),
        },
        NextView::Abort(error) => TranscriptView {
            sent: Seq::empty(),
            notices: step.notices,
            end: Some(Err(error)),
        },
        NextView::Send(call, request) => {
            if replies.len() == 0 {
                TranscriptView { sent: seq![(call, request)], notices: step.notices, end: None }
            } else {
                let rest = run_from(
                    config,
                    next_step(config, call, replies[0], now),
                    replies.drop_first(),
                    now,
                );
                TranscriptView {
                    sent: seq![(call, request)] + rest.sent,
                    notices: step.notices + rest.notices,
                    end: rest.end,
                }
            }
        },
    }
}

/// A whole run under `config`, answered by `replies`, with the age of the
/// commit judged at `now`.
pub open spec fn run(config: GitLabView, replies: Seq<ReplyView>, now: Timestamp) -> TranscriptView {
    run_from(config, first_step(config), replies, now)
}

impl<'a> Transcript<'a> {
    /// The status with which the process ends: zero where the run ended
    /// well, one where a call failed, `None` while the run is not over.
    pub fn exit_code(&self) -> (code: Option<u8>)
        ensures
            code == self@.exit_code(),
    {
        match &self.end {
            Some(Ok(_)) => Some(0),
            Some(Err(_)) => Some(1),
            None => None,
        }
    }
}

impl GitLab {
    /// Runs from the first step to the end against `replies`, the first of
    /// which answers the first request, and records what happens. Nothing is
    /// sent anywhere: the replies stand for the remote.
    pub fn replay(&self, replies: Vec<Reply>, now: Timestamp) -> (transcript: Transcript<'_>)
        ensures
            transcript@ == run(self@, reply_views(replies@), now),
    {
        let ghost whole = run(self@, reply_views(replies@), now);
        let mut unread = replies;
        let mut sent: Vec<(Call, Request<'_>)> = Vec::new();
        let mut notices: Vec<Notice> = Vec::new();
        let mut step = self.begin();
        assert(sent_views(sent@) + whole.sent =~= whole.sent);
        assert(notice_views(notices@) + whole.notices =~= whole.notices);
        loop
            invariant
                whole == run(self@, reply_views(replies@), now),
                whole.sent == sent_views(sent@) + run_from(
                    self@,
                    step@,
                    reply_views(unread@),
                    now,
                ).sent,
                whole.notices == notice_views(notices@) + run_from(
                    self@,
                    step@,
                    reply_views(unread@),
                    now,
                ).notices,
                whole.end == run_from(self@, step@, reply_views(unread@), now).end,
            decreases unread.len(),
        {
            let ghost before = step@;
            let ghost reported = notice_views(notices@);
            let ghost issued = sent_views(sent@);
            let ghost rest = run_from(self@, before, reply_views(unread@), now);
            let Step { notices: fresh, next } = step;
            let mut fresh = fresh;
            notices.append(&mut fresh);
            assert(notice_views(notices@) =~= reported + before.notices);
            match next {
                Next::Stop(outcome) => {
                    let transcript = Transcript { sent, notices, end: Some(Ok(outcome)) };
                    assert(transcript@.sent =~= whole.sent);
                    assert(transcript@.notices =~= whole.notices);
                    return transcript;
                },
                Next::Abort(error) => {
                    let transcript = Transcript { sent, notices, end: Some(Err(error)) };
                    assert(transcript@.sent =~= whole.sent);
                    assert(transcript@.notices =~= whole.notices);
                    return transcript;
                },
                Next::Send(call, request) => {
                    let ghost asked = request@;
                    sent.push((call, request));
                    assert(sent_views(sent@) =~= issued + seq![(call, asked)]);
                    if unread.len() == 0 {
                        let transcript = Transcript { sent, notices, end: None };
                        assert(transcript@.sent =~= whole.sent);
                        assert(transcript@.notices =~= whole.notices);
                        return transcript;
                    }
                    let ghost answers = reply_views(unread@);
                    let reply = unread.remove(0);
                    assert(reply@ == answers[0]);
                    assert(reply_views(unread@) =~= answers.drop_first());
                    step = self.advance_at(call, reply, now);
                    let ghost after = run_from(self@, step@, reply_views(unread@), now);
                    assert(rest.sent == seq![(call, asked)] + after.sent);
                    assert(rest.notices == before.notices + after.notices);
                    assert(whole.sent =~= sent_views(sent@) + after.sent);
                    assert(whole.notices =~= notice_views(notices@) + after.notices);
                },
            }
        }
    }
}

} // verus!
