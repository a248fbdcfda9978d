//! PTR resolution: what one reply means for the name that was asked, and the
//! chase from a name through its CNAME redirections to a PTR record.

use vstd::prelude::*;
use crate::address::IpAddress;
use crate::error::{
    chain_text, empty_text, query_error_text, unexpected_text, FailureKind, ResolvingError,
    ResolvingErrorView,
};
use crate::reply::{Answer, AnswerView, QueryReply, QueryReplyView};
use crate::reverse_name::{build_reverse_name, reverse_name};
use crate::text::{lowercase, to_lowercase};

verus! {

/// The number of CNAME redirections that [`ptr_resolve`] follows before it
/// gives a chain up.
pub const MAX_CNAME_HOPS: u32 = 8;

/// The result of resolving a name: the name that was asked last, and the name
/// that its PTR record points to, if it has one.
#[derive(Clone, Debug, PartialEq, Eq)]
pub struct ResolvedResult {
    /// For example: 8.8.8.8.in-addr.arpa.
    pub query: String,
    /// For example: dns.google.
    pub result: Option<String>,
    /// Always empty in what resolution hands out: a failure comes as a
    /// [`ResolvingError`] instead.
    pub error: Option<String>,
}

/// The mathematical value of a [`ResolvedResult`].
#[verifier::ext_equal]
pub struct ResolvedResultView {
    pub query: Seq<char>,
    pub result: Option<Seq<char>>,
    pub error: Option<Seq<char>>,
}

/// The text of a text that may be missing.
pub open spec fn optional_text(text: Option<String>) -> Option<Seq<char>> {
    match text {
        Some(text) => Some(text@),
        None => None,
    }
}

impl View for ResolvedResult {
    type V = ResolvedResultView;

    open spec fn view(&self) -> ResolvedResultView {
        ResolvedResultView {
            query: self.query@,
            result: optional_text(self.result),
            error: optional_text(self.error),
        }
    }
}

/// How a resolution ended, as a mathematical value.
pub type OutcomeView = Result<ResolvedResultView, ResolvingErrorView>;

/// The mathematical value of the end of a resolution.
pub open spec fn outcome_view(outcome: Result<ResolvedResult, ResolvingError>) -> OutcomeView {
    match outcome {
        Ok(resolved) => Ok(resolved@),
        Err(error) => Err(error@),
    }
}

/// Where a resolution stands: the name to ask next, and how many redirections
/// it may still follow after that.
#[derive(Clone, Debug, PartialEq, Eq)]
pub struct Chase {
    pub name: String,
    pub hops_left: u32,
}

/// The mathematical value of a [`Chase`].
#[verifier::ext_equal]
pub struct ChaseView {
    pub name: Seq<char>,
    pub hops_left: nat,
}

impl View for Chase {
    type V = ChaseView;

    open spec fn view(&self) -> ChaseView {
        ChaseView { name: self.name@, hops_left: self.hops_left as nat }
    }
}

/// What to do after a reply: ask again, for another name, or stop with an
/// outcome.
#[derive(Debug, PartialEq, Eq)]
pub enum Step {
    Ask(Chase),
    Done(Result<ResolvedResult, ResolvingError>),
}

/// The mathematical value of a [`Step`].
#[verifier::ext_equal]
pub enum StepView {
    Ask(ChaseView),
    Done(OutcomeView),
}

impl View for Step {
    type V = StepView;

    open spec fn view(&self) -> StepView {
        match self {
            Step::Ask(chase) => StepView::Ask(chase@),
            Step::Done(outcome) => StepView::Done(outcome_view(*outcome)),
        }
    }
}

/// A successful outcome for the query `name`.
pub open spec fn resolved(name: Seq<char>, target: Option<Seq<char>>) -> OutcomeView {
    Ok(ResolvedResultView { query: name, result: target, error: None })
}

/// A failed outcome.
pub open spec fn failed(kind: FailureKind, message: Seq<char>) -> OutcomeView {
    Err(ResolvingErrorView { kind, message })
}

/// The rules of PTR resolution, for the reply to the query that `chase`
/// names.
///
/// - A query without a response fails with the client's description.
/// - A response without answers is a success without a resolved name.
/// - Otherwise the first answer decides, and no other is looked at. A PTR
///   record resolves the name to its target in lower case. A CNAME record
///   sends the resolution on to its target in lower case, if a redirection is
///   left to follow, and fails it if none is. Any other record fails it, and
///   so does one without data.
pub open spec fn step_for(chase: ChaseView, reply: QueryReplyView) -> StepView {
    match reply {
        QueryReplyView::Failed(cause) => StepView::Done(
            failed(FailureKind::Transport, query_error_text(chase.name, cause)),
        ),
        QueryReplyView::Answers(answers) => if answers.len() == 0 {
            StepView::Done(resolved(chase.name, None))
        } else {
            match answers[0] {
                AnswerView::Ptr(target) => StepView::Done(
                    resolved(chase.name, Some(lowercase(target))),
                ),
                AnswerView::Cname(target) => if chase.hops_left == 0 {
                    StepView::Done(failed(FailureKind::ChainTooLong, chain_text(chase.name)))
                } else {
                    StepView::Ask(
                        ChaseView {
                            name: lowercase(target),
                            hops_left: (chase.hops_left - 1) as nat,
                        },
                    )
                },
                AnswerView::Other(data) => StepView::Done(
                    failed(FailureKind::UnexpectedRecord, unexpected_text(data, chase.name)),
                ),
                AnswerView::Empty => StepView::Done(
                    failed(FailureKind::EmptyRecord, empty_text(chase.name)),
                ),
            }
        },
    }
}

/// Applies the rules of PTR resolution to the reply that came for the query
/// of `chase`.
pub fn advance(chase: Chase, reply: &QueryReply) -> (step: Step)
    ensures
        step@ == step_for(chase@, reply@),
{
    match reply {
        QueryReply::Failed(cause) => Step::Done(
            Err(ResolvingError::transport(chase.name.as_str(), cause.as_str())),
        ),
        QueryReply::Answers(answers) => {
            if answers.len() == 0 {
                return Step::Done(Ok(ResolvedResult { query: chase.name, result: None, error: None }));
            }
            assert(reply@->Answers_0[0] == answers@[0]@);
            match &answers[0] {
                Answer::Ptr(target) => Step::Done(
                    Ok(
                        ResolvedResult {
                            query: chase.name,
                            result: Some(to_lowercase(target.as_str())),
                            error: None,
                        },
                    ),
                ),
                Answer::Cname(target) => {
                    if chase.hops_left == 0 {
                        Step::Done(Err(ResolvingError::chain_too_long(chase.name.as_str())))
                    } else {
                        Step::Ask(
                            Chase {
                                name: to_lowercase(target.as_str()),
                                hops_left: chase.hops_left - 1,
                            },
                        )
                    }
                },
                Answer::Other(data) => Step::Done(
                    Err(ResolvingError::unexpected_record(data.as_str(), chase.name.as_str())),
                ),
                Answer::Empty => Step::Done(
                    Err(ResolvingError::empty_record(chase.name.as_str())),
                ),
            }
        },
    }
}

/// What a client may answer: the pairs of a name and a reply such that the
/// client can give the reply when it is asked for the name.
pub type Replies = spec_fn(Seq<char>, QueryReplyView) -> bool;

/// What the client `client` may answer.
pub open spec fn replies_of<F: Fn(&str) -> QueryReply>(client: &F) -> Replies {
    |name: Seq<char>, reply: QueryReplyView|
        exists|asked: &str, given: QueryReply|
            asked@ == name && given@ == reply && #[trigger] (*client).ensures((asked,), given)
}

/// `outcome` is an end that the chase can come to: there is a reply to the
/// query of `chase` for which the rules either stop with `outcome`, or go on
/// to a chase that can come to `outcome`.
pub open spec fn resolves(replies: Replies, chase: ChaseView, outcome: OutcomeView) -> bool
    decreases chase.hops_left,
{
    exists|reply: QueryReplyView| #[trigger]
        replies(chase.name, reply) && match step_for(chase, reply) {
            StepView::Done(end) => outcome == end,
            StepView::Ask(next) => next.hops_left < chase.hops_left && resolves(
                replies,
                next,
                outcome,
            ),
        }
}

/// The chase that [`ptr_resolve`] starts for `name`.
pub open spec fn first_chase(name: Seq<char>) -> ChaseView {
    ChaseView { name, hops_left: MAX_CNAME_HOPS as nat }
}

/// Runs a chase to its end: asks the client for the name of `chase`, applies
/// the rules to the reply, and goes on with the name that they give for as
/// long as they give one.
pub fn follow<F: Fn(&str) -> QueryReply>(chase: Chase, client: &F) -> (outcome: Result<
    ResolvedResult,
    ResolvingError,
>)
    requires
        forall|asked: &str| (*client).requires((asked,)),
    ensures
        resolves(replies_of(client), chase@, outcome_view(outcome)),
    decreases chase.hops_left,
{
    let ghost start = chase@;
    let reply = client(chase.name.as_str());
    assert(replies_of(client)(start.name, reply@));
    match advance(chase, &reply) {
        Step::Done(outcome) => outcome,
        Step::Ask(next) => follow(next, client),
    }
}

/// Resolves `name` into the name that its PTR record points to, asking
/// `client` for the PTR records of `name` and of the names that CNAME records
/// redirect it to, [`MAX_CNAME_HOPS`] of them at most.
pub fn ptr_resolve<F: Fn(&str) -> QueryReply>(name: String, client: F) -> (outcome: Result<
    ResolvedResult,
    ResolvingError,
>)
    requires
        forall|asked: &str| client.requires((asked,)),
    ensures
        resolves(replies_of(&client), first_chase(name@), outcome_view(outcome)),
{
    follow(Chase { name, hops_left: MAX_CNAME_HOPS }, &client)
}

/// Resolves an address into the name that its PTR record points to: builds
/// the reverse name of the address and resolves that.
pub fn get_ptr<F: Fn(&str) -> QueryReply>(ip_address: IpAddress, client: F) -> (outcome: Result<
    ResolvedResult,
    ResolvingError,
>)
    requires
        forall|asked: &str| client.requires((asked,)),
    ensures
        resolves(replies_of(&client), first_chase(reverse_name(ip_address)), outcome_view(outcome)),
{
    ptr_resolve(build_reverse_name(&ip_address), client)
}

/// A chase that can come to an outcome with some replies can come to it with
/// any replies that hold those.
pub proof fn lemma_resolves_with_more(
    fewer: Replies,
    more: Replies,
    chase: ChaseView,
    outcome: OutcomeView,
)
    requires
        forall|name: Seq<char>, reply: QueryReplyView| #[trigger]
            fewer(name, reply) ==> more(name, reply),
        resolves(fewer, chase, outcome),
    ensures
        resolves(more, chase, outcome),
    decreases chase.hops_left,
{
    let reply = choose|reply: QueryReplyView| #[trigger]
        fewer(chase.name, reply) && match step_for(chase, reply) {
            StepView::Done(end) => outcome == end,
            StepView::Ask(next) => next.hops_left < chase.hops_left && resolves(
                fewer,
                next,
                outcome,
            ),
        };
    assert(more(chase.name, reply));
    match step_for(chase, reply) {
        StepView::Done(end) => {},
        StepView::Ask(next) => {
            lemma_resolves_with_more(fewer, more, next, outcome);
        },
    }
}

/// The reply is a response with at least one answer, and `first` is the first
/// of them.
pub open spec fn holds_first(reply: QueryReplyView, first: AnswerView) -> bool {
    match reply {
        QueryReplyView::Failed(_) => false,
        QueryReplyView::Answers(answers) => answers.len() > 0 && answers[0] == first,
    }
}

/// Every reply that `replies` holds for `name` has at least one answer, and
/// `first` is the first of them.
pub open spec fn answers_first(replies: Replies, name: Seq<char>, first: AnswerView) -> bool {
    forall|reply: QueryReplyView| #[trigger]
        replies(name, reply) ==> holds_first(reply, first)
}

/// If the rules stop on every reply that the client may give to the first
/// query, and stop with `end`, then `end` is the outcome.
pub proof fn lemma_first_reply_decides(
    replies: Replies,
    chase: ChaseView,
    end: OutcomeView,
    outcome: OutcomeView,
)
    requires
        forall|reply: QueryReplyView| #[trigger]
            replies(chase.name, reply) ==> step_for(chase, reply) == StepView::Done(end),
        resolves(replies, chase, outcome),
    ensures
        outcome == end,
{
}

/// A name whose first answer is a PTR record resolves to the target of that
/// record in lower case, without an error, whatever else the reply holds.
pub proof fn lemma_ptr_record_resolves(
    replies: Replies,
    chase: ChaseView,
    target: Seq<char>,
    outcome: OutcomeView,
)
    requires
        answers_first(replies, chase.name, AnswerView::Ptr(target)),
        resolves(replies, chase, outcome),
    ensures
        outcome == resolved(chase.name, Some(lowercase(target))),
{
    lemma_first_reply_decides(
        replies,
        chase,
        resolved(chase.name, Some(lowercase(target))),
        outcome,
    );
}

/// A name for which the response holds no answer resolves with success:
/// without a resolved name and without an error.
pub proof fn lemma_no_answer_is_a_success(replies: Replies, chase: ChaseView, outcome: OutcomeView)
    requires
        forall|reply: QueryReplyView| #[trigger]
            replies(chase.name, reply) ==> reply == QueryReplyView::Answers(Seq::empty()),
        resolves(replies, chase, outcome),
    ensures
        outcome == resolved(chase.name, None),
{
    lemma_first_reply_decides(replies, chase, resolved(chase.name, None), outcome);
}

/// A name whose query gets no response does not resolve: the outcome is a
/// failure of the transport, and its message holds a description that the
/// client gave.
pub proof fn lemma_failed_query_is_an_error(
    replies: Replies,
    chase: ChaseView,
    outcome: OutcomeView,
)
    requires
        forall|reply: QueryReplyView| #[trigger]
            replies(chase.name, reply) ==> reply is Failed,
        resolves(replies, chase, outcome),
    ensures
        exists|cause: Seq<char>| #[trigger]
            replies(chase.name, QueryReplyView::Failed(cause)) && outcome == failed(
                FailureKind::Transport,
                query_error_text(chase.name, cause),
            ),
{
    let reply = choose|reply: QueryReplyView| #[trigger]
        replies(chase.name, reply) && match step_for(chase, reply) {
            StepView::Done(end) => outcome == end,
            StepView::Ask(next) => next.hops_left < chase.hops_left && resolves(
                replies,
                next,
                outcome,
            ),
        };
    assert(replies(chase.name, QueryReplyView::Failed(reply->Failed_0)));
}

/// A name whose reply redirects it, and so on until a reply holds a PTR
/// record, resolves to the target of that PTR record and not to any of the
/// names on the way.
///
/// `names` are the names that are asked, the first of them the name to
/// resolve. The reply for each but the last holds a CNAME record first, whose
/// target in lower case is the next name; the reply for the last holds a PTR
/// record first. `targets` are the targets of those records. The chase has
/// enough redirections left for all of them.
pub proof fn lemma_cname_chain_ends_in_ptr(
    replies: Replies,
    names: Seq<Seq<char>>,
    targets: Seq<Seq<char>>,
    hops: nat,
    outcome: OutcomeView,
)
    requires
        names.len() >= 1,
        targets.len() == names.len(),
        forall|i: int|
            0 <= i < names.len() - 1 ==> answers_first(
                replies,
                #[trigger] names[i],
                AnswerView::Cname(targets[i]),
            ) && names[i + 1] == lowercase(targets[i]),
        answers_first(replies, names.last(), AnswerView::Ptr(targets.last())),
        names.len() - 1 <= hops,
        resolves(replies, ChaseView { name: names[0], hops_left: hops }, outcome),
    ensures
        outcome == resolved(names.last(), Some(lowercase(targets.last()))),
    decreases names.len(),
{
    let chase = ChaseView { name: names[0], hops_left: hops };
    let reply = choose|reply: QueryReplyView| #[trigger]
        replies(chase.name, reply) && match step_for(chase, reply) {
            StepView::Done(end) => outcome == end,
            StepView::Ask(next) => next.hops_left < chase.hops_left && resolves(
                replies,
                next,
                outcome,
            ),
        };
    if names.len() > 1 {
        assert(answers_first(replies, names[0], AnswerView::Cname(targets[0])));
        let rest = names.subrange(1, names.len() as int);
        let rest_targets = targets.subrange(1, targets.len() as int);
        assert forall|i: int| 0 <= i < rest.len() - 1 implies answers_first(
            replies,
            #[trigger] rest[i],
            AnswerView::Cname(rest_targets[i]),
        ) && rest[i + 1] == lowercase(rest_targets[i]) by {
            assert(rest[i] == names[i + 1]);
            assert(rest_targets[i] == targets[i + 1]);
            assert(rest[i + 1] == names[i + 2]);
        }
        assert(rest.last() == names.last());
        assert(rest_targets.last() == targets.last());
        lemma_cname_chain_ends_in_ptr(replies, rest, rest_targets, (hops - 1) as nat, outcome);
    }
}

} // verus!
