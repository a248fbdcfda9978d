//! What a DNS client hands back for one query, in plain values.

use vstd::prelude::*;

verus! {

/// One answer record of a response, as far as resolution looks at it.
#[derive(Clone, Debug, PartialEq, Eq)]
pub enum Answer {
    /// A PTR record and the name it points to.
    Ptr(String),
    /// A CNAME record and the name it redirects to.
    Cname(String),
    /// A record of any other type, with its data rendered as text.
    Other(String),
    /// A record whose data could not be decoded.
    Empty,
}

/// The mathematical value of an [`Answer`].
#[verifier::ext_equal]
pub enum AnswerView {
    Ptr(Seq<char>),
    Cname(Seq<char>),
    Other(Seq<char>),
    Empty,
}

impl View for Answer {
    type V = AnswerView;

    open spec fn view(&self) -> AnswerView {
        match self {
            Answer::Ptr(target) => AnswerView::Ptr(target@),
            Answer::Cname(target) => AnswerView::Cname(target@),
            Answer::Other(data) => AnswerView::Other(data@),
            Answer::Empty => AnswerView::Empty,
        }
    }
}

/// What came of one query: the failure that the client reports, or the answer
/// records of the response in their order.
#[derive(Clone, Debug, PartialEq, Eq)]
pub enum QueryReply {
    /// The query did not get a response; the text describes why.
    Failed(String),
    /// The response, which may hold no answer at all.
    Answers(Vec<Answer>),
}

/// The mathematical value of a [`QueryReply`].
#[verifier::ext_equal]
pub enum QueryReplyView {
    Failed(Seq<char>),
    Answers(Seq<AnswerView>),
}

impl View for QueryReply {
    type V = QueryReplyView;

    open spec fn view(&self) -> QueryReplyView {
        match self {
            QueryReply::Failed(cause) => QueryReplyView::Failed(cause@),
            QueryReply::Answers(answers) => QueryReplyView::Answers(
                answers@.map_values(|answer: Answer| answer@),
            ),
        }
    }
}

} // verus!
