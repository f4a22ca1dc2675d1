use vstd::prelude::*;

use crate::call_event::CallEventInfo;
use crate::call_event::CallEventInfoView;
use crate::codec::result_view;
use crate::error::CatapultErrorView;
use crate::error::CatapultResult;
use crate::text::clone_opt;
use crate::util::expect;
use crate::util::required;

verus! {

/// A call was answered.
#[derive(Debug)]
pub struct AnswerEvent {
    from: String,
    to: String,
    tag: Option<String>,
    time: String,
}

/// The mathematical value of an [`AnswerEvent`].
pub struct AnswerEventView {
    pub from: Seq<char>,
    pub to: Seq<char>,
    pub tag: Option<Seq<char>>,
    pub time: Seq<char>,
}

impl DeepView for AnswerEvent {
    type V = AnswerEventView;

    closed spec fn deep_view(&self) -> AnswerEventView {
        AnswerEventView {
            from: self.from@,
            to: self.to@,
            tag: self.tag.deep_view(),
            time: self.time@,
        }
    }
}

impl View for AnswerEvent {
    type V = AnswerEventView;

    open spec fn view(&self) -> AnswerEventView {
        self.deep_view()
    }
}

impl AnswerEventView {
    /// The event that a description stands for: what the event must have is
    /// asked for in turn, and the first that is missing decides.
    pub open spec fn new(info: CallEventInfoView) -> Result<AnswerEventView, CatapultErrorView> {
        match required(info.from, "Answer::from"@) {
            Err(e) => Err(e),
            Ok(from) =>
            match required(info.to, "Answer::to"@) {
                Err(e) => Err(e),
                Ok(to) =>
                match required(info.time, "Answer::time"@) {
                    Err(e) => Err(e),
                    Ok(time) =>
                    Ok(AnswerEventView { from, to, tag: info.tag, time }),
                },
            },
        }
    }
}

impl AnswerEvent {
    /// The event that a description stands for.
    pub fn new(info: &CallEventInfo) -> (r: CatapultResult<AnswerEvent>)
        ensures
            result_view(r) == AnswerEventView::new(info.deep_view()),
    {
        let from = match expect(clone_opt(&info.from), "Answer::from") {
            Ok(v) => v,
            Err(e) => {
                return Err(e);
            },
        };
        let to = match expect(clone_opt(&info.to), "Answer::to") {
            Ok(v) => v,
            Err(e) => {
                return Err(e);
            },
        };
        let time = match expect(clone_opt(&info.time), "Answer::time") {
            Ok(v) => v,
            Err(e) => {
                return Err(e);
            },
        };
        Ok(AnswerEvent { from, to, tag: clone_opt(&info.tag), time })
    }

    pub fn get_to(&self) -> (r: String)
        ensures
            r@ == self@.to,
    {
        self.to.clone()
    }

    pub fn get_from(&self) -> (r: String)
        ensures
            r@ == self@.from,
    {
        self.from.clone()
    }

    pub fn get_tag(&self) -> (r: Option<String>)
        ensures
            r.deep_view() == self@.tag,
    {
        clone_opt(&self.tag)
    }

    pub fn get_time(&self) -> (r: String)
        ensures
            r@ == self@.time,
    {
        self.time.clone()
    }
}

} // verus!
