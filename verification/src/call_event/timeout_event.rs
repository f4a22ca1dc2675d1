use vstd::prelude::*;

use crate::call_event::CallEventInfo;
use crate::call_event::CallEventInfoView;
use crate::codec::result_view;
use crate::error::CatapultErrorView;
use crate::error::CatapultResult;
use crate::text::clone_opt;
use crate::util::expect;
use crate::util::required;

verus! {

/// A call was not answered in time.
#[derive(Debug)]
pub struct TimeoutEvent {
    time: String,
    from: String,
    to: String,
}

/// The mathematical value of a [`TimeoutEvent`].
pub struct TimeoutEventView {
    pub time: Seq<char>,
    pub from: Seq<char>,
    pub to: Seq<char>,
}

impl DeepView for TimeoutEvent {
    type V = TimeoutEventView;

    closed spec fn deep_view(&self) -> TimeoutEventView {
        TimeoutEventView {
            time: self.time@,
            from: self.from@,
            to: self.to@,
        }
    }
}

impl View for TimeoutEvent {
    type V = TimeoutEventView;

    open spec fn view(&self) -> TimeoutEventView {
        self.deep_view()
    }
}

impl TimeoutEventView {
    /// The event that a description stands for: what the event must have is
    /// asked for in turn, and the first that is missing decides.
    pub open spec fn new(info: CallEventInfoView) -> Result<TimeoutEventView, CatapultErrorView> {
        match required(info.time, "TimeoutEvent::time"@) {
            Err(e) => Err(e),
            Ok(time) =>
            match required(info.from, "TimeoutEvent::from"@) {
                Err(e) => Err(e),
                Ok(from) =>
                match required(info.to, "TimeoutEvent::to"@) {
                    Err(e) => Err(e),
                    Ok(to) =>
                    Ok(TimeoutEventView { time, from, to }),
                },
            },
        }
    }
}

impl TimeoutEvent {
    /// The event that a description stands for.
    pub fn new(info: &CallEventInfo) -> (r: CatapultResult<TimeoutEvent>)
        ensures
            result_view(r) == TimeoutEventView::new(info.deep_view()),
    {
        let time = match expect(clone_opt(&info.time), "TimeoutEvent::time") {
            Ok(v) => v,
            Err(e) => {
                return Err(e);
            },
        };
        let from = match expect(clone_opt(&info.from), "TimeoutEvent::from") {
            Ok(v) => v,
            Err(e) => {
                return Err(e);
            },
        };
        let to = match expect(clone_opt(&info.to), "TimeoutEvent::to") {
            Ok(v) => v,
            Err(e) => {
                return Err(e);
            },
        };
        Ok(TimeoutEvent { time, from, to })
    }

    pub fn get_time(&self) -> (r: String)
        ensures
            r@ == self@.time,
    {
        self.time.clone()
    }

    pub fn get_from(&self) -> (r: String)
        ensures
            r@ == self@.from,
    {
        self.from.clone()
    }

    pub fn get_to(&self) -> (r: String)
        ensures
            r@ == self@.to,
    {
        self.to.clone()
    }
}

} // verus!
