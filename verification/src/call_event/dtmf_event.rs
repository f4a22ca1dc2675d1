use vstd::prelude::*;

use crate::call_event::CallEventInfo;
use crate::call_event::CallEventInfoView;
use crate::codec::result_view;
use crate::error::CatapultErrorView;
use crate::error::CatapultResult;
use crate::text::clone_opt;
use crate::util::expect;
use crate::util::required;

verus! {

/// A keypad tone came in a call.
#[derive(Debug)]
pub struct DtmfEvent {
    digit: String,
    time: String,
}

/// The mathematical value of a [`DtmfEvent`].
pub struct DtmfEventView {
    pub digit: Seq<char>,
    pub time: Seq<char>,
}

impl DeepView for DtmfEvent {
    type V = DtmfEventView;

    closed spec fn deep_view(&self) -> DtmfEventView {
        DtmfEventView {
            digit: self.digit@,
            time: self.time@,
        }
    }
}

impl View for DtmfEvent {
    type V = DtmfEventView;

    open spec fn view(&self) -> DtmfEventView {
        self.deep_view()
    }
}

impl DtmfEventView {
    /// The event that a description stands for: what the event must have is
    /// asked for in turn, and the first that is missing decides.
    pub open spec fn new(info: CallEventInfoView) -> Result<DtmfEventView, CatapultErrorView> {
        match required(info.digit, "DtmfEvent::digit"@) {
            Err(e) => Err(e),
            Ok(digit) =>
            match required(info.time, "DtmfEvent::time"@) {
                Err(e) => Err(e),
                Ok(time) =>
                Ok(DtmfEventView { digit, time }),
            },
        }
    }
}

impl DtmfEvent {
    /// The event that a description stands for.
    pub fn new(info: &CallEventInfo) -> (r: CatapultResult<DtmfEvent>)
        ensures
            result_view(r) == DtmfEventView::new(info.deep_view()),
    {
        let digit = match expect(clone_opt(&info.digit), "DtmfEvent::digit") {
            Ok(v) => v,
            Err(e) => {
                return Err(e);
            },
        };
        let time = match expect(clone_opt(&info.time), "DtmfEvent::time") {
            Ok(v) => v,
            Err(e) => {
                return Err(e);
            },
        };
        Ok(DtmfEvent { digit, time })
    }

    pub fn get_digit(&self) -> (r: String)
        ensures
            r@ == self@.digit,
    {
        self.digit.clone()
    }

    pub fn get_time(&self) -> (r: String)
        ensures
            r@ == self@.time,
    {
        self.time.clone()
    }
}

} // verus!
