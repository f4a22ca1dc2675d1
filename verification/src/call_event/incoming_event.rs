use vstd::prelude::*;

use crate::call_event::CallEventInfo;
use crate::call_event::CallEventInfoView;
use crate::codec::result_view;
use crate::error::CatapultErrorView;
use crate::error::CatapultResult;
use crate::text::clone_opt;
use crate::util::expect;
use crate::util::required;

verus! {

/// A call came in.
#[derive(Debug)]
pub struct IncomingEvent {
    from: String,
    to: String,
    application_id: Option<String>,
    time: String,
    tag: Option<String>,
}

/// The mathematical value of an [`IncomingEvent`].
pub struct IncomingEventView {
    pub from: Seq<char>,
    pub to: Seq<char>,
    pub application_id: Option<Seq<char>>,
    pub time: Seq<char>,
    pub tag: Option<Seq<char>>,
}

impl DeepView for IncomingEvent {
    type V = IncomingEventView;

    closed spec fn deep_view(&self) -> IncomingEventView {
        IncomingEventView {
            from: self.from@,
            to: self.to@,
            application_id: self.application_id.deep_view(),
            time: self.time@,
            tag: self.tag.deep_view(),
        }
    }
}

impl View for IncomingEvent {
    type V = IncomingEventView;

    open spec fn view(&self) -> IncomingEventView {
        self.deep_view()
    }
}

impl IncomingEventView {
    /// The event that a description stands for: what the event must have is
    /// asked for in turn, and the first that is missing decides.
    pub open spec fn new(info: CallEventInfoView) -> Result<IncomingEventView, CatapultErrorView> {
        match required(info.from, "IncomingCall::from"@) {
            Err(e) => Err(e),
            Ok(from) =>
            match required(info.to, "IncomingCall::to"@) {
                Err(e) => Err(e),
                Ok(to) =>
                match required(info.time, "IncomingCall::time"@) {
                    Err(e) => Err(e),
                    Ok(time) =>
                    Ok(IncomingEventView { from, to, application_id: info.application_id, time, tag: info.tag }),
                },
            },
        }
    }
}

impl IncomingEvent {
    /// The event that a description stands for.
    pub fn new(info: &CallEventInfo) -> (r: CatapultResult<IncomingEvent>)
        ensures
            result_view(r) == IncomingEventView::new(info.deep_view()),
    {
        let from = match expect(clone_opt(&info.from), "IncomingCall::from") {
            Ok(v) => v,
            Err(e) => {
                return Err(e);
            },
        };
        let to = match expect(clone_opt(&info.to), "IncomingCall::to") {
            Ok(v) => v,
            Err(e) => {
                return Err(e);
            },
        };
        let time = match expect(clone_opt(&info.time), "IncomingCall::time") {
            Ok(v) => v,
            Err(e) => {
                return Err(e);
            },
        };
        Ok(IncomingEvent { from, to, application_id: clone_opt(&info.application_id), time, tag: clone_opt(&info.tag) })
    }

    pub fn get_to(&self) -> (r: String)
        ensures
            r@ == self@.to,
    {
        self.to.clone()
    }

    pub fn get_from(&self) -> (r: String)
        ensures
            r@ == self@.from,
    {
        self.from.clone()
    }

    pub fn get_aplication_id(&self) -> (r: Option<String>)
        ensures
            r.deep_view() == self@.application_id,
    {
        clone_opt(&self.application_id)
    }

    pub fn get_tag(&self) -> (r: Option<String>)
        ensures
            r.deep_view() == self@.tag,
    {
        clone_opt(&self.tag)
    }

    pub fn get_time(&self) -> (r: String)
        ensures
            r@ == self@.time,
    {
        self.time.clone()
    }
}

} // verus!
