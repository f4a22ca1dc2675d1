use vstd::prelude::*;

use crate::call_event::CallEventInfo;
use crate::call_event::CallEventInfoView;
use crate::codec::result_view;
use crate::error::CatapultError;
use crate::error::CatapultErrorView;
use crate::error::CatapultResult;
use crate::text::clone_opt;
use crate::text::concat;
use crate::text::str_eq;
use crate::util::expect;
use crate::util::required;

verus! {

/// Whether the speaking has started or ended.
#[derive(Debug, Clone, Copy, PartialEq, Eq, Structural)]
pub enum Status {
    Started,
    Done,
}

impl DeepView for Status {
    type V = Status;

    open spec fn deep_view(&self) -> Status {
        *self
    }
}

impl Status {
    /// The word that the service uses for this value.
    pub open spec fn text(self) -> Seq<char> {
        match self {
            Status::Started => "started"@,
            Status::Done => "done"@,
        }
    }

    /// The value that a word of the service stands for. A word that stands
    /// for none is an error, not some value picked in its place.
    pub open spec fn of_text(text: Seq<char>) -> Result<Status, CatapultErrorView> {
        if text == "started"@ {
            Ok(Status::Started)
        } else if text == "done"@ {
            Ok(Status::Done)
        } else {
            Err(CatapultErrorView::Unexpected("unknown SpeakEvent status: "@ + text))
        }
    }

    /// Reads the value that a word of the service stands for.
    pub fn parse(text: &str) -> (r: CatapultResult<Status>)
        ensures
            result_view(r) == Status::of_text(text@),
    {
        if str_eq(text, "started") {
            Ok(Status::Started)
        } else if str_eq(text, "done") {
            Ok(Status::Done)
        } else {
            Err(CatapultError::Unexpected(concat("unknown SpeakEvent status: ", text)))
        }
    }
}

/// Each status is read back from the word that is written for it.
pub proof fn lemma_status_words(value: Status)
    ensures
        Status::of_text(value.text()) == Ok::<Status, CatapultErrorView>(value),
{
    reveal_strlit("started");
    reveal_strlit("done");
    match value {
        Status::Started => {},
        Status::Done => {
            assert("done"@.len() != "started"@.len());
        },
    }
}

/// The speaking of a sentence has started or ended.
#[derive(Debug)]
pub struct SpeakEvent {
    status: Status,
    tag: Option<String>,
    time: String,
}

/// The mathematical value of a [`SpeakEvent`].
pub struct SpeakEventView {
    pub status: Status,
    pub tag: Option<Seq<char>>,
    pub time: Seq<char>,
}

impl DeepView for SpeakEvent {
    type V = SpeakEventView;

    closed spec fn deep_view(&self) -> SpeakEventView {
        SpeakEventView {
            status: self.status,
            tag: self.tag.deep_view(),
            time: self.time@,
        }
    }
}

impl View for SpeakEvent {
    type V = SpeakEventView;

    open spec fn view(&self) -> SpeakEventView {
        self.deep_view()
    }
}

impl SpeakEventView {
    /// The event that a description stands for: what the event must have is
    /// asked for in turn, and the first that is missing decides.
    pub open spec fn new(info: CallEventInfoView) -> Result<SpeakEventView, CatapultErrorView> {
        match required(info.status, "SpeakEvent::status"@) {
            Err(e) => Err(e),
            Ok(status_string) =>
            match Status::of_text(status_string) {
                Err(e) => Err(e),
                Ok(status) =>
                match required(info.time, "SpeakEvent::time"@) {
                    Err(e) => Err(e),
                    Ok(time) =>
                    Ok(SpeakEventView { status, tag: info.tag, time }),
                },
            },
        }
    }
}

impl SpeakEvent {
    /// The event that a description stands for.
    pub fn new(info: &CallEventInfo) -> (r: CatapultResult<SpeakEvent>)
        ensures
            result_view(r) == SpeakEventView::new(info.deep_view()),
    {
        let status_string = match expect(clone_opt(&info.status), "SpeakEvent::status") {
            Ok(v) => v,
            Err(e) => {
                return Err(e);
            },
        };
        let status = match Status::parse(status_string.as_str()) {
            Ok(v) => v,
            Err(e) => {
                return Err(e);
            },
        };
        let time = match expect(clone_opt(&info.time), "SpeakEvent::time") {
            Ok(v) => v,
            Err(e) => {
                return Err(e);
            },
        };
        Ok(SpeakEvent { status, tag: clone_opt(&info.tag), time })
    }

    pub fn get_status(&self) -> (r: Status)
        ensures
            r == self@.status,
    {
        self.status
    }

    pub fn get_tag(&self) -> (r: Option<String>)
        ensures
            r.deep_view() == self@.tag,
    {
        clone_opt(&self.tag)
    }

    pub fn get_time(&self) -> (r: String)
        ensures
            r@ == self@.time,
    {
        self.time.clone()
    }
}

} // verus!
