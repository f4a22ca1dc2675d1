use vstd::prelude::*;

use crate::call_event::CallEventInfo;
use crate::call_event::CallEventInfoView;
use crate::codec::result_view;
use crate::error::CatapultError;
use crate::error::CatapultErrorView;
use crate::error::CatapultResult;
use crate::text::clone_opt;
use crate::text::concat;
use crate::text::str_eq;
use crate::util::expect;
use crate::util::required;

verus! {

/// How the recording ended.
#[derive(Debug, Clone, Copy, PartialEq, Eq, Structural)]
pub enum Status {
    Complete,
    Error,
}

impl DeepView for Status {
    type V = Status;

    open spec fn deep_view(&self) -> Status {
        *self
    }
}

impl Status {
    /// The word that the service uses for this value.
    pub open spec fn text(self) -> Seq<char> {
        match self {
            Status::Complete => "complete"@,
            Status::Error => "error"@,
        }
    }

    /// The value that a word of the service stands for. A word that stands
    /// for none is an error, not some value picked in its place.
    pub open spec fn of_text(text: Seq<char>) -> Result<Status, CatapultErrorView> {
        if text == "complete"@ {
            Ok(Status::Complete)
        } else if text == "error"@ {
            Ok(Status::Error)
        } else {
            Err(CatapultErrorView::Unexpected("unknown RecordingEvent status: "@ + text))
        }
    }

    /// Reads the value that a word of the service stands for.
    pub fn parse(text: &str) -> (r: CatapultResult<Status>)
        ensures
            result_view(r) == Status::of_text(text@),
    {
        if str_eq(text, "complete") {
            Ok(Status::Complete)
        } else if str_eq(text, "error") {
            Ok(Status::Error)
        } else {
            Err(CatapultError::Unexpected(concat("unknown RecordingEvent status: ", text)))
        }
    }
}

/// Each status is read back from the word that is written for it.
pub proof fn lemma_status_words(value: Status)
    ensures
        Status::of_text(value.text()) == Ok::<Status, CatapultErrorView>(value),
{
    reveal_strlit("complete");
    reveal_strlit("error");
    match value {
        Status::Complete => {},
        Status::Error => {
            assert("error"@.len() != "complete"@.len());
        },
    }
}

/// The recording of a call has ended.
#[derive(Debug)]
pub struct RecordingEvent {
    status: Status,
    id: String,
    start_time: String,
    end_time: String,
}

/// The mathematical value of a [`RecordingEvent`].
pub struct RecordingEventView {
    pub status: Status,
    pub id: Seq<char>,
    pub start_time: Seq<char>,
    pub end_time: Seq<char>,
}

impl DeepView for RecordingEvent {
    type V = RecordingEventView;

    closed spec fn deep_view(&self) -> RecordingEventView {
        RecordingEventView {
            status: self.status,
            id: self.id@,
            start_time: self.start_time@,
            end_time: self.end_time@,
        }
    }
}

impl View for RecordingEvent {
    type V = RecordingEventView;

    open spec fn view(&self) -> RecordingEventView {
        self.deep_view()
    }
}

impl RecordingEventView {
    /// The event that a description stands for: what the event must have is
    /// asked for in turn, and the first that is missing decides.
    pub open spec fn new(info: CallEventInfoView) -> Result<RecordingEventView, CatapultErrorView> {
        match required(info.status, "RecordingEvent::status"@) {
            Err(e) => Err(e),
            Ok(status_string) =>
            match Status::of_text(status_string) {
                Err(e) => Err(e),
                Ok(status) =>
                match required(info.recording_id, "RecordingEvent::id"@) {
                    Err(e) => Err(e),
                    Ok(id) =>
                    match required(info.start_time, "RecordingEvent::start_time"@) {
                        Err(e) => Err(e),
                        Ok(start_time) =>
                        match required(info.end_time, "RecordingEvent::end_time"@) {
                            Err(e) => Err(e),
                            Ok(end_time) =>
                            Ok(RecordingEventView { status, id, start_time, end_time }),
                        },
                    },
                },
            },
        }
    }
}

impl RecordingEvent {
    /// The event that a description stands for.
    pub fn new(info: &CallEventInfo) -> (r: CatapultResult<RecordingEvent>)
        ensures
            result_view(r) == RecordingEventView::new(info.deep_view()),
    {
        let status_string = match expect(clone_opt(&info.status), "RecordingEvent::status") {
            Ok(v) => v,
            Err(e) => {
                return Err(e);
            },
        };
        let status = match Status::parse(status_string.as_str()) {
            Ok(v) => v,
            Err(e) => {
                return Err(e);
            },
        };
        let id = match expect(clone_opt(&info.recording_id), "RecordingEvent::id") {
            Ok(v) => v,
            Err(e) => {
                return Err(e);
            },
        };
        let start_time = match expect(clone_opt(&info.start_time), "RecordingEvent::start_time") {
            Ok(v) => v,
            Err(e) => {
                return Err(e);
            },
        };
        let end_time = match expect(clone_opt(&info.end_time), "RecordingEvent::end_time") {
            Ok(v) => v,
            Err(e) => {
                return Err(e);
            },
        };
        Ok(RecordingEvent { status, id, start_time, end_time })
    }

    pub fn get_status(&self) -> (r: Status)
        ensures
            r == self@.status,
    {
        self.status
    }

    pub fn get_id(&self) -> (r: String)
        ensures
            r@ == self@.id,
    {
        self.id.clone()
    }

    pub fn get_start_time(&self) -> (r: String)
        ensures
            r@ == self@.start_time,
    {
        self.start_time.clone()
    }

    pub fn get_end_time(&self) -> (r: String)
        ensures
            r@ == self@.end_time,
    {
        self.end_time.clone()
    }
}

} // verus!
