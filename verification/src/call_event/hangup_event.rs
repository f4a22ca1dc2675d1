use vstd::prelude::*;

use crate::call_event::CallEventInfo;
use crate::call_event::CallEventInfoView;
use crate::codec::result_view;
use crate::error::CatapultError;
use crate::error::CatapultErrorView;
use crate::error::CatapultResult;
use crate::text::clone_opt;
use crate::text::concat;
use crate::text::str_eq;
use crate::util::expect;
use crate::util::required;

verus! {

/// Why a call ended.
#[derive(Debug, Clone, Copy, PartialEq, Eq, Structural)]
pub enum Cause {
    Rejected,
    NormalClearing,
    Busy,
}

impl DeepView for Cause {
    type V = Cause;

    open spec fn deep_view(&self) -> Cause {
        *self
    }
}

impl Cause {
    /// The word that the service uses for this value.
    pub open spec fn text(self) -> Seq<char> {
        match self {
            Cause::Rejected => "CALL_REJECTED"@,
            Cause::NormalClearing => "NORMAL_CLEARING"@,
            Cause::Busy => "USER_BUSY"@,
        }
    }

    /// The value that a word of the service stands for. A word that stands
    /// for none is an error, not some value picked in its place.
    pub open spec fn of_text(text: Seq<char>) -> Result<Cause, CatapultErrorView> {
        if text == "CALL_REJECTED"@ {
            Ok(Cause::Rejected)
        } else if text == "NORMAL_CLEARING"@ {
            Ok(Cause::NormalClearing)
        } else if text == "USER_BUSY"@ {
            Ok(Cause::Busy)
        } else {
            Err(CatapultErrorView::Unexpected("unknown HangupEvent status: "@ + text))
        }
    }

    /// Reads the value that a word of the service stands for.
    pub fn parse(text: &str) -> (r: CatapultResult<Cause>)
        ensures
            result_view(r) == Cause::of_text(text@),
    {
        if str_eq(text, "CALL_REJECTED") {
            Ok(Cause::Rejected)
        } else if str_eq(text, "NORMAL_CLEARING") {
            Ok(Cause::NormalClearing)
        } else if str_eq(text, "USER_BUSY") {
            Ok(Cause::Busy)
        } else {
            Err(CatapultError::Unexpected(concat("unknown HangupEvent status: ", text)))
        }
    }
}

/// Each cause is read back from the word that is written for it.
pub proof fn lemma_cause_words(value: Cause)
    ensures
        Cause::of_text(value.text()) == Ok::<Cause, CatapultErrorView>(value),
{
    reveal_strlit("CALL_REJECTED");
    reveal_strlit("NORMAL_CLEARING");
    reveal_strlit("USER_BUSY");
    match value {
        Cause::Rejected => {},
        Cause::NormalClearing => {
            assert("NORMAL_CLEARING"@.len() != "CALL_REJECTED"@.len());
        },
        Cause::Busy => {
            assert("USER_BUSY"@.len() != "CALL_REJECTED"@.len());
            assert("USER_BUSY"@.len() != "NORMAL_CLEARING"@.len());
        },
    }
}

/// A call has ended.
#[derive(Debug)]
pub struct HangupEvent {
    from: String,
    to: String,
    cause: Cause,
    time: String,
}

/// The mathematical value of a [`HangupEvent`].
pub struct HangupEventView {
    pub from: Seq<char>,
    pub to: Seq<char>,
    pub cause: Cause,
    pub time: Seq<char>,
}

impl DeepView for HangupEvent {
    type V = HangupEventView;

    closed spec fn deep_view(&self) -> HangupEventView {
        HangupEventView {
            from: self.from@,
            to: self.to@,
            cause: self.cause,
            time: self.time@,
        }
    }
}

impl View for HangupEvent {
    type V = HangupEventView;

    open spec fn view(&self) -> HangupEventView {
        self.deep_view()
    }
}

impl HangupEventView {
    /// The event that a description stands for: what the event must have is
    /// asked for in turn, and the first that is missing decides.
    pub open spec fn new(info: CallEventInfoView) -> Result<HangupEventView, CatapultErrorView> {
        match required(info.cause, "HangupEvent::cause"@) {
            Err(e) => Err(e),
            Ok(cause_string) =>
            match required(info.from, "HangupEvent::from"@) {
                Err(e) => Err(e),
                Ok(from) =>
                match required(info.to, "HangupEvent::to"@) {
                    Err(e) => Err(e),
                    Ok(to) =>
                    match Cause::of_text(cause_string) {
                        Err(e) => Err(e),
                        Ok(cause) =>
                        match required(info.time, "HangupEvent::time"@) {
                            Err(e) => Err(e),
                            Ok(time) =>
                            Ok(HangupEventView { from, to, cause, time }),
                        },
                    },
                },
            },
        }
    }
}

impl HangupEvent {
    /// The event that a description stands for.
    pub fn new(info: &CallEventInfo) -> (r: CatapultResult<HangupEvent>)
        ensures
            result_view(r) == HangupEventView::new(info.deep_view()),
    {
        let cause_string = match expect(clone_opt(&info.cause), "HangupEvent::cause") {
            Ok(v) => v,
            Err(e) => {
                return Err(e);
            },
        };
        let from = match expect(clone_opt(&info.from), "HangupEvent::from") {
            Ok(v) => v,
            Err(e) => {
                return Err(e);
            },
        };
        let to = match expect(clone_opt(&info.to), "HangupEvent::to") {
            Ok(v) => v,
            Err(e) => {
                return Err(e);
            },
        };
        let cause = match Cause::parse(cause_string.as_str()) {
            Ok(v) => v,
            Err(e) => {
                return Err(e);
            },
        };
        let time = match expect(clone_opt(&info.time), "HangupEvent::time") {
            Ok(v) => v,
            Err(e) => {
                return Err(e);
            },
        };
        Ok(HangupEvent { from, to, cause, time })
    }

    pub fn get_to(&self) -> (r: String)
        ensures
            r@ == self@.to,
    {
        self.to.clone()
    }

    pub fn get_from(&self) -> (r: String)
        ensures
            r@ == self@.from,
    {
        self.from.clone()
    }

    pub fn get_cause(&self) -> (r: Cause)
        ensures
            r == self@.cause,
    {
        self.cause
    }

    pub fn get_time(&self) -> (r: String)
        ensures
            r@ == self@.time,
    {
        self.time.clone()
    }
}

} // verus!
