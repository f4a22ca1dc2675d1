use vstd::prelude::*;

use crate::call_event::CallEventInfo;
use crate::call_event::CallEventInfoView;
use crate::codec::result_view;
use crate::error::CatapultError;
use crate::error::CatapultErrorView;
use crate::error::CatapultResult;
use crate::text::clone_opt;
use crate::text::concat;
use crate::text::str_eq;
use crate::util::expect;
use crate::util::required;

verus! {

/// Why the collecting of keypad tones ended.
#[derive(Debug, Clone, Copy, PartialEq, Eq, Structural)]
pub enum Reason {
    MaxDigits,
    TerminatingDigit,
    InterDigitTimeout,
    HungUp,
}

impl DeepView for Reason {
    type V = Reason;

    open spec fn deep_view(&self) -> Reason {
        *self
    }
}

impl Reason {
    /// The word that the service uses for this value.
    pub open spec fn text(self) -> Seq<char> {
        match self {
            Reason::MaxDigits => "max-digits"@,
            Reason::TerminatingDigit => "terminating-digit"@,
            Reason::InterDigitTimeout => "inter-digit-timeout"@,
            Reason::HungUp => "hung-up"@,
        }
    }

    /// The value that a word of the service stands for. A word that stands
    /// for none is an error, not some value picked in its place.
    pub open spec fn of_text(text: Seq<char>) -> Result<Reason, CatapultErrorView> {
        if text == "max-digits"@ {
            Ok(Reason::MaxDigits)
        } else if text == "terminating-digit"@ {
            Ok(Reason::TerminatingDigit)
        } else if text == "inter-digit-timeout"@ {
            Ok(Reason::InterDigitTimeout)
        } else if text == "hung-up"@ {
            Ok(Reason::HungUp)
        } else {
            Err(CatapultErrorView::Unexpected("unknown GatherEvent reason: "@ + text))
        }
    }

    /// Reads the value that a word of the service stands for.
    pub fn parse(text: &str) -> (r: CatapultResult<Reason>)
        ensures
            result_view(r) == Reason::of_text(text@),
    {
        if str_eq(text, "max-digits") {
            Ok(Reason::MaxDigits)
        } else if str_eq(text, "terminating-digit") {
            Ok(Reason::TerminatingDigit)
        } else if str_eq(text, "inter-digit-timeout") {
            Ok(Reason::InterDigitTimeout)
        } else if str_eq(text, "hung-up") {
            Ok(Reason::HungUp)
        } else {
            Err(CatapultError::Unexpected(concat("unknown GatherEvent reason: ", text)))
        }
    }
}

/// Each reason is read back from the word that is written for it.
pub proof fn lemma_reason_words(value: Reason)
    ensures
        Reason::of_text(value.text()) == Ok::<Reason, CatapultErrorView>(value),
{
    reveal_strlit("max-digits");
    reveal_strlit("terminating-digit");
    reveal_strlit("inter-digit-timeout");
    reveal_strlit("hung-up");
    match value {
        Reason::MaxDigits => {},
        Reason::TerminatingDigit => {
            assert("terminating-digit"@.len() != "max-digits"@.len());
        },
        Reason::InterDigitTimeout => {
            assert("inter-digit-timeout"@.len() != "max-digits"@.len());
            assert("inter-digit-timeout"@.len() != "terminating-digit"@.len());
        },
        Reason::HungUp => {
            assert("hung-up"@.len() != "max-digits"@.len());
            assert("hung-up"@.len() != "terminating-digit"@.len());
            assert("hung-up"@.len() != "inter-digit-timeout"@.len());
        },
    }
}

/// The collecting of keypad tones has ended.
#[derive(Debug)]
pub struct GatherEvent {
    digits: String,
    reason: Reason,
    time: String,
    id: String,
}

/// The mathematical value of a [`GatherEvent`].
pub struct GatherEventView {
    pub digits: Seq<char>,
    pub reason: Reason,
    pub time: Seq<char>,
    pub id: Seq<char>,
}

impl DeepView for GatherEvent {
    type V = GatherEventView;

    closed spec fn deep_view(&self) -> GatherEventView {
        GatherEventView {
            digits: self.digits@,
            reason: self.reason,
            time: self.time@,
            id: self.id@,
        }
    }
}

impl View for GatherEvent {
    type V = GatherEventView;

    open spec fn view(&self) -> GatherEventView {
        self.deep_view()
    }
}

impl GatherEventView {
    /// The event that a description stands for: what the event must have is
    /// asked for in turn, and the first that is missing decides.
    pub open spec fn new(info: CallEventInfoView) -> Result<GatherEventView, CatapultErrorView> {
        match required(info.reason, "GatherEvent::reason"@) {
            Err(e) => Err(e),
            Ok(reason_string) =>
            match required(info.digits, "GatherEvent::digits"@) {
                Err(e) => Err(e),
                Ok(digits) =>
                match Reason::of_text(reason_string) {
                    Err(e) => Err(e),
                    Ok(reason) =>
                    match required(info.time, "GatherEvent::time"@) {
                        Err(e) => Err(e),
                        Ok(time) =>
                        match required(info.gather_id, "GatherEvent::id"@) {
                            Err(e) => Err(e),
                            Ok(id) =>
                            Ok(GatherEventView { digits, reason, time, id }),
                        },
                    },
                },
            },
        }
    }
}

impl GatherEvent {
    /// The event that a description stands for.
    pub fn new(info: &CallEventInfo) -> (r: CatapultResult<GatherEvent>)
        ensures
            result_view(r) == GatherEventView::new(info.deep_view()),
    {
        let reason_string = match expect(clone_opt(&info.reason), "GatherEvent::reason") {
            Ok(v) => v,
            Err(e) => {
                return Err(e);
            },
        };
        let digits = match expect(clone_opt(&info.digits), "GatherEvent::digits") {
            Ok(v) => v,
            Err(e) => {
                return Err(e);
            },
        };
        let reason = match Reason::parse(reason_string.as_str()) {
            Ok(v) => v,
            Err(e) => {
                return Err(e);
            },
        };
        let time = match expect(clone_opt(&info.time), "GatherEvent::time") {
            Ok(v) => v,
            Err(e) => {
                return Err(e);
            },
        };
        let id = match expect(clone_opt(&info.gather_id), "GatherEvent::id") {
            Ok(v) => v,
            Err(e) => {
                return Err(e);
            },
        };
        Ok(GatherEvent { digits, reason, time, id })
    }

    pub fn get_digits(&self) -> (r: String)
        ensures
            r@ == self@.digits,
    {
        self.digits.clone()
    }

    pub fn get_reason(&self) -> (r: Reason)
        ensures
            r == self@.reason,
    {
        self.reason
    }

    pub fn get_time(&self) -> (r: String)
        ensures
            r@ == self@.time,
    {
        self.time.clone()
    }

    pub fn get_id(&self) -> (r: String)
        ensures
            r@ == self@.id,
    {
        self.id.clone()
    }
}

} // verus!
