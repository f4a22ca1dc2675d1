use vstd::prelude::*;

verus! {

/// The voices in which the service speaks a sentence.
#[derive(Debug, Clone, Copy, PartialEq, Eq, Structural)]
pub enum Voice {
    /// English US, Female
    Kate,
    /// English US, Female
    Susan,
    /// English US, Female
    Julie,
    /// English US, Male
    Dave,
    /// English US, Male
    Paul,
    /// English UK, Female
    Bridget,
    /// Spanish, Female
    Esperanza,
    /// Spanish, Female
    Violeta,
    /// Spanish, Male
    Jorge,
    /// French, Female
    Jolie,
    /// French, Male
    Bernard,
    /// German, Female
    Katrin,
    /// German, Male
    Stefan,
    /// Italian, Female
    Paola,
    /// Italian, Male
    Luca,
}

impl DeepView for Voice {
    type V = Voice;

    open spec fn deep_view(&self) -> Voice {
        *self
    }
}

impl Voice {
    /// The name by which the service knows the voice.
    pub open spec fn name(self) -> Seq<char> {
        match self {
            Voice::Kate => "Kate"@,
            Voice::Susan => "Susan"@,
            Voice::Julie => "Julie"@,
            Voice::Dave => "Dave"@,
            Voice::Paul => "Paul"@,
            Voice::Bridget => "Bridget"@,
            Voice::Esperanza => "Esperanza"@,
            Voice::Violeta => "Violeta"@,
            Voice::Jorge => "Jorge"@,
            Voice::Jolie => "Jolie"@,
            Voice::Bernard => "Bernard"@,
            Voice::Katrin => "Katrin"@,
            Voice::Stefan => "Stefan"@,
            Voice::Paola => "Paola"@,
            Voice::Luca => "Luca"@,
        }
    }

    pub fn get_name(&self) -> (r: String)
        ensures
            r@ == self.name(),
    {
        match self {
            Voice::Kate => "Kate".to_owned(),
            Voice::Susan => "Susan".to_owned(),
            Voice::Julie => "Julie".to_owned(),
            Voice::Dave => "Dave".to_owned(),
            Voice::Paul => "Paul".to_owned(),
            Voice::Bridget => "Bridget".to_owned(),
            Voice::Esperanza => "Esperanza".to_owned(),
            Voice::Violeta => "Violeta".to_owned(),
            Voice::Jorge => "Jorge".to_owned(),
            Voice::Jolie => "Jolie".to_owned(),
            Voice::Bernard => "Bernard".to_owned(),
            Voice::Katrin => "Katrin".to_owned(),
            Voice::Stefan => "Stefan".to_owned(),
            Voice::Paola => "Paola".to_owned(),
            Voice::Luca => "Luca".to_owned(),
        }
    }
}

} // verus!
