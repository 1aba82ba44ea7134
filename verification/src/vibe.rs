use vstd::prelude::*;
use vstd::string::*;

verus! {

/// The classification of the day's signal: the closed set of answers the
/// tracker can report.
#[derive(Clone, Copy, PartialEq, Eq, Structural, Debug)]
pub enum Vibe {
    /// A positive reading ("bones day").
    BonesDay,
    /// A negative reading ("no bones day").
    NoBonesDay,
    /// The subject explicitly declared that there is no reading today.
    NoReading,
    /// Nothing matched: the classification is indeterminate.
    Error,
}

impl Vibe {
    /// The short, always-present label for this classification.
    pub open spec fn short_spec(self) -> Seq<char> {
        match self {
            Vibe::BonesDay => "Yes"@,
            Vibe::NoBonesDay => "No"@,
            Vibe::NoReading => "No Reading"@,
            Vibe::Error => "Error"@,
        }
    }

    /// The optional long-form explanation for this classification.
    pub open spec fn long_spec(self) -> Option<Seq<char>> {
        match self {
            Vibe::BonesDay => None,
            Vibe::NoBonesDay => None,
            Vibe::NoReading => Some("Noodles is taking a break today"@),
            Vibe::Error => Some("The server had trouble making sense of today's tweet"@),
        }
    }

    /// The short label, as static data.
    pub fn short(&self) -> (r: String)
        ensures
            r@ == self.short_spec(),
    {
        match self {
            Vibe::BonesDay => String::from_str("Yes"),
            Vibe::NoBonesDay => String::from_str("No"),
            Vibe::NoReading => String::from_str("No Reading"),
            Vibe::Error => String::from_str("Error"),
        }
    }

    /// The long-form explanation, as static data.
    pub fn long(&self) -> (r: Option<String>)
        ensures
            (r is Some) == (self.long_spec() is Some),
            r matches Some(s) ==> self.long_spec() matches Some(t) && s@ == t,
    {
        match self {
            Vibe::BonesDay => None,
            Vibe::NoBonesDay => None,
            Vibe::NoReading => Some(String::from_str("Noodles is taking a break today")),
            Vibe::Error => Some(
                String::from_str("The server had trouble making sense of today's tweet"),
            ),
        }
    }
}

/// One observation: a classification together with the moment it was made,
/// as Unix seconds. The two fields always travel together.
#[derive(Clone, Copy, PartialEq, Eq, Structural, Debug)]
pub struct VibeCheck {
    pub vibe: Vibe,
    pub time: i64,
}

impl VibeCheck {
    /// The record installed at process start, before any real observation:
    /// an indeterminate classification at the Unix epoch.
    pub fn sentinel() -> (r: VibeCheck)
        ensures
            r.vibe == Vibe::Error,
            r.time == 0,
    {
        VibeCheck { vibe: Vibe::Error, time: 0 }
    }
}

} // verus!
