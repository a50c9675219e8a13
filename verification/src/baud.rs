//! The symbol rates that the terminal supports.

use vstd::prelude::*;
use crate::modes::{b115200, b38400, b57600, b9600, B115200, B38400, B57600, B9600};
use crate::text::same_text;

verus! {

/// A supported symbol rate of the serial line.
#[derive(Clone, Copy, Debug, PartialEq, Eq, Structural)]
pub enum BaudRate {
    B9600,
    B38400,
    B57600,
    B115200,
}

impl BaudRate {
    /// The decimal text that names this rate on the command line.
    pub open spec fn spec_text(self) -> Seq<char> {
        match self {
            BaudRate::B9600 => "9600"@,
            BaudRate::B38400 => "38400"@,
            BaudRate::B57600 => "57600"@,
            BaudRate::B115200 => "115200"@,
        }
    }

    /// The rate that `text` names, if it names one. The text must match a
    /// supported rate character for character.
    pub open spec fn spec_parse(text: Seq<char>) -> Option<BaudRate> {
        if text == BaudRate::B9600.spec_text() {
            Some(BaudRate::B9600)
        } else if text == BaudRate::B38400.spec_text() {
            Some(BaudRate::B38400)
        } else if text == BaudRate::B57600.spec_text() {
            Some(BaudRate::B57600)
        } else if text == BaudRate::B115200.spec_text() {
            Some(BaudRate::B115200)
        } else {
            None
        }
    }

    /// Symbols per second.
    pub open spec fn spec_bits_per_second(self) -> u32 {
        match self {
            BaudRate::B9600 => 9600,
            BaudRate::B38400 => 38400,
            BaudRate::B57600 => 57600,
            BaudRate::B115200 => 115200,
        }
    }

    /// The code by which the terminal interface knows this rate.
    pub open spec fn spec_speed_code(self) -> u32 {
        match self {
            BaudRate::B9600 => B9600,
            BaudRate::B38400 => B38400,
            BaudRate::B57600 => B57600,
            BaudRate::B115200 => B115200,
        }
    }

    /// Reads a rate from its decimal text.
    pub fn parse(text: &str) -> (rate: Option<BaudRate>)
        ensures
            rate == Self::spec_parse(text@),
    {
        if same_text(text, "9600") {
            Some(BaudRate::B9600)
        } else if same_text(text, "38400") {
            Some(BaudRate::B38400)
        } else if same_text(text, "57600") {
            Some(BaudRate::B57600)
        } else if same_text(text, "115200") {
            Some(BaudRate::B115200)
        } else {
            None
        }
    }

    /// The decimal text of this rate.
    pub fn text(self) -> (text: &'static str)
        ensures
            text@ == self.spec_text(),
    {
        match self {
            BaudRate::B9600 => "9600",
            BaudRate::B38400 => "38400",
            BaudRate::B57600 => "57600",
            BaudRate::B115200 => "115200",
        }
    }

    /// Symbols per second.
    pub fn bits_per_second(self) -> (rate: u32)
        ensures
            rate == self.spec_bits_per_second(),
    {
        match self {
            BaudRate::B9600 => 9600,
            BaudRate::B38400 => 38400,
            BaudRate::B57600 => 57600,
            BaudRate::B115200 => 115200,
        }
    }

    /// The speed code to hand to the terminal interface.
    pub fn speed_code(self) -> (code: u32)
        ensures
            code == self.spec_speed_code(),
    {
        match self {
            BaudRate::B9600 => b9600(),
            BaudRate::B38400 => b38400(),
            BaudRate::B57600 => b57600(),
            BaudRate::B115200 => b115200(),
        }
    }
}

/// The four rate texts differ from one another, so each names one rate only:
/// reading the text of a rate gives that rate back.
pub proof fn lemma_text_round_trip(rate: BaudRate)
    ensures
        BaudRate::spec_parse(rate.spec_text()) == Some(rate),
{
    reveal_strlit("9600");
    reveal_strlit("38400");
    reveal_strlit("57600");
    reveal_strlit("115200");
    assert("9600"@.len() == 4 && "115200"@.len() == 6);
    assert("38400"@.len() == 5 && "38400"@[0] == '3');
    assert("57600"@.len() == 5 && "57600"@[0] == '5');
}

/// A text is accepted if and only if it is the text of one of the four rates,
/// and then it is read as that rate.
pub proof fn lemma_accepts_exactly_the_rates(text: Seq<char>)
    ensures
        BaudRate::spec_parse(text) is Some <==> exists|rate: BaudRate| text == rate.spec_text(),
        forall|rate: BaudRate|
            text == #[trigger] rate.spec_text() ==> BaudRate::spec_parse(text) == Some(rate),
{
    assert forall|rate: BaudRate| text == #[trigger] rate.spec_text() implies BaudRate::spec_parse(
        text,
    ) == Some(rate) by {
        lemma_text_round_trip(rate);
    }
    if BaudRate::spec_parse(text) is Some {
        let rate = BaudRate::spec_parse(text)->0;
        assert(text == rate.spec_text());
    }
}

/// Different rates have different speed codes and different symbol counts.
pub proof fn lemma_codes_are_distinct(a: BaudRate, b: BaudRate)
    requires
        a != b,
    ensures
        a.spec_speed_code() != b.spec_speed_code(),
        a.spec_bits_per_second() != b.spec_bits_per_second(),
{
}

} // verus!
