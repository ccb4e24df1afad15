//! The fixed machine-state commands: a closed table of opcodes with no
//! parameters, each rendered as its literal text.

use vstd::prelude::*;

verus! {

/// A parameterless machine-state command.
pub enum Constants {
    /// `G21` - sets units to millimeters.
    UseMillimeters,
    /// `G20` - sets units to inches.
    UseInches,
    /// `G90` - sets axes to absolute positioning.
    AbsolutePos,
    /// `G91` - sets axes to relative positioning.
    RelativePos,
    /// `G92.1` - resets to the machine's native positioning offsets.
    ResetPos,
    /// `G28` - triggers the auto-home procedure.
    AutoHome,
    /// `M82` - sets the extruder axis to absolute mode.
    AbsoluteExtrution,
    /// `M83` - sets the extruder axis to relative mode.
    RelativeExtrution,
}

impl Constants {
    /// The command's text, without a line break.
    pub open spec fn text(self) -> Seq<char> {
        match self {
            Constants::UseMillimeters => "G21"@,
            Constants::UseInches => "G20"@,
            Constants::AbsolutePos => "G90"@,
            Constants::RelativePos => "G91"@,
            Constants::ResetPos => "G92.1"@,
            Constants::AutoHome => "G28"@,
            Constants::AbsoluteExtrution => "M82"@,
            Constants::RelativeExtrution => "M83"@,
        }
    }

    /// The command's text as one full line.
    pub open spec fn text_end(self) -> Seq<char> {
        self.text() + "\n"@
    }

    /// The command as a bare instruction, no line break.
    pub fn as_str(&self) -> (r: &'static str)
        ensures
            r@ == self.text(),
    {
        match self {
            Constants::UseMillimeters => "G21",
            Constants::UseInches => "G20",
            Constants::AbsolutePos => "G90",
            Constants::RelativePos => "G91",
            Constants::ResetPos => "G92.1",
            Constants::AutoHome => "G28",
            Constants::AbsoluteExtrution => "M82",
            Constants::RelativeExtrution => "M83",
        }
    }

    /// Like [`Constants::as_str`], but as one full line with `'\n'` at the end.
    pub fn as_str_end(&self) -> (r: &'static str)
        ensures
            r@ == self.text_end(),
    {
        proof {
            reveal_strlit("G21");
            reveal_strlit("G20");
            reveal_strlit("G90");
            reveal_strlit("G91");
            reveal_strlit("G92.1");
            reveal_strlit("G28");
            reveal_strlit("M82");
            reveal_strlit("M83");
            reveal_strlit("G21\n");
            reveal_strlit("G20\n");
            reveal_strlit("G90\n");
            reveal_strlit("G91\n");
            reveal_strlit("G92.1\n");
            reveal_strlit("G28\n");
            reveal_strlit("M82\n");
            reveal_strlit("M83\n");
            reveal_strlit("\n");
        }
        let r: &'static str = match self {
            Constants::UseMillimeters => "G21\n",
            Constants::UseInches => "G20\n",
            Constants::AbsolutePos => "G90\n",
            Constants::RelativePos => "G91\n",
            Constants::ResetPos => "G92.1\n",
            Constants::AutoHome => "G28\n",
            Constants::AbsoluteExtrution => "M82\n",
            Constants::RelativeExtrution => "M83\n",
        };
        proof {
            assert(r@ =~= self.text_end());
        }
        r
    }
}

} // verus!
