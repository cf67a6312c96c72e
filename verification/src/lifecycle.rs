use vstd::prelude::*;
use vstd::string::*;

verus! {

/// Status of a channel as it is reported outside of the daemon.
///
/// The value is always computed from the current state machine and never
/// stored next to it.
#[derive(Clone, Copy, PartialEq, Eq, Debug, Structural)]
pub enum Lifecycle {
    /// Channel daemon is launched, nothing is sent to the remote peer yet
    Initial,
    /// `open_channel` was sent
    Proposed,
    /// `accept_channel` was received
    Accepted,
    /// Funding transaction is signed locally and announced to the peer
    Funding,
    /// The peer has signed the first commitment
    Signed,
    /// Funding transaction is mined
    Funded,
    /// The peer has confirmed the funding lock
    Locked,
    /// Both peers confirmed the lock, the channel operates
    Active,
    /// Connectivity with the peer is being reestablished
    Reestablishing,
    /// Cooperative closing, exchanging `closing_signed`
    Closing { round: usize },
    /// Unilateral closing started by the local node
    Aborting,
    /// Reacting to a unilateral close of the remote node
    Penalize,
}

/// Text of a decimal digit.
pub open spec fn digit_text(digit: nat) -> Seq<char> {
    if digit == 0 {
        "0"@
    } else if digit == 1 {
        "1"@
    } else if digit == 2 {
        "2"@
    } else if digit == 3 {
        "3"@
    } else if digit == 4 {
        "4"@
    } else if digit == 5 {
        "5"@
    } else if digit == 6 {
        "6"@
    } else if digit == 7 {
        "7"@
    } else if digit == 8 {
        "8"@
    } else {
        "9"@
    }
}

/// Decimal text of a number, without leading zeros.
pub open spec fn decimal_text(number: nat) -> Seq<char>
    decreases number,
{
    if number < 10 {
        digit_text(number)
    } else {
        decimal_text(number / 10) + digit_text(number % 10)
    }
}

fn digit(value: usize) -> (text: &'static str)
    requires
        value < 10,
    ensures
        text@ == digit_text(value as nat),
{
    if value == 0 {
        "0"
    } else if value == 1 {
        "1"
    } else if value == 2 {
        "2"
    } else if value == 3 {
        "3"
    } else if value == 4 {
        "4"
    } else if value == 5 {
        "5"
    } else if value == 6 {
        "6"
    } else if value == 7 {
        "7"
    } else if value == 8 {
        "8"
    } else {
        "9"
    }
}

/// Writes a number in decimal.
pub fn decimal(number: usize) -> (text: String)
    ensures
        text@ == decimal_text(number as nat),
    decreases number,
{
    if number < 10 {
        String::from_str(digit(number))
    } else {
        decimal(number / 10).concat(digit(number % 10))
    }
}

impl Lifecycle {
    /// Upper-case tag of the stage; that of a closing names the round.
    pub open spec fn tag(self) -> Seq<char> {
        match self {
            Lifecycle::Initial => "INIT"@,
            Lifecycle::Proposed => "PROPOSED"@,
            Lifecycle::Accepted => "ACCEPTED"@,
            Lifecycle::Funding => "FUNDING"@,
            Lifecycle::Signed => "SIGNED"@,
            Lifecycle::Funded => "FUNDED"@,
            Lifecycle::Locked => "LOCKED"@,
            Lifecycle::Active => "ACTIVE"@,
            Lifecycle::Reestablishing => "REESTABLISHING"@,
            Lifecycle::Closing { round } => "CLOSING-"@ + decimal_text(round as nat),
            Lifecycle::Aborting => "ABORTING"@,
            Lifecycle::Penalize => "PENALIZE"@,
        }
    }

    /// Returns the tag of the stage.
    pub fn name(&self) -> (name: String)
        ensures
            name@ == self.tag(),
    {
        match self {
            Lifecycle::Initial => String::from_str("INIT"),
            Lifecycle::Proposed => String::from_str("PROPOSED"),
            Lifecycle::Accepted => String::from_str("ACCEPTED"),
            Lifecycle::Funding => String::from_str("FUNDING"),
            Lifecycle::Signed => String::from_str("SIGNED"),
            Lifecycle::Funded => String::from_str("FUNDED"),
            Lifecycle::Locked => String::from_str("LOCKED"),
            Lifecycle::Active => String::from_str("ACTIVE"),
            Lifecycle::Reestablishing => String::from_str("REESTABLISHING"),
            Lifecycle::Closing { round } => {
                let round = decimal(*round);
                String::from_str("CLOSING-").concat(round.as_str())
            },
            Lifecycle::Aborting => String::from_str("ABORTING"),
            Lifecycle::Penalize => String::from_str("PENALIZE"),
        }
    }
}

impl Default for Lifecycle {
    fn default() -> (stage: Lifecycle)
        ensures
            stage == Lifecycle::Initial,
    {
        Lifecycle::Initial
    }
}

} // verus!
