//! The failures an operation on a miner can end in, and how they are worded.

use vstd::prelude::*;
use vstd::string::*;

verus! {

/// Why an operation on a miner failed.
#[derive(Clone, Debug, PartialEq, Eq)]
pub enum ClientError {
    /// No exchange with the miner at `address` gave a usable answer.
    MinerUnreachable { address: String },
    /// The miner answered a settings update with a status outside the success
    /// range. `body` is the response body as it arrived.
    SettingsRejected { status: u16, body: String },
}

/// The mathematical content of a [`ClientError`].
pub ghost enum ClientErrorView {
    MinerUnreachable { address: Seq<char> },
    SettingsRejected { status: u16, body: Seq<char> },
}

impl View for ClientError {
    type V = ClientErrorView;

    open spec fn view(&self) -> ClientErrorView {
        match self {
            ClientError::MinerUnreachable { address } => ClientErrorView::MinerUnreachable {
                address: address@,
            },
            ClientError::SettingsRejected { status, body } => ClientErrorView::SettingsRejected {
                status: *status,
                body: body@,
            },
        }
    }
}

/// What an operation reports to its caller: a confirmation, or the failure.
pub type Outcome = Result<String, ClientError>;

/// The mathematical content of an [`Outcome`].
pub type OutcomeView = Result<Seq<char>, ClientErrorView>;

/// The mathematical content of what an operation reports to its caller.
pub open spec fn outcome_view(outcome: Outcome) -> OutcomeView {
    match outcome {
        Ok(confirmation) => Ok(confirmation@),
        Err(error) => Err(error@),
    }
}

/// The character of the decimal digit `d`.
pub open spec fn digit_char(d: nat) -> char {
    if d == 0 {
        '0'
    } else if d == 1 {
        '1'
    } else if d == 2 {
        '2'
    } else if d == 3 {
        '3'
    } else if d == 4 {
        '4'
    } else if d == 5 {
        '5'
    } else if d == 6 {
        '6'
    } else if d == 7 {
        '7'
    } else if d == 8 {
        '8'
    } else {
        '9'
    }
}

/// `n` in decimal, without sign or leading zeros.
pub open spec fn decimal_digits(n: nat) -> Seq<char>
    decreases n,
{
    if n < 10 {
        seq![digit_char(n)]
    } else {
        decimal_digits(n / 10).push(digit_char(n % 10))
    }
}

impl ClientErrorView {
    /// The sentence that tells a user of this failure. A rejected update is
    /// worded with the status and then the miner's own text, unchanged.
    pub open spec fn message(self) -> Seq<char> {
        match self {
            ClientErrorView::MinerUnreachable { address } => "Failed to connect to miner at "@
                + address,
            ClientErrorView::SettingsRejected { status, body } => "Failed with status: "@
                + decimal_digits(status as nat) + ": "@ + body,
        }
    }
}

fn digit_text(d: u64) -> (text: &'static str)
    requires
        d < 10,
    ensures
        text@ == seq![digit_char(d as nat)],
{
    proof {
        reveal_strlit("0");
        reveal_strlit("1");
        reveal_strlit("2");
        reveal_strlit("3");
        reveal_strlit("4");
        reveal_strlit("5");
        reveal_strlit("6");
        reveal_strlit("7");
        reveal_strlit("8");
        reveal_strlit("9");
    }
    let text = if d == 0 {
        "0"
    } else if d == 1 {
        "1"
    } else if d == 2 {
        "2"
    } else if d == 3 {
        "3"
    } else if d == 4 {
        "4"
    } else if d == 5 {
        "5"
    } else if d == 6 {
        "6"
    } else if d == 7 {
        "7"
    } else if d == 8 {
        "8"
    } else {
        "9"
    };
    assert(text@ =~= seq![digit_char(d as nat)]);
    text
}

/// Appends `n` in decimal to `text`.
pub fn append_decimal(text: &mut String, n: u64)
    ensures
        final(text)@ == old(text)@ + decimal_digits(n as nat),
    decreases n,
{
    if n < 10 {
        text.append(digit_text(n));
    } else {
        append_decimal(text, n / 10);
        text.append(digit_text(n % 10));
        assert(final(text)@ =~= old(text)@ + decimal_digits(n as nat));
    }
}

impl ClientError {
    /// Words the failure for a user.
    pub fn message(&self) -> (text: String)
        ensures
            text@ == self@.message(),
    {
        match self {
            ClientError::MinerUnreachable { address } => {
                let mut text = String::from_str("Failed to connect to miner at ");
                text.append(address.as_str());
                text
            },
            ClientError::SettingsRejected { status, body } => {
                let mut text = String::from_str("Failed with status: ");
                append_decimal(&mut text, *status as u64);
                text.append(": ");
                text.append(body.as_str());
                text
            },
        }
    }
}

} // verus!
