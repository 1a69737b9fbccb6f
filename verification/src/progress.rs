//! Progress of one record kind: how many records are indexed, out of how
//! many, and the text that says so.

use vstd::prelude::*;
use vstd::string::*;

verus! {

/// The character of the decimal digit `d`.
pub open spec fn digit_char(d: nat) -> char {
    if d == 0 {
        '0'
    } else if d == 1 {
        '1'
    } else if d == 2 {
        '2'
    } else if d == 3 {
        '3'
    } else if d == 4 {
        '4'
    } else if d == 5 {
        '5'
    } else if d == 6 {
        '6'
    } else if d == 7 {
        '7'
    } else if d == 8 {
        '8'
    } else {
        '9'
    }
}

/// `n` in decimal, without leading zeros.
pub open spec fn decimal_text(n: nat) -> Seq<char>
    decreases n,
{
    if n < 10 {
        seq![digit_char(n)]
    } else {
        decimal_text(n / 10).push(digit_char(n % 10))
    }
}

/// The progress notification: the records indexed so far, a slash, and the
/// records that the store counted.
pub open spec fn progress_text(indexed: nat, total: nat) -> Seq<char> {
    decimal_text(indexed) + seq!['/'] + decimal_text(total)
}

fn digit_str(d: u64) -> (text: &'static str)
    requires
        d < 10,
    ensures
        text@ == seq![digit_char(d as nat)],
{
    proof {
        reveal_strlit("0");
        reveal_strlit("1");
        reveal_strlit("2");
        reveal_strlit("3");
        reveal_strlit("4");
        reveal_strlit("5");
        reveal_strlit("6");
        reveal_strlit("7");
        reveal_strlit("8");
        reveal_strlit("9");
    }
    let text = if d == 0 {
        "0"
    } else if d == 1 {
        "1"
    } else if d == 2 {
        "2"
    } else if d == 3 {
        "3"
    } else if d == 4 {
        "4"
    } else if d == 5 {
        "5"
    } else if d == 6 {
        "6"
    } else if d == 7 {
        "7"
    } else if d == 8 {
        "8"
    } else {
        "9"
    };
    assert(text@ =~= seq![digit_char(d as nat)]);
    text
}

/// Writes `n` in decimal.
pub fn format_decimal(n: u64) -> (text: String)
    ensures
        text@ == decimal_text(n as nat),
    decreases n,
{
    if n < 10 {
        digit_str(n).to_owned()
    } else {
        let mut text = format_decimal(n / 10);
        text.append(digit_str(n % 10));
        assert(text@ =~= decimal_text(n as nat));
        text
    }
}

/// The state of a progress reporter.
pub struct Progress {
    /// Records indexed so far.
    pub indexed: nat,
    /// Records that the store counted when the run began.
    pub total: nat,
}

/// Counts the records indexed so far against the total that the store
/// counted, and words the notification after each batch.
///
/// The reporter only observes: nothing it returns decides what the pipeline
/// does next.
pub struct ProgressReporter {
    indexed: u64,
    total: u64,
}

impl View for ProgressReporter {
    type V = Progress;

    closed spec fn view(&self) -> Progress {
        Progress { indexed: self.indexed as nat, total: self.total as nat }
    }
}

impl ProgressReporter {
    /// A reporter for a kind of which the store counted `total` records.
    pub fn new(total: u64) -> (reporter: Self)
        ensures
            reporter@ == (Progress { indexed: 0, total: total as nat }),
    {
        ProgressReporter { indexed: 0, total }
    }

    /// Number of records indexed so far.
    pub fn indexed(&self) -> (indexed: u64)
        ensures
            indexed == self@.indexed,
    {
        self.indexed
    }

    /// Number of records that the store counted.
    pub fn total(&self) -> (total: u64)
        ensures
            total == self@.total,
    {
        self.total
    }

    /// Counts a batch of `batch_size` records as indexed and returns the
    /// notification for the new count.
    pub fn record(&mut self, batch_size: usize) -> (notification: String)
        requires
            old(self)@.indexed + batch_size <= u64::MAX,
        ensures
            final(self)@ == (Progress {
                indexed: old(self)@.indexed + batch_size as nat,
                total: old(self)@.total,
            }),
            notification@ == progress_text(final(self)@.indexed, final(self)@.total),
    {
        self.indexed = self.indexed + batch_size as u64;
        let mut notification = format_decimal(self.indexed);
        notification.append("/");
        let total = format_decimal(self.total);
        notification.append(total.as_str());
        proof {
            reveal_strlit("/");
            assert("/"@ =~= seq!['/']);
        }
        notification
    }
}

} // verus!
