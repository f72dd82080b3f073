//! Decimal-number text: the coordinate and score values this library works
//! with.
//!
//! Geographic coordinates, importance scores and format versions travel as
//! decimal text (either a JSON number or a JSON string holding a number).
//! This module defines the grammar of such text — an optional sign, integer
//! and fraction digits (at least one of the two parts), an optional
//! exponent — as a deterministic scanner, and a `Decimal` type that holds
//! exactly the strings the grammar accepts. The grammar covers every finite
//! form `f64` parsing accepts (`1.`, `.5`, `+5`, `2e-7`) and refuses the
//! non-finite words (`inf`, `NaN`).

use vstd::prelude::*;
use vstd::string::StrSliceExecFns;

verus! {

/// Scanner state while reading decimal text left to right.
#[derive(Clone, Copy, Debug, PartialEq, Eq, Structural)]
pub enum ScanState {
    /// Nothing read yet.
    Begin,
    /// A leading sign was read; digits or a point must follow.
    SignSeen,
    /// A leading decimal point was read; fraction digits must follow.
    LeadDot,
    /// Inside the integer digits (accepting).
    IntPart,
    /// A decimal point after integer digits (accepting: `1.` is a number).
    DotTail,
    /// Inside the fraction digits (accepting).
    FracPart,
    /// An exponent marker was read; a sign or digits must follow.
    MarkSeen,
    /// An exponent sign was read; digits must follow.
    ExpSignSeen,
    /// Inside the exponent digits (accepting).
    ExpPart,
    /// The text left the grammar; no continuation recovers.
    Failed,
}

pub open spec fn spec_is_digit(c: char) -> bool {
    '0' <= c && c <= '9'
}

/// One transition of the decimal scanner.
pub open spec fn spec_step(st: ScanState, c: char) -> ScanState {
    match st {
        ScanState::Begin => if c == '+' || c == '-' {
            ScanState::SignSeen
        } else if spec_is_digit(c) {
            ScanState::IntPart
        } else if c == '.' {
            ScanState::LeadDot
        } else {
            ScanState::Failed
        },
        ScanState::SignSeen => if spec_is_digit(c) {
            ScanState::IntPart
        } else if c == '.' {
            ScanState::LeadDot
        } else {
            ScanState::Failed
        },
        ScanState::LeadDot => if spec_is_digit(c) {
            ScanState::FracPart
        } else {
            ScanState::Failed
        },
        ScanState::IntPart => if spec_is_digit(c) {
            ScanState::IntPart
        } else if c == '.' {
            ScanState::DotTail
        } else if c == 'e' || c == 'E' {
            ScanState::MarkSeen
        } else {
            ScanState::Failed
        },
        ScanState::DotTail => if spec_is_digit(c) {
            ScanState::FracPart
        } else if c == 'e' || c == 'E' {
            ScanState::MarkSeen
        } else {
            ScanState::Failed
        },
        ScanState::FracPart => if spec_is_digit(c) {
            ScanState::FracPart
        } else if c == 'e' || c == 'E' {
            ScanState::MarkSeen
        } else {
            ScanState::Failed
        },
        ScanState::MarkSeen => if c == '+' || c == '-' {
            ScanState::ExpSignSeen
        } else if spec_is_digit(c) {
            ScanState::ExpPart
        } else {
            ScanState::Failed
        },
        ScanState::ExpSignSeen => if spec_is_digit(c) {
            ScanState::ExpPart
        } else {
            ScanState::Failed
        },
        ScanState::ExpPart => if spec_is_digit(c) {
            ScanState::ExpPart
        } else {
            ScanState::Failed
        },
        ScanState::Failed => ScanState::Failed,
    }
}

/// The state the scanner reaches after reading all of `s`.
pub open spec fn spec_scan(s: Seq<char>) -> ScanState
    decreases s.len(),
{
    if s.len() == 0 {
        ScanState::Begin
    } else {
        spec_step(spec_scan(s.drop_last()), s.last())
    }
}

pub open spec fn spec_accepting(st: ScanState) -> bool {
    st is IntPart || st is DotTail || st is FracPart || st is ExpPart
}

/// The grammar of decimal text:
/// `[+-]? ( digits (. digits?)? | . digits ) ([eE] [+-]? digits)?`.
pub open spec fn is_decimal_text(s: Seq<char>) -> bool {
    spec_accepting(spec_scan(s))
}

fn step(st: ScanState, c: char) -> (r: ScanState)
    ensures
        r == spec_step(st, c),
{
    match st {
        ScanState::Begin => if c == '+' || c == '-' {
            ScanState::SignSeen
        } else if '0' <= c && c <= '9' {
            ScanState::IntPart
        } else if c == '.' {
            ScanState::LeadDot
        } else {
            ScanState::Failed
        },
        ScanState::SignSeen => if '0' <= c && c <= '9' {
            ScanState::IntPart
        } else if c == '.' {
            ScanState::LeadDot
        } else {
            ScanState::Failed
        },
        ScanState::LeadDot => if '0' <= c && c <= '9' {
            ScanState::FracPart
        } else {
            ScanState::Failed
        },
        ScanState::IntPart => if '0' <= c && c <= '9' {
            ScanState::IntPart
        } else if c == '.' {
            ScanState::DotTail
        } else if c == 'e' || c == 'E' {
            ScanState::MarkSeen
        } else {
            ScanState::Failed
        },
        ScanState::DotTail => if '0' <= c && c <= '9' {
            ScanState::FracPart
        } else if c == 'e' || c == 'E' {
            ScanState::MarkSeen
        } else {
            ScanState::Failed
        },
        ScanState::FracPart => if '0' <= c && c <= '9' {
            ScanState::FracPart
        } else if c == 'e' || c == 'E' {
            ScanState::MarkSeen
        } else {
            ScanState::Failed
        },
        ScanState::MarkSeen => if c == '+' || c == '-' {
            ScanState::ExpSignSeen
        } else if '0' <= c && c <= '9' {
            ScanState::ExpPart
        } else {
            ScanState::Failed
        },
        ScanState::ExpSignSeen => if '0' <= c && c <= '9' {
            ScanState::ExpPart
        } else {
            ScanState::Failed
        },
        ScanState::ExpPart => if '0' <= c && c <= '9' {
            ScanState::ExpPart
        } else {
            ScanState::Failed
        },
        ScanState::Failed => ScanState::Failed,
    }
}

/// Decides whether `s` is decimal text under the grammar above.
pub fn check_decimal(s: &str) -> (r: bool)
    ensures
        r == is_decimal_text(s@),
{
    let n = s.unicode_len();
    let mut st = ScanState::Begin;
    let mut i: usize = 0;
    while i < n
        invariant
            0 <= i <= n,
            n == s@.len(),
            st == spec_scan(s@.take(i as int)),
        decreases n - i,
    {
        let c = s.get_char(i);
        st = step(st, c);
        proof {
            assert(s@.take(i as int + 1).drop_last() =~= s@.take(i as int));
        }
        i += 1;
    }
    proof {
        assert(s@.take(n as int) =~= s@);
    }
    st == ScanState::IntPart || st == ScanState::DotTail || st == ScanState::FracPart || st
        == ScanState::ExpPart
}

/// A decimal number kept as the exact text it was written with: no rounding,
/// no re-formatting. The text always satisfies `is_decimal_text`.
#[derive(Debug)]
pub struct Decimal {
    text: String,
}

impl View for Decimal {
    type V = Seq<char>;

    closed spec fn view(&self) -> Seq<char> {
        self.text@
    }
}

impl Decimal {
    /// The held text is decimal text.
    pub open spec fn wf(&self) -> bool {
        is_decimal_text(self@)
    }

    /// Accepts `text` exactly when it is decimal text; the value keeps the
    /// text unchanged.
    pub fn new(text: String) -> (r: Option<Decimal>)
        ensures
            r is Some <==> is_decimal_text(text@),
            r is Some ==> r->0@ == text@ && r->0.wf(),
    {
        if check_decimal(text.as_str()) {
            Some(Decimal { text })
        } else {
            None
        }
    }

    /// As `new`, from borrowed text.
    pub fn from_text(text: &str) -> (r: Option<Decimal>)
        ensures
            r is Some <==> is_decimal_text(text@),
            r is Some ==> r->0@ == text@ && r->0.wf(),
    {
        if check_decimal(text) {
            Some(Decimal { text: text.to_owned() })
        } else {
            None
        }
    }

    /// The text of the number, exactly as held.
    pub fn as_str(&self) -> (r: &str)
        ensures
            r@ == self@,
    {
        self.text.as_str()
    }
}

impl Clone for Decimal {
    fn clone(&self) -> (r: Self)
        ensures
            r@ == self@,
    {
        Decimal { text: self.text.clone() }
    }
}

} // verus!
