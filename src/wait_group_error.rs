use vstd::prelude::*;

verus! {

/// Why an operation on a wait group was refused.
#[derive(Debug)]
pub enum WaitGroupError {
    /// The change would have taken the counter below zero; holds the value it would have had.
    NegativeCounter(isize),
    /// Any other failure, such as a counter that would exceed the largest count.
    Unexpected(String),
    /// A switch was asked between a wait group and itself.
    IdentityViolation,
}

pub type Result<T> = std::result::Result<T, WaitGroupError>;

/// The character of the decimal digit `d`.
pub open spec fn digit_char(d: int) -> char {
    if d == 0 { '0' }
    else if d == 1 { '1' }
    else if d == 2 { '2' }
    else if d == 3 { '3' }
    else if d == 4 { '4' }
    else if d == 5 { '5' }
    else if d == 6 { '6' }
    else if d == 7 { '7' }
    else if d == 8 { '8' }
    else { '9' }
}

/// The decimal digits of `n`, without leading zeros.
pub open spec fn digits(n: nat) -> Seq<char>
    decreases n,
{
    if n < 10 {
        seq![digit_char(n as int)]
    } else {
        digits(n / 10) + seq![digit_char((n % 10) as int)]
    }
}

/// `v` written in decimal, with a minus sign when it is negative.
pub open spec fn decimal(v: int) -> Seq<char> {
    if v < 0 {
        seq!['-'] + digits((-v) as nat)
    } else {
        digits(v as nat)
    }
}

/// Relies on i128's ToString, which writes the number in decimal.
#[verifier::external_body]
pub(crate) fn decimal_text(v: i128) -> (r: String)
    ensures
        r@ == decimal(v as int),
{
    v.to_string()
}

impl WaitGroupError {
    /// The error as a sentence.
    pub fn message(&self) -> (r: String)
        ensures
            self matches WaitGroupError::NegativeCounter(v) ==> r@ == "Counter is negative: "@
                + decimal(v as int),
            self matches WaitGroupError::Unexpected(d) ==> r@ == "Unexpected WaitGroupError: "@
                + d@,
            self is IdentityViolation ==> r@ == "A wait group cannot be switched with itself"@,
    {
        match self {
            WaitGroupError::NegativeCounter(v) => {
                String::from_str("Counter is negative: ").concat(decimal_text(*v as i128).as_str())
            },
            WaitGroupError::Unexpected(d) => {
                String::from_str("Unexpected WaitGroupError: ").concat(d.as_str())
            },
            WaitGroupError::IdentityViolation => {
                String::from_str("A wait group cannot be switched with itself")
            },
        }
    }
}

} // verus!
