//! The division route: `GET /math/<numerator>` with the denominator in the
//! `div-by` header.

use vstd::prelude::*;
use vstd::string::{StrSliceExecFns, StringExecFns};

verus! {

/// Name of the header that carries the denominator.
pub const DIV_BY_HEADER: &'static str = "div-by";

/// The rejection of a request that asks to divide by zero.
#[derive(Debug, Clone, Copy, PartialEq, Eq, Structural)]
pub struct DivideByZero;

/// A denominator: a number that is not zero.
#[derive(Debug, Clone, Copy)]
pub struct Denominator {
    value: u16,
}

/// The reply of the division route.
#[derive(Debug)]
pub struct Math {
    pub op: String,
    pub output: u16,
}

impl Denominator {
    #[verifier::type_invariant]
    spec fn not_zero(self) -> bool {
        self.value != 0
    }

    /// The number.
    pub closed spec fn spec_get(self) -> u16 {
        self.value
    }

    /// The denominator `value`, unless `value` is zero.
    pub fn new(value: u16) -> (denominator: Option<Self>)
        ensures
            denominator is Some <==> value != 0,
            denominator matches Some(d) ==> d.spec_get() == value,
    {
        if value != 0 {
            Some(Denominator { value })
        } else {
            None
        }
    }

    /// The number, which is not zero.
    pub fn get(&self) -> (value: u16)
        ensures
            value == self.spec_get(),
            value != 0,
    {
        proof {
            use_type_invariant(self);
        }
        self.value
    }
}

/// The decimal digit for a value below ten.
pub open spec fn decimal_digit(value: int) -> char {
    seq!['0', '1', '2', '3', '4', '5', '6', '7', '8', '9'][value]
}

/// The decimal numeral of `value`, without leading zeros.
pub open spec fn decimal(value: nat) -> Seq<char>
    decreases value,
{
    if value < 10 {
        seq![decimal_digit(value as int)]
    } else {
        decimal(value / 10).push(decimal_digit(value as int % 10))
    }
}

/// The description of a division, as the reply gives it.
pub open spec fn operation(numerator: u16, denominator: u16) -> Seq<char> {
    decimal(numerator as nat) + seq![' ', '/', ' '] + decimal(denominator as nat)
}

/// Writes `value` as a decimal numeral.
pub fn decimal_text(value: u16) -> (text: String)
    ensures
        text@ == decimal(value as nat),
    decreases value,
{
    let digits = "0123456789";
    proof {
        reveal_strlit("0123456789");
    }
    let last = (value % 10) as usize;
    let digit = digits.substring_ascii(last, last + 1);
    assert(digit@ =~= seq![decimal_digit(value as int % 10)]);
    if value < 10 {
        String::from_str(digit)
    } else {
        let text = decimal_text(value / 10).concat(digit);
        assert(text@ =~= decimal(value as nat / 10).push(decimal_digit(value as int % 10)));
        text
    }
}

/// Checks the denominator that a request gave: zero is rejected.
pub fn div_by(n: u16) -> (checked: Result<Denominator, DivideByZero>)
    ensures
        checked is Err <==> n == 0,
        checked matches Ok(denom) ==> denom.spec_get() == n,
{
    match Denominator::new(n) {
        Some(denom) => Ok(denom),
        None => Err(DivideByZero),
    }
}

/// The reply to a request that asks to divide `num` by `denom`.
pub fn math(num: u16, denom: Denominator) -> (reply: Math)
    ensures
        reply.op@ == operation(num, denom.spec_get()),
        reply.output == num / denom.spec_get(),
{
    let divisor = denom.get();
    proof {
        reveal_strlit(" / ");
    }
    let op = decimal_text(num).concat(" / ").concat(decimal_text(divisor).as_str());
    assert(op@ =~= operation(num, divisor));
    Math { op, output: num / divisor }
}

} // verus!
