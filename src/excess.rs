use crate::unit::Unit;
use crate::width::{text_of, Width};
use vstd::prelude::*;

verus! {

/// Information about a situation where `total_width` is less than the width of `value`.
///
/// This information is passed to an excess handler.
pub struct Excess<'a, Value: ?Sized> {
    /// The value that caused the excess.
    pub value: &'a Value,
    /// The block that was used for the pad.
    pub pad_block: char,
    /// The width of the value that caused the excess.
    pub value_width: usize,
    /// The total width that was exceeded by the value.
    pub total_width: usize,
}

/// Why a value that exceeds its total width was not written.
#[derive(Debug, Clone, Copy, PartialEq, Eq, Structural)]
pub enum ExcessError {
    /// The excess was refused, and the caller may go on.
    Forbidden { value_width: usize, total_width: usize },
    /// The excess is a fault that the caller is not meant to recover from.
    Fatal { value_width: usize, total_width: usize },
}

/// The decimal digit `d` as a character.
pub open spec fn digit_char(d: nat) -> char {
    seq!['0', '1', '2', '3', '4', '5', '6', '7', '8', '9'][d as int]
}

/// The decimal notation of `n`, without leading zeros.
pub open spec fn decimal(n: nat) -> Seq<char>
    decreases n,
{
    if n < 10 {
        seq![digit_char(n)]
    } else {
        decimal(n / 10).push(digit_char(n % 10))
    }
}

/// The message that tells of an excess.
pub open spec fn excess_message(value_width: nat, total_width: nat) -> Seq<char> {
    "value's width ("@ + decimal(value_width) + ") is greater than total_width ("@ + decimal(
        total_width,
    ) + ")"@
}

/// Relies on the `Display` impl of `usize`, through `to_string`: the decimal notation.
#[verifier::external_body]
fn decimal_text(n: usize) -> (r: String)
    ensures
        r@ == decimal(n as nat),
{
    n.to_string()
}

impl ExcessError {
    /// The width of the value that caused the excess.
    pub open spec fn spec_value_width(&self) -> usize {
        match *self {
            ExcessError::Forbidden { value_width, .. } => value_width,
            ExcessError::Fatal { value_width, .. } => value_width,
        }
    }

    /// The total width that was exceeded.
    pub open spec fn spec_total_width(&self) -> usize {
        match *self {
            ExcessError::Forbidden { total_width, .. } => total_width,
            ExcessError::Fatal { total_width, .. } => total_width,
        }
    }

    /// The width of the value that caused the excess.
    pub fn value_width(&self) -> (r: usize)
        ensures
            r == self.spec_value_width(),
    {
        match *self {
            ExcessError::Forbidden { value_width, .. } => value_width,
            ExcessError::Fatal { value_width, .. } => value_width,
        }
    }

    /// The total width that was exceeded.
    pub fn total_width(&self) -> (r: usize)
        ensures
            r == self.spec_total_width(),
    {
        match *self {
            ExcessError::Forbidden { total_width, .. } => total_width,
            ExcessError::Fatal { total_width, .. } => total_width,
        }
    }

    /// A message that gives both widths.
    pub fn message(&self) -> (r: String)
        ensures
            r@ == excess_message(self.spec_value_width() as nat, self.spec_total_width() as nat),
    {
        let value_width = self.value_width();
        let total_width = self.total_width();
        let mut message = String::from_str("value's width (");
        message.append(decimal_text(value_width).as_str());
        message.append(") is greater than total_width (");
        message.append(decimal_text(total_width).as_str());
        message.append(")");
        message
    }
}

/// The text of a result, or its error.
pub open spec fn text_result(r: Result<String, ExcessError>) -> Result<Seq<char>, ExcessError> {
    match r {
        Ok(text) => Ok(text@),
        Err(e) => Err(e),
    }
}

/// What to do when the width of the value exceeds the total width.
pub trait ExcessHandler<Value: Width + ?Sized> {
    /// The text written for an excess, or the error it causes.
    spec fn spec_handle_excess(&self, excess: Excess<'_, Value>) -> Result<Seq<char>, ExcessError>;

    /// Handle excessive width of a value.
    fn handle_excess(&self, excess: Excess<'_, Value>) -> (r: Result<String, ExcessError>)
        requires
            excess.value_width as nat == excess.value.spec_width(),
            excess.value_width > excess.total_width,
        ensures
            text_result(r) == self.spec_handle_excess(excess),
    ;
}

/// All zero-sized excess handlers of this crate implement this trait.
pub trait UnitExcessHandler<Value: Width + ?Sized>: Unit + ExcessHandler<Value> {

}

/// Ignore excess: write the value without padding.
#[derive(Debug, Default, Clone, Copy, PartialEq, Eq, Structural)]
pub struct IgnoreExcess;

/// Forbid all excesses: give [`ExcessError::Forbidden`] on one.
#[derive(Debug, Default, Clone, Copy, PartialEq, Eq, Structural)]
pub struct ErrorOnExcess;

/// Forbid all excesses: give [`ExcessError::Fatal`] on one, for the caller to abort.
#[derive(Debug, Default, Clone, Copy, PartialEq, Eq, Structural)]
pub struct PanicOnExcess;

impl Unit for IgnoreExcess {
    const VALUE: Self = IgnoreExcess;
}

impl Unit for ErrorOnExcess {
    const VALUE: Self = ErrorOnExcess;
}

impl Unit for PanicOnExcess {
    const VALUE: Self = PanicOnExcess;
}

impl<Value: Width + ?Sized> ExcessHandler<Value> for IgnoreExcess {
    open spec fn spec_handle_excess(&self, excess: Excess<'_, Value>) -> Result<
        Seq<char>,
        ExcessError,
    > {
        Ok(excess.value.spec_text())
    }

    fn handle_excess(&self, excess: Excess<'_, Value>) -> (r: Result<String, ExcessError>) {
        Ok(text_of(excess.value))
    }
}

impl<Value: Width + ?Sized> ExcessHandler<Value> for ErrorOnExcess {
    open spec fn spec_handle_excess(&self, excess: Excess<'_, Value>) -> Result<
        Seq<char>,
        ExcessError,
    > {
        Err(ExcessError::Forbidden { value_width: excess.value_width, total_width: excess.total_width })
    }

    fn handle_excess(&self, excess: Excess<'_, Value>) -> (r: Result<String, ExcessError>) {
        Err(ExcessError::Forbidden { value_width: excess.value_width, total_width: excess.total_width })
    }
}

impl<Value: Width + ?Sized> ExcessHandler<Value> for PanicOnExcess {
    open spec fn spec_handle_excess(&self, excess: Excess<'_, Value>) -> Result<
        Seq<char>,
        ExcessError,
    > {
        Err(ExcessError::Fatal { value_width: excess.value_width, total_width: excess.total_width })
    }

    fn handle_excess(&self, excess: Excess<'_, Value>) -> (r: Result<String, ExcessError>) {
        Err(ExcessError::Fatal { value_width: excess.value_width, total_width: excess.total_width })
    }
}

impl<Value: Width + ?Sized> UnitExcessHandler<Value> for IgnoreExcess {

}

impl<Value: Width + ?Sized> UnitExcessHandler<Value> for ErrorOnExcess {

}

impl<Value: Width + ?Sized> UnitExcessHandler<Value> for PanicOnExcess {

}


/// Whether `function` accepts every excess and gives the same text or error each time it is
/// called on one.
pub open spec fn is_excess_function<
    Value: Width,
    F: Fn(Excess<'_, Value>) -> Result<String, ExcessError>,
>(function: F) -> bool {
    &&& forall|excess: Excess<'_, Value>| call_requires(function, (excess,))
    &&& forall|
        excess: Excess<'_, Value>,
        a: Result<String, ExcessError>,
        b: Result<String, ExcessError>,
    |
        call_ensures(function, (excess,), a) && call_ensures(function, (excess,), b)
            ==> text_result(a) == text_result(b)
}

/// Turn a function into an [`ExcessHandler`].
pub struct ExcessHandlingFunction<
    Value: Width,
    F: Fn(Excess<'_, Value>) -> Result<String, ExcessError>,
> {
    function: F,
    marker: core::marker::PhantomData<Value>,
}

impl<
    Value: Width,
    F: Fn(Excess<'_, Value>) -> Result<String, ExcessError>,
> ExcessHandlingFunction<Value, F> {
    /// The wrapped function accepts every excess and gives one result for each.
    #[verifier::type_invariant]
    pub closed spec fn inv(&self) -> bool {
        is_excess_function::<Value, F>(self.function)
    }

    /// The wrapped function.
    pub closed spec fn spec_function(&self) -> F {
        self.function
    }

    /// Wrap `function`.
    pub fn new(function: F) -> (r: Self)
        requires
            is_excess_function::<Value, F>(function),
        ensures
            r.spec_function() == function,
    {
        ExcessHandlingFunction { function, marker: core::marker::PhantomData }
    }

    /// The text or error that the handler gives for an excess is the one that the wrapped
    /// function gives.
    pub proof fn lemma_handles_as_function(
        &self,
        excess: Excess<'_, Value>,
        r: Result<String, ExcessError>,
    )
        requires
            is_excess_function::<Value, F>(self.spec_function()),
            call_ensures(self.spec_function(), (excess,), r),
        ensures
            self.spec_handle_excess(excess) == text_result(r),
    {
    }
}

impl<
    Value: Width,
    F: Fn(Excess<'_, Value>) -> Result<String, ExcessError>,
> ExcessHandler<Value> for ExcessHandlingFunction<Value, F> {
    /// Whatever the wrapped function gives for the excess.
    closed spec fn spec_handle_excess(&self, excess: Excess<'_, Value>) -> Result<
        Seq<char>,
        ExcessError,
    > {
        text_result(
            choose|r: Result<String, ExcessError>| call_ensures(self.function, (excess,), r),
        )
    }

    fn handle_excess(&self, excess: Excess<'_, Value>) -> (r: Result<String, ExcessError>) {
        proof {
            use_type_invariant(self);
        }
        let r = (self.function)(excess);
        assert(call_ensures(self.function, (excess,), r));
        r
    }
}

} // verus!
