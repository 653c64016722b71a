use vstd::prelude::*;

verus! {

/// A positional argument or result value as it travels on the wire.
///
/// `Null` doubles as the "no value" marker for an unset optional argument.
#[derive(Debug)]
pub enum WireValue {
    Null,
    Bool(bool),
    Int(i64),
    UInt(u64),
    Str(String),
}

impl WireValue {
    pub open spec fn is_null_spec(&self) -> bool {
        self is Null
    }

    pub fn is_null(&self) -> (r: bool)
        ensures
            r == self.is_null_spec(),
    {
        match self {
            WireValue::Null => true,
            _ => false,
        }
    }

    /// A copy of the value, equal to it.
    pub fn duplicate(&self) -> (r: WireValue)
        ensures
            r == *self,
    {
        match self {
            WireValue::Null => WireValue::Null,
            WireValue::Bool(b) => WireValue::Bool(*b),
            WireValue::Int(i) => WireValue::Int(*i),
            WireValue::UInt(u) => WireValue::UInt(*u),
            WireValue::Str(s) => WireValue::Str(s.clone()),
        }
    }
}

} // verus!
