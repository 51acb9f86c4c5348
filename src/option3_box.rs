use crate::Option3;
use vstd::prelude::*;

verus! {

/// Reports whether a boxed value is absent; fits a field-level
/// "skip when" hook for boxed fields.
pub fn is_none<T>(t: &Box<Option3<T>>) -> (r: bool)
    ensures
        r == (**t is Absent),
{
    matches!(**t, Option3::Absent)
}

} // verus!
