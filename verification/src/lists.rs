//! Lists, as what they hold.

use vstd::prelude::*;

verus! {

/// What each entry of a list is viewed as.
pub open spec fn viewed<T: View>(list: Seq<T>) -> Seq<T::V> {
    list.map_values(|entry: T| entry@)
}

} // verus!
