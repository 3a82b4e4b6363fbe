//! Copies that keep the model of a value.

use vstd::prelude::*;

verus! {

/// A clone of such a value has the model of the original.
pub trait FaithfulClone: Clone + DeepView {
    proof fn clone_keeps_model(original: Self, copy: Self)
        requires
            cloned::<Self>(original, copy),
        ensures
            copy.deep_view() == original.deep_view(),
    ;
}

impl FaithfulClone for String {
    proof fn clone_keeps_model(original: Self, copy: Self) {
    }
}

impl FaithfulClone for u64 {
    proof fn clone_keeps_model(original: Self, copy: Self) {
    }
}

}
