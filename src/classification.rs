use vstd::prelude::*;

verus! {

/// The caller-visible classification of a context's case state.
///
/// The native resource does not guarantee that exactly one of its two
/// queries holds, so a third outcome is part of the model.
#[derive(Clone, Copy, Debug, PartialEq, Eq, Structural)]
pub enum Classification {
    Lower,
    Upper,
    Unspecified,
}

/// A native query reports "true" only through the status value one.
pub open spec fn flag_of(status: i32) -> bool {
    status == 1
}

/// Interprets the status returned by one of the native boolean queries.
pub fn native_flag(status: i32) -> (r: bool)
    ensures
        r == flag_of(status),
{
    status == 1
}

/// The classification implied by the two native query results. When the
/// native side claims both, "lower" is reported, as it is checked first.
pub open spec fn classification_of(is_lower: bool, is_upper: bool) -> Classification {
    if is_lower {
        Classification::Lower
    } else if is_upper {
        Classification::Upper
    } else {
        Classification::Unspecified
    }
}

/// Combines the two native query results into one classification.
pub fn classify(is_lower: bool, is_upper: bool) -> (r: Classification)
    ensures
        r == classification_of(is_lower, is_upper),
{
    if is_lower {
        Classification::Lower
    } else if is_upper {
        Classification::Upper
    } else {
        Classification::Unspecified
    }
}

/// Classifies a context from the raw status values of its two queries.
pub fn classify_status(lower_status: i32, upper_status: i32) -> (r: Classification)
    ensures
        r == classification_of(flag_of(lower_status), flag_of(upper_status)),
{
    classify(native_flag(lower_status), native_flag(upper_status))
}

/// Every pair of query results yields exactly one of the three
/// classifications, and a context is never reported both lower and upper.
pub proof fn lemma_classification_exclusive(is_lower: bool, is_upper: bool)
    ensures
        ({
            let c = classification_of(is_lower, is_upper);
            (c == Classification::Lower) as int + (c == Classification::Upper) as int + (c
                == Classification::Unspecified) as int == 1
        }),
        classification_of(is_lower, is_upper) == Classification::Lower <==> is_lower,
        classification_of(is_lower, is_upper) == Classification::Upper <==> (!is_lower
            && is_upper),
{
}

} // verus!
