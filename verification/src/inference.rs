//! Inference decision rule: from a logit vector to a class.
//!
//! The compute backend produces one floating-point logit per class; the
//! caller hands them in as order keys — integers under any
//! order-preserving encoding of the logits. The prediction is the index
//! of the maximum (the lowest index wins exact ties), mapped through the
//! fixed ordered class name list, with "unknown" for an index outside it.

use vstd::prelude::*;

verus! {

/// The class name the fixed ordered list assigns to an index.
pub open spec fn spec_class_name(index: int) -> Seq<char> {
    if index == 0 {
        "fire_and_smoke"@
    } else if index == 1 {
        "flood"@
    } else if index == 2 {
        "wildfire"@
    } else if index == 3 {
        "normal"@
    } else {
        "unknown"@
    }
}

/// Maps a class index through the fixed ordered class name list;
/// "unknown" for an index outside its bounds.
pub fn class_name(index: usize) -> (r: &'static str)
    ensures
        r@ == spec_class_name(index as int),
{
    if index == 0 {
        "fire_and_smoke"
    } else if index == 1 {
        "flood"
    } else if index == 2 {
        "wildfire"
    } else if index == 3 {
        "normal"
    } else {
        "unknown"
    }
}

/// The standard order-preserving integer encoding of an IEEE single-width
/// bit pattern: a pattern with the sign bit clear maps to itself, one
/// with the sign bit set is reflected below zero, so of two (non-NaN)
/// logits the larger one gets the larger key.
pub fn logit_order_key(bits: u32) -> (r: i64)
    ensures
        bits >> 31u32 == 0 ==> r == bits as i64,
        bits >> 31u32 != 0 ==> r == -((bits & 0x7fff_ffffu32) as i64) - 1,
{
    if bits >> 31 == 0 {
        bits as i64
    } else {
        -((bits & 0x7fff_ffff) as i64) - 1
    }
}

/// Index of the largest value; on exact ties the lowest index wins.
pub fn argmax(logits: &Vec<i64>) -> (r: Option<usize>)
    ensures
        r is Some <==> logits@.len() > 0,
        r is Some ==> {
            let i = r.unwrap() as int;
            &&& 0 <= i < logits@.len()
            &&& forall|j: int| 0 <= j < logits@.len() ==> logits@[j] <= logits@[i]
            &&& forall|j: int| 0 <= j < i ==> logits@[j] < logits@[i]
        },
{
    if logits.len() == 0 {
        return None;
    }
    let mut best: usize = 0;
    let mut k: usize = 1;
    while k < logits.len()
        invariant
            k <= logits@.len(),
            best < k,
            forall|j: int| 0 <= j < k ==> logits@[j] <= logits@[best as int],
            forall|j: int| 0 <= j < best ==> logits@[j] < logits@[best as int],
        decreases logits@.len() - k,
    {
        if logits[k] > logits[best] {
            best = k;
        }
        k += 1;
    }
    Some(best)
}

/// The whole decision: predicted class index and class name for a logit
/// vector, `None` exactly on an empty one.
pub fn predict_from_logits(logits: &Vec<i64>) -> (r: Option<(usize, &'static str)>)
    ensures
        r is Some <==> logits@.len() > 0,
        r is Some ==> {
            let (i, name) = r.unwrap();
            &&& 0 <= i < logits@.len()
            &&& forall|j: int| 0 <= j < logits@.len() ==> logits@[j] <= logits@[i as int]
            &&& forall|j: int| 0 <= j < i ==> logits@[j] < logits@[i as int]
            &&& name@ == spec_class_name(i as int)
        },
{
    match argmax(logits) {
        None => None,
        Some(i) => Some((i, class_name(i))),
    }
}

} // verus!
