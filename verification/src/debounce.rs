//! The six-sample debounce filter of the `debouncr` crate, as the buttons
//! see it.
//!
//! The filter itself is not verified here. What this module states of it is
//! taken from the crate's source and believed by the verifier.

use debouncr::{debounce_stateful_6, DebouncerStateful, Edge, Repeat6};
use vstd::prelude::*;

verus! {

/// Number of consecutive agreeing samples the filter asks for.
pub const DEBOUNCE_SAMPLES: usize = 6;

/// `debouncr::DebouncerStateful`, opaque to the verifier.
#[verifier::external_type_specification]
#[verifier::external_body]
#[verifier::reject_recursive_types(S)]
#[verifier::reject_recursive_types(M)]
pub struct ExDebouncerStateful<S, M>(DebouncerStateful<S, M>);

/// `debouncr::Repeat6`, the marker for a six-sample filter.
#[verifier::external_type_specification]
#[verifier::external_body]
pub struct ExRepeat6(Repeat6);

/// The samples the filter's shift register holds, oldest first.
pub uninterp spec fn filter_samples(filter: DebouncerStateful<u8, Repeat6>) -> Seq<bool>;

/// Whether the last edge the filter reported (or the level it was created
/// with) is high.
pub uninterp spec fn filter_level(filter: DebouncerStateful<u8, Repeat6>) -> bool;

/// An accepted change of the debounced level.
#[derive(Clone, Copy, Debug, PartialEq, Eq, Structural)]
pub enum Transition {
    Rising,
    Falling,
}

/// Every sample of `samples` equals `value`.
pub open spec fn all_samples(samples: Seq<bool>, value: bool) -> bool {
    forall|i: int| 0 <= i < samples.len() ==> samples[i] == value
}

/// The register after `sample` is shifted in and the oldest sample is
/// shifted out.
pub open spec fn shift_in(samples: Seq<bool>, sample: bool) -> Seq<bool> {
    samples.drop_first().push(sample)
}

/// The edge the filter reports when its register goes from `before` to
/// `after` while it stands at `level`: the register has just become uniform,
/// at the level opposite to `level`.
pub open spec fn reported_edge(before: Seq<bool>, after: Seq<bool>, level: bool) -> Option<
    Transition,
> {
    if all_samples(after, true) && !all_samples(before, true) && !level {
        Some(Transition::Rising)
    } else if all_samples(after, false) && !all_samples(before, false) && level {
        Some(Transition::Falling)
    } else {
        None
    }
}

/// The level the filter stands at after it reported `edge`, having stood at
/// `level` before.
pub open spec fn level_after(edge: Option<Transition>, level: bool) -> bool {
    match edge {
        Some(Transition::Rising) => true,
        Some(Transition::Falling) => false,
        None => level,
    }
}

/// Calls `debouncr::debounce_stateful_6(false)`: a filter whose register
/// holds six low samples and whose level is low.
#[verifier::external_body]
pub(crate) fn new_filter() -> (filter: DebouncerStateful<u8, Repeat6>)
    ensures
        filter_samples(filter) == Seq::new(DEBOUNCE_SAMPLES as nat, |i: int| false),
        !filter_level(filter),
{
    debounce_stateful_6(false)
}

/// Calls `DebouncerStateful::update`: the sample is shifted into the
/// register; an edge is reported when that makes the register uniform at the
/// level opposite to the one the filter stands at, and the filter then
/// stands at the new level.
#[verifier::external_body]
pub(crate) fn filter_update(filter: &mut DebouncerStateful<u8, Repeat6>, sample: bool) -> (edge:
    Option<Transition>)
    requires
        filter_samples(*old(filter)).len() == DEBOUNCE_SAMPLES,
    ensures
        filter_samples(*final(filter)) == shift_in(filter_samples(*old(filter)), sample),
        edge == reported_edge(
            filter_samples(*old(filter)),
            filter_samples(*final(filter)),
            filter_level(*old(filter)),
        ),
        filter_level(*final(filter)) == level_after(edge, filter_level(*old(filter))),
    no_unwind
{
    match filter.update(sample) {
        Some(Edge::Rising) => Some(Transition::Rising),
        Some(Edge::Falling) => Some(Transition::Falling),
        None => None,
    }
}

/// Calls `DebouncerStateful::is_high`: whether every sample in the register
/// is high.
#[verifier::external_body]
pub(crate) fn filter_is_high(filter: &DebouncerStateful<u8, Repeat6>) -> (high: bool)
    ensures
        high == all_samples(filter_samples(*filter), true),
{
    filter.is_high()
}

} // verus!
