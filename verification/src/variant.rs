//! The workload mix: which of the three traffic variants a random draw selects.

use vstd::prelude::*;

verus! {

/// The three traffic patterns a dispatched runner may execute.
#[derive(Clone, Copy, PartialEq, Eq, Structural, Debug)]
pub enum WorkloadVariant {
    Redirect,
    SignUp,
    SignIn,
}

/// The fixed decision rule on one uniformly distributed 32-bit draw.
/// Draws above `0x0fff_ffff` check a redirect; of the rest, those with a
/// non-zero low 24 bits sign up, and the few remaining draws sign in.
pub open spec fn variant_of(draw: u32) -> WorkloadVariant {
    if draw > 0x0fff_ffff {
        WorkloadVariant::Redirect
    } else if draw & 0x00ff_ffff != 0 {
        WorkloadVariant::SignUp
    } else {
        WorkloadVariant::SignIn
    }
}

/// Resolve one random draw to the traffic variant it selects.
pub fn select_variant(draw: u32) -> (v: WorkloadVariant)
    ensures
        v == variant_of(draw),
{
    if draw > 0x0fff_ffff {
        WorkloadVariant::Redirect
    } else if draw & 0x00ff_ffff != 0 {
        WorkloadVariant::SignUp
    } else {
        WorkloadVariant::SignIn
    }
}

/// A draw selects `Redirect` exactly when it is at least `0x1000_0000`:
/// 15/16 of the 32-bit space, the documented share of roughly 93.75%.
pub proof fn lemma_redirect_share(draw: u32)
    ensures
        variant_of(draw) == WorkloadVariant::Redirect <==> draw >= 0x1000_0000,
{
}

/// A draw selects `SignIn` exactly when it is one of the sixteen multiples
/// of `0x0100_0000` below `0x1000_0000`: 16 values out of 2^32, the
/// documented sliver of about one draw in 268 million.
pub proof fn lemma_sign_in_share(draw: u32)
    ensures
        variant_of(draw) == WorkloadVariant::SignIn <==> (draw < 0x1000_0000 && draw
            % 0x0100_0000 == 0),
{
    assert(draw <= 0x0fff_ffff && draw & 0x00ff_ffff == 0 <==> (draw < 0x1000_0000 && draw
        % 0x0100_0000 == 0)) by (bit_vector);
}

/// A draw selects `SignUp` exactly when it lies below `0x1000_0000` but is
/// no multiple of `0x0100_0000`: the remaining share of roughly 6.25%.
pub proof fn lemma_sign_up_share(draw: u32)
    ensures
        variant_of(draw) == WorkloadVariant::SignUp <==> (draw < 0x1000_0000 && draw
            % 0x0100_0000 != 0),
{
    assert(draw <= 0x0fff_ffff && draw & 0x00ff_ffff != 0 <==> (draw < 0x1000_0000 && draw
        % 0x0100_0000 != 0)) by (bit_vector);
}

} // verus!
