//! The decisions behind the selectors a host drives an instance through.
//!
//! A host reaches an Audio Unit through one function, `Lookup`, that turns a
//! selector number into a function pointer, and through `Open` and `Close`.
//! What each of those answers, and how the instance's state moves, is
//! decided here; the pointers, the allocation and the casts the C API needs
//! are the caller's.

use vstd::prelude::*;
use crate::sys::{
    OSStatus, SInt16, kAudioUnitErr_FailedInitialization, kAudioUnitInitializeSelect,
    kAudioUnitUninitializeSelect, noErr,
};

verus! {

/// The selectors this unit implements.
#[derive(Clone, Copy, Debug, PartialEq, Eq, Structural)]
pub enum Method {
    Initialize,
    Uninitialize,
}

/// A call from the host into an instance.
#[derive(Clone, Copy, Debug, PartialEq, Eq, Structural)]
pub enum Call {
    Open,
    Close,
    Method(Method),
}

/// The method a selector names, or `None` for a selector this unit does not
/// implement.
pub open spec fn spec_lookup(selector: SInt16) -> Option<Method> {
    if selector == kAudioUnitInitializeSelect {
        Some(Method::Initialize)
    } else if selector == kAudioUnitUninitializeSelect {
        Some(Method::Uninitialize)
    } else {
        None
    }
}

/// Turn a selector into the method that implements it.
///
/// A selector we do not implement answers `None` rather than a method that
/// fails: a host reads `None` as "this unit does not do that" and works
/// around it, and reads a failing function as a broken unit.
pub fn lookup(selector: SInt16) -> (m: Option<Method>)
    ensures
        m == spec_lookup(selector),
        m == Some(Method::Initialize) <==> selector == kAudioUnitInitializeSelect,
        m == Some(Method::Uninitialize) <==> selector == kAudioUnitUninitializeSelect,
        m is None <==> (selector != kAudioUnitInitializeSelect && selector
            != kAudioUnitUninitializeSelect),
{
    if selector == kAudioUnitInitializeSelect {
        Some(Method::Initialize)
    } else if selector == kAudioUnitUninitializeSelect {
        Some(Method::Uninitialize)
    } else {
        None
    }
}

/// The unit answers exactly two selectors: `kAudioUnitInitializeSelect`
/// with `Initialize` and `kAudioUnitUninitializeSelect` with
/// `Uninitialize`. Every other selector, `Reset` and `Render` among them,
/// looks up to nothing.
pub proof fn lemma_only_two_selectors(selector: SInt16)
    ensures
        spec_lookup(selector) == Some(Method::Initialize) <==> selector
            == kAudioUnitInitializeSelect,
        spec_lookup(selector) == Some(Method::Uninitialize) <==> selector
            == kAudioUnitUninitializeSelect,
        spec_lookup(selector) is None <==> (selector != kAudioUnitInitializeSelect && selector
            != kAudioUnitUninitializeSelect),
{
}

/// 44 100.0 as the bit pattern of a `Float64`: the rate an instance assumes
/// until the host tells it otherwise.
pub const DEFAULT_SAMPLE_RATE_BITS: u64 = 0x40e5_8880_0000_0000;

/// The slice size an instance assumes until the host tells it otherwise.
pub const DEFAULT_MAX_FRAMES: u32 = 512;

/// What an instance remembers between calls.
///
/// `initialised` is set by `Initialize` and cleared by `Uninitialize`;
/// several selectors are only legal on one side of that line. The sample
/// rate is a `Float64` held as its bit pattern.
#[derive(Clone, Copy, Debug, PartialEq, Eq, Structural)]
pub struct UnitState {
    pub initialised: bool,
    pub sample_rate_bits: u64,
    pub max_frames: u32,
}

/// The status a call answers. Without an instance, `Open` and `Initialize`
/// fail with `kAudioUnitErr_FailedInitialization` while `Close` and
/// `Uninitialize` have nothing to undo and succeed; with one, every call
/// succeeds.
pub open spec fn call_status(call: Call, has_instance: bool) -> OSStatus {
    if has_instance {
        noErr
    } else {
        match call {
            Call::Open => kAudioUnitErr_FailedInitialization,
            Call::Method(Method::Initialize) => kAudioUnitErr_FailedInitialization,
            Call::Close => noErr,
            Call::Method(Method::Uninitialize) => noErr,
        }
    }
}

impl UnitState {
    /// The state a call leaves behind: `Initialize` and `Uninitialize` on an
    /// instance set and clear `initialised`; nothing else changes anything.
    pub open spec fn after(self, call: Call, has_instance: bool) -> UnitState {
        if !has_instance {
            self
        } else {
            match call {
                Call::Method(Method::Initialize) => UnitState { initialised: true, ..self },
                Call::Method(Method::Uninitialize) => UnitState { initialised: false, ..self },
                _ => self,
            }
        }
    }

    /// A fresh, uninitialised instance at the default rate and slice size.
    pub fn new() -> (s: UnitState)
        ensures
            !s.initialised,
            s.sample_rate_bits == DEFAULT_SAMPLE_RATE_BITS,
            s.max_frames == DEFAULT_MAX_FRAMES,
    {
        UnitState {
            initialised: false,
            sample_rate_bits: DEFAULT_SAMPLE_RATE_BITS,
            max_frames: DEFAULT_MAX_FRAMES,
        }
    }

    /// Answer a call. `has_instance` is whether the host handed us a live
    /// instance (a null one is answered without touching anything).
    pub fn handle(&mut self, call: Call, has_instance: bool) -> (status: OSStatus)
        ensures
            *final(self) == old(self).after(call, has_instance),
            status == call_status(call, has_instance),
            // only the flag ever moves, and only on a live instance
            final(self).sample_rate_bits == old(self).sample_rate_bits,
            final(self).max_frames == old(self).max_frames,
            !has_instance ==> *final(self) == *old(self),
            has_instance && call == Call::Method(Method::Initialize) ==> final(self).initialised,
            has_instance && call == Call::Method(Method::Uninitialize)
                ==> !final(self).initialised,
            call == Call::Open || call == Call::Close ==> *final(self) == *old(self),
            // a live instance always succeeds; without one, only the calls
            // that have nothing to undo do
            has_instance ==> status == noErr,
            !has_instance && (call == Call::Open || call == Call::Method(Method::Initialize))
                ==> status == kAudioUnitErr_FailedInitialization,
            !has_instance && (call == Call::Close || call == Call::Method(Method::Uninitialize))
                ==> status == noErr,
    {
        if !has_instance {
            return match call {
                Call::Open => kAudioUnitErr_FailedInitialization,
                Call::Method(Method::Initialize) => kAudioUnitErr_FailedInitialization,
                Call::Close => noErr,
                Call::Method(Method::Uninitialize) => noErr,
            };
        }
        match call {
            Call::Method(Method::Initialize) => {
                self.initialised = true;
            },
            Call::Method(Method::Uninitialize) => {
                self.initialised = false;
            },
            _ => {},
        }
        noErr
    }
}

/// The state a run of calls leaves behind, each call paired with whether it
/// was made on a live instance.
pub open spec fn after_all(s: UnitState, calls: Seq<(Call, bool)>) -> UnitState
    decreases calls.len(),
{
    if calls.len() == 0 {
        s
    } else {
        after_all(s, calls.drop_last()).after(calls.last().0, calls.last().1)
    }
}

/// The last `Initialize` or `Uninitialize` made on a live instance in a run
/// of calls, if there was one.
pub open spec fn last_method(calls: Seq<(Call, bool)>) -> Option<Method>
    decreases calls.len(),
{
    if calls.len() == 0 {
        None
    } else if calls.last().1 && calls.last().0 is Method {
        Some(calls.last().0->Method_0)
    } else {
        last_method(calls.drop_last())
    }
}

/// After any run of calls, an instance is initialised exactly when the last
/// `Initialize` or `Uninitialize` it received was `Initialize`; if it
/// received neither, the flag is what it was, which for a fresh instance is
/// `false`. The sample rate and the slice size never move.
pub proof fn lemma_initialised_follows_the_last_method(s: UnitState, calls: Seq<(Call, bool)>)
    ensures
        after_all(s, calls).initialised == (match last_method(calls) {
            Some(Method::Initialize) => true,
            Some(Method::Uninitialize) => false,
            None => s.initialised,
        }),
        !s.initialised ==> (after_all(s, calls).initialised <==> last_method(calls) == Some(
            Method::Initialize,
        )),
        after_all(s, calls).sample_rate_bits == s.sample_rate_bits,
        after_all(s, calls).max_frames == s.max_frames,
    decreases calls.len(),
{
    if calls.len() > 0 {
        lemma_initialised_follows_the_last_method(s, calls.drop_last());
    }
}

/// What a call answers and leaves behind, over every call and instance:
/// only `Initialize` and `Uninitialize` on a live instance move anything,
/// and they set and clear the flag; a live instance always answers `noErr`,
/// and a missing one fails exactly `Open` and `Initialize`.
pub proof fn lemma_call_outcomes(s: UnitState, call: Call, has_instance: bool)
    ensures
        s.after(call, has_instance).sample_rate_bits == s.sample_rate_bits,
        s.after(call, has_instance).max_frames == s.max_frames,
        !has_instance ==> s.after(call, has_instance) == s,
        has_instance && call == Call::Method(Method::Initialize) ==> s.after(
            call,
            has_instance,
        ).initialised,
        has_instance && call == Call::Method(Method::Uninitialize) ==> !s.after(
            call,
            has_instance,
        ).initialised,
        call == Call::Open || call == Call::Close ==> s.after(call, has_instance) == s,
        has_instance ==> call_status(call, has_instance) == noErr,
        !has_instance && (call == Call::Open || call == Call::Method(Method::Initialize))
            ==> call_status(call, has_instance) == kAudioUnitErr_FailedInitialization,
        !has_instance && (call == Call::Close || call == Call::Method(Method::Uninitialize))
            ==> call_status(call, has_instance) == noErr,
{
}

/// A call made without an instance changes nothing.
pub proof fn lemma_no_instance_no_change(s: UnitState, call: Call)
    ensures
        s.after(call, false) == s,
{
}

/// No call changes the sample rate or the slice size; only `initialised`
/// moves.
pub proof fn lemma_only_initialised_moves(s: UnitState, call: Call, has_instance: bool)
    ensures
        s.after(call, has_instance).sample_rate_bits == s.sample_rate_bits,
        s.after(call, has_instance).max_frames == s.max_frames,
{
}

/// `Uninitialize` undoes `Initialize`: from an uninitialised instance, the
/// two in turn come back to where they started; and each is idempotent.
pub proof fn lemma_uninitialize_undoes_initialize(s: UnitState)
    ensures
        !s.initialised ==> s.after(Call::Method(Method::Initialize), true).after(
            Call::Method(Method::Uninitialize),
            true,
        ) == s,
        s.after(Call::Method(Method::Initialize), true).initialised,
        !s.after(Call::Method(Method::Uninitialize), true).initialised,
        s.after(Call::Method(Method::Initialize), true).after(
            Call::Method(Method::Initialize),
            true,
        ) == s.after(Call::Method(Method::Initialize), true),
        s.after(Call::Method(Method::Uninitialize), true).after(
            Call::Method(Method::Uninitialize),
            true,
        ) == s.after(Call::Method(Method::Uninitialize), true),
{
}

/// Every method `lookup` hands out succeeds on a live instance: the unit
/// never offers a selector that only fails.
pub proof fn lemma_looked_up_methods_succeed(selector: SInt16)
    ensures
        spec_lookup(selector) matches Some(m) ==> call_status(Call::Method(m), true) == noErr,
{
}

} // verus!
