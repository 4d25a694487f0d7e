use vstd::prelude::*;
use crate::report::breakdown_report;
use crate::report::report_for;
use crate::report::Report;

verus! {

#[verifier::external_type_specification]
#[verifier::external_body]
pub struct ExFrame(backtrace::Frame);

/// Relies on backtrace::trace: hands the closure the raw frames of the call
/// stack at the point of the call, innermost first. What comes back depends
/// on the process state at that moment, so nothing is promised of it.
#[verifier::external_body]
fn raw_frames() -> Vec<backtrace::Frame> {
    let mut frames: Vec<backtrace::Frame> = Vec::new();
    backtrace::trace(|frame| {
        frames.push(frame.clone());
        true
    });
    frames
}

/// Relies on backtrace::resolve_frame and Symbol::name: the symbol names of
/// one raw frame, one per resolved symbol (an inlined frame can carry
/// several), leaving out symbols whose name cannot be determined. Symbol
/// resolution depends on what debug information the process can see, so
/// nothing is promised of the result.
#[verifier::external_body]
fn resolve_names(frame: &backtrace::Frame) -> Vec<String> {
    let mut names: Vec<String> = Vec::new();
    backtrace::resolve_frame(frame, |symbol| {
        if let Some(name) = symbol.name() {
            names.push(name.to_string());
        }
    });
    names
}

/// Captures the current call stack as a list of symbol names: every raw
/// frame is resolved in order, and frames without a resolvable name are
/// omitted rather than kept as blank entries.
pub fn capture_stack() -> Vec<String> {
    let raw = raw_frames();
    let mut names: Vec<String> = Vec::new();
    let mut i: usize = 0;
    while i < raw.len()
        invariant
            0 <= i <= raw@.len(),
        decreases raw@.len() - i,
    {
        let mut resolved = resolve_names(&raw[i]);
        names.append(&mut resolved);
        i += 1;
    }
    names
}

/// Captures the stack at the point of the fault and builds the diagnostic
/// report for it: whatever frame names came back, the report returned beside
/// them is the report of exactly those frames.
pub fn breakdown_diagnostics(sig: i32) -> (r: (Vec<String>, Report))
    ensures
        report_for(sig as int, r.0.deep_view(), r.1),
{
    let frames = capture_stack();
    let report = breakdown_report(sig, &frames);
    (frames, report)
}

} // verus!
