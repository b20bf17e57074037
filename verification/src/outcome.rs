//! Assembling a run's outcome from the drained error channel.
//!
//! While the VM runs, the error callback queues events in emission order.
//! Once the VM reports the run's status, the events are turned into one
//! structured result: a compile error takes the first (and only) compile
//! event; a runtime error takes the last runtime message together with every
//! stack-trace event, outermost first, exactly in emission order.

use vstd::prelude::*;

use crate::errors::{StackFrameView, VMError, VMStackFrameError, WrenError, WrenErrorView};

verus! {

/// How the VM reported a finished run: clean, stopped by a compile error,
/// or stopped by a runtime error.
#[derive(Debug, Clone, Copy, PartialEq, Eq, Structural)]
pub enum RunStatus {
    Success,
    CompileError,
    RuntimeError,
}

/// The stack frames among the drained events, in emission order.
pub open spec fn frames_of(events: Seq<WrenErrorView>) -> Seq<StackFrameView>
    decreases events.len(),
{
    if events.len() == 0 {
        Seq::empty()
    } else {
        frames_of(events.drop_last()) + match events.last() {
            WrenErrorView::StackTrace { module, line, function } => seq![
                StackFrameView { module, line, function },
            ],
            _ => Seq::empty(),
        }
    }
}

/// The message of the last runtime event among the drained events, or the
/// empty message if there was none.
pub open spec fn runtime_message(events: Seq<WrenErrorView>) -> Seq<char>
    decreases events.len(),
{
    if events.len() == 0 {
        Seq::empty()
    } else {
        match events.last() {
            WrenErrorView::Runtime { message } => message,
            _ => runtime_message(events.drop_last()),
        }
    }
}

/// The runtime error assembled from drained events.
pub open spec fn spec_runtime_error(events: Seq<WrenErrorView>) -> crate::errors::VMErrorView {
    crate::errors::VMErrorView::Runtime {
        error: runtime_message(events),
        frames: frames_of(events),
    }
}

/// Assemble the structured runtime error from the events drained off the
/// channel: the last runtime message, and every stack frame in emission
/// order.
pub fn assemble_runtime_error(events: &Vec<WrenError>) -> (r: VMError)
    ensures
        r@ == spec_runtime_error(events@.map_values(|e: WrenError| e@)),
{
    let ghost all: Seq<WrenErrorView> = events@.map_values(|e: WrenError| e@);
    let mut error: String = String::new();
    let mut frames: Vec<VMStackFrameError> = Vec::new();
    let mut i: usize = 0;
    proof {
        assert(all.take(0) =~= Seq::<WrenErrorView>::empty());
    }
    while i < events.len()
        invariant
            i <= events@.len(),
            all == events@.map_values(|e: WrenError| e@),
            error@ == runtime_message(all.take(i as int)),
            frames@.map_values(|f: VMStackFrameError| f@) =~= frames_of(all.take(i as int)),
        decreases events@.len() - i,
    {
        proof {
            assert(all.take(i + 1).drop_last() =~= all.take(i as int));
            assert(all.take(i + 1).last() == all[i as int]);
        }
        match &events[i] {
            WrenError::Runtime(msg) => {
                error = msg.clone();
            },
            WrenError::StackTrace(module, line, function) => {
                frames.push(
                    VMStackFrameError {
                        module: module.clone(),
                        line: *line,
                        function: function.clone(),
                    },
                );
            },
            WrenError::Compile(_, _, _) => {},
        }
        i = i + 1;
        proof {
            assert(frames@.map_values(|f: VMStackFrameError| f@) =~= frames_of(
                all.take(i as int),
            ));
        }
    }
    proof {
        assert(all.take(events@.len() as int) =~= all);
    }
    let r = VMError::Runtime { error, frames };
    proof {
        assert(Seq::new(frames@.len(), |j: int| frames@[j]@) =~= frames@.map_values(
            |f: VMStackFrameError| f@,
        ));
    }
    r
}

/// The structured result of `interpret`, built from the reported status and
/// the events drained off the error channel. A compile failure carries the
/// first event, which the VM emits before it stops compiling.
pub fn interpret_result(status: RunStatus, events: &Vec<WrenError>) -> (r: Result<(), VMError>)
    requires
        status is CompileError ==> events@.len() > 0 && events@[0] is Compile,
    ensures
        match status {
            RunStatus::Success => r is Ok,
            RunStatus::CompileError => r matches Err(e) && e@ matches
                crate::errors::VMErrorView::Compile { module, line, error } && events@[0]@ matches
                WrenErrorView::Compile { module: m, line: l, message } && module == m && line == l
                && error == message,
            RunStatus::RuntimeError => r matches Err(e) && e@ == spec_runtime_error(
                events@.map_values(|e: WrenError| e@),
            ),
        },
{
    match status {
        RunStatus::Success => Ok(()),
        RunStatus::CompileError => match &events[0] {
            WrenError::Compile(module, line, message) => Err(
                VMError::Compile { module: module.clone(), line: *line, error: message.clone() },
            ),
            _ => {
                proof {
                    assert(false);
                }
                Ok(())
            },
        },
        RunStatus::RuntimeError => Err(assemble_runtime_error(events)),
    }
}

/// The structured result of `call` or `call_handle`. A call never compiles,
/// so a compile status cannot arise on this path.
pub fn call_result(status: RunStatus, events: &Vec<WrenError>) -> (r: Result<(), VMError>)
    requires
        !(status is CompileError),
    ensures
        match status {
            RunStatus::Success => r is Ok,
            RunStatus::CompileError => false,
            RunStatus::RuntimeError => r matches Err(e) && e@ == spec_runtime_error(
                events@.map_values(|e: WrenError| e@),
            ),
        },
{
    match status {
        RunStatus::Success => Ok(()),
        RunStatus::CompileError => {
            proof {
                assert(false);
            }
            Ok(())
        },
        RunStatus::RuntimeError => Err(assemble_runtime_error(events)),
    }
}

/// The frames of an assembled runtime error are exactly the stack-trace
/// events, in emission order, outermost first: dropping none, adding none,
/// and never reordering. In particular, if the VM emitted at least one
/// stack-trace event, the frame list is non-empty.
pub proof fn lemma_frames_preserve_emission_order(events: Seq<WrenErrorView>)
    ensures
        frames_of(events) == events.filter(|e: WrenErrorView| e is StackTrace).map_values(
            |e: WrenErrorView| frame_of(e),
        ),
        (exists|i: int|
            0 <= i < events.len() && events[i] is StackTrace) ==> frames_of(events).len() > 0,
    decreases events.len(),
{
    reveal(Seq::filter);
    if events.len() == 0 {
        assert(events.filter(|e: WrenErrorView| e is StackTrace) =~= Seq::<WrenErrorView>::empty());
    } else {
        lemma_frames_preserve_emission_order(events.drop_last());
        assert(events =~= events.drop_last().push(events.last()));
        if exists|i: int| 0 <= i < events.len() && events[i] is StackTrace {
            let i = choose|i: int| 0 <= i < events.len() && events[i] is StackTrace;
            if i < events.len() - 1 {
                assert(events.drop_last()[i] is StackTrace);
            }
        }
    }
}

/// The value of one stack-trace event as a frame; unspecified for other
/// events.
pub open spec fn frame_of(e: WrenErrorView) -> StackFrameView {
    match e {
        WrenErrorView::StackTrace { module, line, function } => StackFrameView {
            module,
            line,
            function,
        },
        _ => StackFrameView { module: Seq::empty(), line: 0, function: Seq::empty() },
    }
}

} // verus!
