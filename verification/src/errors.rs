//! The error taxonomy of the embedding layer.
//!
//! The VM reports problems through its error callback while a run is in
//! progress; each report becomes a [`WrenError`] event on the error channel.
//! At the call boundary the drained events are assembled into one structured
//! [`VMError`]. Foreign-object injection has its own small error set,
//! [`ForeignSendError`].

use vstd::prelude::*;
use vstd::string::StringExecFns;

verus! {

/// One event emitted by the VM's error callback: a compile diagnostic
/// (module, line, message), a runtime error message, or one stack frame of
/// the runtime error's trace (module, line, function).
#[derive(Debug, Clone, PartialEq)]
pub enum WrenError {
    Compile(String, i32, String),
    Runtime(String),
    StackTrace(String, i32, String),
}

/// The mathematical value of one error-channel event.
pub enum WrenErrorView {
    Compile { module: Seq<char>, line: int, message: Seq<char> },
    Runtime { message: Seq<char> },
    StackTrace { module: Seq<char>, line: int, function: Seq<char> },
}

impl View for WrenError {
    type V = WrenErrorView;

    open spec fn view(&self) -> WrenErrorView {
        match self {
            WrenError::Compile(module, line, message) => WrenErrorView::Compile {
                module: module@,
                line: *line as int,
                message: message@,
            },
            WrenError::Runtime(message) => WrenErrorView::Runtime { message: message@ },
            WrenError::StackTrace(module, line, function) => WrenErrorView::StackTrace {
                module: module@,
                line: *line as int,
                function: function@,
            },
        }
    }
}

/// One frame of a runtime error's stack trace, outermost first.
#[derive(Debug, Clone, PartialEq)]
pub struct VMStackFrameError {
    pub module: String,
    pub line: i32,
    pub function: String,
}

/// The mathematical value of one stack frame.
pub struct StackFrameView {
    pub module: Seq<char>,
    pub line: int,
    pub function: Seq<char>,
}

impl View for VMStackFrameError {
    type V = StackFrameView;

    open spec fn view(&self) -> StackFrameView {
        StackFrameView { module: self.module@, line: self.line as int, function: self.function@ }
    }
}

/// The structured result of a failed run: a compile error (only `interpret`
/// can compile) or a runtime error with its ordered stack trace.
#[derive(Debug, Clone, PartialEq)]
pub enum VMError {
    Compile { module: String, line: i32, error: String },
    Runtime { error: String, frames: Vec<VMStackFrameError> },
}

/// The mathematical value of a structured error.
pub enum VMErrorView {
    Compile { module: Seq<char>, line: int, error: Seq<char> },
    Runtime { error: Seq<char>, frames: Seq<StackFrameView> },
}

impl View for VMError {
    type V = VMErrorView;

    open spec fn view(&self) -> VMErrorView {
        match self {
            VMError::Compile { module, line, error } => VMErrorView::Compile {
                module: module@,
                line: *line as int,
                error: error@,
            },
            VMError::Runtime { error, frames } => VMErrorView::Runtime {
                error: error@,
                frames: Seq::new(frames@.len(), |i: int| frames@[i]@),
            },
        }
    }
}

/// The rendered form of one stack frame: tab-indented module, line and
/// function, with an anonymous function shown as a constructor.
pub open spec fn spec_frame_line(f: StackFrameView) -> Seq<char> {
    "\tin "@ + f.module + ":"@ + crate::fmtnum::spec_int_string(f.line) + ": "@ + (if f.function
        =~= Seq::<char>::empty() {
        "<constructor>"@
    } else {
        f.function
    }) + "\n"@
}

/// The rendered form of a frame list, outermost first.
pub open spec fn spec_frames_text(frames: Seq<StackFrameView>) -> Seq<char>
    decreases frames.len(),
{
    if frames.len() == 0 {
        Seq::empty()
    } else {
        spec_frames_text(frames.drop_last()) + spec_frame_line(frames.last())
    }
}

/// The rendered form of a structured error.
pub open spec fn spec_error_text(v: VMErrorView) -> Seq<char> {
    match v {
        VMErrorView::Compile { module, line, error } => "Compile Error ("@ + module + ":"@
            + crate::fmtnum::spec_int_string(line) + "): "@ + error,
        VMErrorView::Runtime { error, frames } => "Runtime Error: "@ + error + "\n"@
            + spec_frames_text(frames),
    }
}

impl VMError {
    /// Render the error for a reader: one line for a compile error; for a
    /// runtime error, the message followed by one line per stack frame,
    /// outermost first.
    pub fn display_string(&self) -> (r: String)
        ensures
            r@ == spec_error_text(self@),
    {
        match self {
            VMError::Compile { module, line, error } => {
                let mut r = String::from_str("Compile Error (");
                r.append(module.as_str());
                r.append(":");
                r.append(crate::fmtnum::int_string(*line).as_str());
                r.append("): ");
                r.append(error.as_str());
                proof {
                    reveal_strlit("Compile Error (");
                    reveal_strlit(":");
                    reveal_strlit("): ");
                }
                r
            },
            VMError::Runtime { error, frames } => {
                let mut r = String::from_str("Runtime Error: ");
                r.append(error.as_str());
                r.append("\n");
                proof {
                    reveal_strlit("Runtime Error: ");
                    reveal_strlit("\n");
                }
                let ghost fviews: Seq<StackFrameView> = Seq::new(
                    frames@.len(),
                    |i: int| frames@[i]@,
                );
                let ghost head: Seq<char> = r@;
                let mut i: usize = 0;
                proof {
                    assert(spec_frames_text(fviews.take(0)) =~= Seq::<char>::empty());
                }
                while i < frames.len()
                    invariant
                        i <= frames@.len(),
                        fviews == Seq::new(frames@.len(), |j: int| frames@[j]@),
                        r@ == head + spec_frames_text(fviews.take(i as int)),
                    decreases frames@.len() - i,
                {
                    let frame = &frames[i];
                    r.append("\tin ");
                    r.append(frame.module.as_str());
                    r.append(":");
                    r.append(crate::fmtnum::int_string(frame.line).as_str());
                    r.append(": ");
                    if frame.function.as_str().is_empty() {
                        r.append("<constructor>");
                    } else {
                        r.append(frame.function.as_str());
                    }
                    r.append("\n");
                    proof {
                        reveal_strlit("\tin ");
                        reveal_strlit(":");
                        reveal_strlit(": ");
                        reveal_strlit("<constructor>");
                        reveal_strlit("\n");
                        assert(fviews.take(i + 1).drop_last() =~= fviews.take(i as int));
                        assert(fviews.take(i + 1).last() == fviews[i as int]);
                        assert(r@ =~= head + spec_frames_text(fviews.take(i + 1)));
                    }
                    i = i + 1;
                }
                proof {
                    assert(fviews.take(frames@.len() as int) =~= fviews);
                }
                r
            },
        }
    }
}

/// Why an attempt to inject a foreign object into a slot was refused.
#[derive(Debug, Clone, Copy, PartialEq, Eq, Structural)]
pub enum ForeignSendError {
    /// The (module, class) pair is not in the registry.
    NoForeignClass,
    /// The script never declared the class variable.
    NoWrenClass,
    /// The VM could not allocate or write the slot.
    NoMemory,
    /// The registered class's type tag differs from the requested type.
    ClassMismatch,
}

impl ForeignSendError {
    /// The fixed description of this error.
    pub open spec fn spec_describe(&self) -> Seq<char> {
        match self {
            ForeignSendError::NoForeignClass => "no foreign class"@,
            ForeignSendError::NoWrenClass => "no Wren class"@,
            ForeignSendError::NoMemory => "unable to allocate memory"@,
            ForeignSendError::ClassMismatch => "class mismatch"@,
        }
    }

    /// Render the fixed description.
    pub fn describe(&self) -> (r: String)
        ensures
            r@ == self.spec_describe(),
    {
        match self {
            ForeignSendError::NoForeignClass => String::from_str("no foreign class"),
            ForeignSendError::NoWrenClass => String::from_str("no Wren class"),
            ForeignSendError::NoMemory => String::from_str("unable to allocate memory"),
            ForeignSendError::ClassMismatch => String::from_str("class mismatch"),
        }
    }
}

} // verus!
