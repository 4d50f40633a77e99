//! The constructs that are open while one function is compiled: the
//! function itself and the blocks, loops and conditionals within it. Each
//! records the depth that the operand stack had when it was entered and the
//! number of values that it leaves, so that every way out of it arrives with
//! the same depth.

use vstd::prelude::*;

verus! {

/// The kinds of construct.
#[derive(Clone, Copy, Debug, PartialEq, Eq, Structural)]
pub enum FrameKind {
    /// The body of the function.
    Function,
    /// A block: a branch to it goes to its end.
    Block,
    /// A loop: a branch to it goes to its start.
    Loop,
    /// A conditional, with or without an alternative: a branch to it goes to
    /// its end.
    IfElse,
}

/// A place in the code that branches go to, by its number within the
/// function. Its offset is known once the code at it is emitted.
#[derive(Clone, Copy, Debug, PartialEq, Eq, Structural)]
pub struct Label(pub u32);

/// An open construct.
#[derive(Clone, Copy, Debug, PartialEq, Eq, Structural)]
pub struct ControlFrame {
    /// What the construct is.
    pub kind: FrameKind,
    /// The depth of the operand stack when the construct was entered.
    pub entry_depth: usize,
    /// The number of values that the construct leaves on the operand stack.
    pub arity: usize,
    /// The label of the construct's end.
    pub end: Label,
    /// The label of the construct's start, for a loop.
    pub start: Option<Label>,
}

/// Why an operation on the open constructs was not done. Each shows a fault
/// in the code that was given or in the caller: the code is taken to have
/// been validated.
#[derive(Clone, Copy, Debug, PartialEq, Eq, Structural)]
pub enum ControlError {
    /// A branch names a construct further out than any that is open.
    BranchDepth,
    /// No construct is open.
    NoOpenFrame,
    /// The operand stack does not have the depth that the construct asks
    /// for.
    StackDepthMismatch,
    /// The function has more labels than can be numbered.
    TooManyLabels,
}

/// What a branch does: where it goes, how many values it carries there from
/// the top of the operand stack, and how many values below those it
/// discards.
#[derive(Clone, Copy, Debug, PartialEq, Eq, Structural)]
pub struct Branch {
    pub target: Label,
    pub carried: usize,
    pub discarded: usize,
}

impl ControlFrame {
    /// The place that a branch to the construct goes to: the start of a
    /// loop, the end of anything else.
    pub open spec fn branch_target(self) -> Label {
        match self.start {
            Some(start) if self.kind == FrameKind::Loop => start,
            _ => self.end,
        }
    }

    /// The number of values that a branch to the construct carries: none to
    /// the start of a loop, the values that the construct leaves to the end
    /// of anything else.
    pub open spec fn branch_arity(self) -> int {
        if self.kind == FrameKind::Loop {
            0
        } else {
            self.arity as int
        }
    }

    /// The depth of the operand stack at the construct's end, whichever way
    /// it is reached.
    pub open spec fn exit_depth(self) -> int {
        self.entry_depth + self.arity
    }

    /// The depth of the operand stack at the place that a branch to the
    /// construct goes to.
    pub open spec fn branch_depth(self) -> int {
        self.entry_depth + self.branch_arity()
    }

    /// Whether the frame's labels are in order: a loop has a start, which is
    /// not its end, and nothing else has one; and the depth at its end fits
    /// the machine.
    pub open spec fn wf(self) -> bool {
        &&& (self.kind == FrameKind::Loop) == self.start.is_some()
        &&& self.start != Some(self.end)
        &&& self.entry_depth + self.arity <= usize::MAX
    }
}

/// The open constructs as a value: the frames from the outermost to the
/// innermost, and the number of the next label.
pub ghost struct ControlView {
    pub frames: Seq<ControlFrame>,
    pub next_label: nat,
}

/// Whether a frame uses a label.
pub open spec fn uses_label(frame: ControlFrame, label: Label) -> bool {
    frame.end == label || frame.start == Some(label)
}

impl ControlView {
    /// The frame that a branch of the given relative depth names: depth
    /// zero is the innermost.
    pub open spec fn frame_at(self, depth: int) -> ControlFrame
        recommends
            0 <= depth < self.frames.len(),
    {
        self.frames[self.frames.len() - 1 - depth]
    }

    /// The invariant of the open constructs. Every frame is in order; a
    /// construct was entered with a stack no less deep than the one around
    /// it was; every label in use was handed out; and no two frames share a
    /// label.
    pub open spec fn wf(self) -> bool {
        &&& self.next_label <= u32::MAX
        &&& forall|i: int| 0 <= i < self.frames.len() ==> (#[trigger] self.frames[i]).wf()
        &&& forall|i: int|
            0 <= i < self.frames.len() ==> (#[trigger] self.frames[i]).end.0 < self.next_label
        &&& forall|i: int|
            0 <= i < self.frames.len() ==> match (#[trigger] self.frames[i]).start {
                Some(start) => start.0 < self.next_label,
                None => true,
            }
        &&& forall|i: int, j: int|
            0 <= i < j < self.frames.len() ==> (#[trigger] self.frames[i]).entry_depth <= (
            #[trigger] self.frames[j]).entry_depth
        &&& forall|i: int, j: int|
            0 <= i < j < self.frames.len() ==> !uses_label(
                #[trigger] self.frames[i],
                (#[trigger] self.frames[j]).end,
            ) && match self.frames[j].start {
                Some(start) => !uses_label(self.frames[i], start),
                None => true,
            }
    }

    /// The frame that entering a construct opens: it records the depth
    /// of the operand stack, and takes the next label for its end and, for a
    /// loop, the one after that for its start.
    pub open spec fn entered(self, kind: FrameKind, arity: usize, depth: usize) -> ControlFrame {
        ControlFrame {
            kind,
            entry_depth: depth,
            arity,
            end: Label(self.next_label as u32),
            start: if kind == FrameKind::Loop {
                Some(Label((self.next_label + 1) as u32))
            } else {
                None
            },
        }
    }

    /// The number of labels that entering a construct takes.
    pub open spec fn labels_for(kind: FrameKind) -> nat {
        if kind == FrameKind::Loop {
            2
        } else {
            1
        }
    }

    /// Why a construct cannot be entered, if it cannot: the operand stack is
    /// less deep than it was when the construct around it was entered, its
    /// depth at the construct's end would not fit the machine, or the labels
    /// run out.
    pub open spec fn refuses_entry(self, kind: FrameKind, arity: usize, depth: usize) -> Option<
        ControlError,
    > {
        if self.frames.len() > 0 && depth < self.frames.last().entry_depth {
            Some(ControlError::StackDepthMismatch)
        } else if depth + arity > usize::MAX {
            Some(ControlError::StackDepthMismatch)
        } else if self.next_label + Self::labels_for(kind) > u32::MAX {
            Some(ControlError::TooManyLabels)
        } else {
            None
        }
    }

    /// What a branch of the given relative depth does when the operand
    /// stack has `depth` values, or why there is no such branch: it names no
    /// open construct, or the stack holds fewer values than the construct
    /// had at its entry and the branch carries.
    pub open spec fn branch(self, relative: usize, depth: usize) -> Result<Branch, ControlError> {
        if relative >= self.frames.len() {
            Err(ControlError::BranchDepth)
        } else {
            let frame = self.frame_at(relative as int);
            if depth < frame.branch_depth() {
                Err(ControlError::StackDepthMismatch)
            } else {
                Ok(
                    Branch {
                        target: frame.branch_target(),
                        carried: frame.branch_arity() as usize,
                        discarded: (depth - frame.branch_depth()) as usize,
                    },
                )
            }
        }
    }
}

/// The constructs that are open while one function is compiled.
pub struct ControlStack {
    frames: Vec<ControlFrame>,
    next_label: u32,
}

impl View for ControlStack {
    type V = ControlView;

    closed spec fn view(&self) -> ControlView {
        ControlView { frames: self.frames@, next_label: self.next_label as nat }
    }
}

impl ControlStack {
    /// No open construct, and no label handed out.
    pub fn new() -> (control: ControlStack)
        ensures
            control@.wf(),
            control@.frames.len() == 0,
            control@.next_label == 0,
    {
        ControlStack { frames: Vec::new(), next_label: 0 }
    }

    /// The number of open constructs.
    pub fn depth(&self) -> (count: usize)
        ensures
            count == self@.frames.len(),
    {
        self.frames.len()
    }

    /// The frame that a branch of the given relative depth names, if a
    /// construct is open at that depth: depth zero is the innermost.
    pub fn frame(&self, relative: usize) -> (found: Option<ControlFrame>)
        ensures
            found == if relative < self@.frames.len() {
                Some(self@.frame_at(relative as int))
            } else {
                None
            },
    {
        let open = self.frames.len();
        if relative < open {
            Some(self.frames[open - 1 - relative])
        } else {
            None
        }
    }

    /// Enters a construct that leaves `arity` values, with `depth` values on
    /// the operand stack: its frame becomes the innermost, and is returned.
    /// Nothing changes where `refuses_entry` gives a reason.
    pub fn enter_frame(&mut self, kind: FrameKind, arity: usize, depth: usize) -> (entered: Result<
        ControlFrame,
        ControlError,
    >)
        requires
            old(self)@.wf(),
        ensures
            final(self)@.wf(),
            match entered {
                Ok(frame) => {
                    &&& old(self)@.refuses_entry(kind, arity, depth).is_none()
                    &&& frame == old(self)@.entered(kind, arity, depth)
                    &&& final(self)@.frames == old(self)@.frames.push(frame)
                    &&& final(self)@.next_label == old(self)@.next_label + ControlView::labels_for(
                        kind,
                    )
                },
                Err(error) => {
                    &&& old(self)@.refuses_entry(kind, arity, depth) == Some(error)
                    &&& final(self)@ == old(self)@
                },
            },
    {
        let ghost before = self@;
        let open = self.frames.len();
        if open > 0 && depth < self.frames[open - 1].entry_depth {
            return Err(ControlError::StackDepthMismatch);
        }
        if arity > usize::MAX - depth {
            return Err(ControlError::StackDepthMismatch);
        }
        let is_loop = match kind {
            FrameKind::Loop => true,
            _ => false,
        };
        let labels: u32 = if is_loop {
            2
        } else {
            1
        };
        if self.next_label > u32::MAX - labels {
            return Err(ControlError::TooManyLabels);
        }
        let end = Label(self.next_label);
        let start = if is_loop {
            Some(Label(self.next_label + 1))
        } else {
            None
        };
        let frame = ControlFrame { kind, entry_depth: depth, arity, end, start };
        self.next_label = self.next_label + labels;
        self.frames.push(frame);
        proof {
            let after = self@;
            assert forall|i: int, j: int| 0 <= i < j < after.frames.len() implies (
            #[trigger] after.frames[i]).entry_depth <= (#[trigger] after.frames[j]).entry_depth by {
                if j < before.frames.len() {
                    assert(before.frames[i].entry_depth <= before.frames[j].entry_depth);
                } else if i < before.frames.len() - 1 {
                    assert(before.frames[i].entry_depth <= before.frames[before.frames.len()
                        - 1].entry_depth);
                }
            }
            assert forall|i: int, j: int| 0 <= i < j < after.frames.len() implies !uses_label(
                #[trigger] after.frames[i],
                (#[trigger] after.frames[j]).end,
            ) && match after.frames[j].start {
                Some(start) => !uses_label(after.frames[i], start),
                None => true,
            } by {
                if j < before.frames.len() {
                    assert(!uses_label(before.frames[i], before.frames[j].end));
                } else {
                    assert(before.frames[i].end.0 < before.next_label);
                }
            }
        }
        Ok(frame)
    }

    /// Leaves the innermost construct at its end, with `depth` values on the
    /// operand stack: its frame is closed and returned. It fails, and
    /// changes nothing, where no construct is open or where the stack does
    /// not have the depth that the construct has at its end.
    pub fn exit_frame(&mut self, depth: usize) -> (left: Result<ControlFrame, ControlError>)
        requires
            old(self)@.wf(),
        ensures
            final(self)@.wf(),
            match left {
                Ok(frame) => {
                    &&& old(self)@.frames.len() > 0
                    &&& frame == old(self)@.frames.last()
                    &&& depth == frame.exit_depth()
                    &&& final(self)@.frames == old(self)@.frames.drop_last()
                    &&& final(self)@.next_label == old(self)@.next_label
                },
                Err(error) => {
                    &&& final(self)@ == old(self)@
                    &&& if old(self)@.frames.len() == 0 {
                        error == ControlError::NoOpenFrame
                    } else {
                        &&& error == ControlError::StackDepthMismatch
                        &&& depth != old(self)@.frames.last().exit_depth()
                    }
                },
            },
    {
        let ghost before = self@;
        let open = self.frames.len();
        if open == 0 {
            return Err(ControlError::NoOpenFrame);
        }
        let frame = self.frames[open - 1];
        proof {
            assert(before.frames[open - 1].wf());
        }
        if depth != frame.entry_depth + frame.arity {
            return Err(ControlError::StackDepthMismatch);
        }
        let _ = self.frames.pop();
        proof {
            let after = self@;
            assert forall|i: int| 0 <= i < after.frames.len() implies (
            #[trigger] after.frames[i]).wf() by {
                assert(before.frames[i].wf());
            }
            assert forall|i: int, j: int| 0 <= i < j < after.frames.len() implies (
            #[trigger] after.frames[i]).entry_depth <= (#[trigger] after.frames[j]).entry_depth by {
                assert(before.frames[i].entry_depth <= before.frames[j].entry_depth);
            }
            assert forall|i: int, j: int| 0 <= i < j < after.frames.len() implies !uses_label(
                #[trigger] after.frames[i],
                (#[trigger] after.frames[j]).end,
            ) && match after.frames[j].start {
                Some(start) => !uses_label(after.frames[i], start),
                None => true,
            } by {
                assert(!uses_label(before.frames[i], before.frames[j].end));
            }
        }
        Ok(frame)
    }

    /// What a branch of the given relative depth does, with `depth` values
    /// on the operand stack: depth zero names the innermost construct.
    /// Nothing changes.
    pub fn branch(&self, relative: usize, depth: usize) -> (branch: Result<Branch, ControlError>)
        requires
            self@.wf(),
        ensures
            branch == self@.branch(relative, depth),
    {
        let open = self.frames.len();
        if relative >= open {
            return Err(ControlError::BranchDepth);
        }
        let frame = self.frames[open - 1 - relative];
        proof {
            assert(self@.frames[open - 1 - relative].wf());
        }
        let is_loop = match frame.kind {
            FrameKind::Loop => true,
            _ => false,
        };
        let carried = if is_loop {
            0
        } else {
            frame.arity
        };
        if depth < frame.entry_depth + carried {
            return Err(ControlError::StackDepthMismatch);
        }
        let target = match frame.start {
            Some(start) => if is_loop {
                start
            } else {
                frame.end
            },
            None => frame.end,
        };
        Ok(Branch { target, carried, discarded: depth - (frame.entry_depth + carried) })
    }
}

/// Every way to the end of a construct arrives with the same depth of the
/// operand stack. Leaving the construct at its end asks for that depth, and
/// a branch to the end from any depth carries the values that the construct
/// leaves and discards the rest, which gives that depth again. For a loop,
/// every branch arrives at its start with the depth that the stack had when
/// the loop was entered.
pub proof fn ways_out_agree_on_depth(
    control: ControlView,
    relative: usize,
    first: usize,
    second: usize,
)
    requires
        control.wf(),
        relative < control.frames.len(),
        control.branch(relative, first).is_ok(),
        control.branch(relative, second).is_ok(),
    ensures
        ({
            let frame = control.frame_at(relative as int);
            let one = control.branch(relative, first).unwrap();
            let other = control.branch(relative, second).unwrap();
            &&& one.target == other.target
            &&& one.carried == other.carried
            &&& first - one.discarded == second - other.discarded
            &&& first - one.discarded == frame.branch_depth()
            &&& frame.kind != FrameKind::Loop ==> first - one.discarded == frame.exit_depth()
            &&& frame.kind == FrameKind::Loop ==> first - one.discarded == frame.entry_depth
        }),
{
    assert(control.frames[control.frames.len() - 1 - relative].wf());
}

/// A branch is refused exactly where it names a construct further out than
/// any that is open, or where the stack is less deep than the place it goes
/// to asks for.
pub proof fn branch_beyond_open_frames_is_refused(
    control: ControlView,
    relative: usize,
    depth: usize,
)
    requires
        control.wf(),
    ensures
        relative >= control.frames.len() <==> control.branch(relative, depth) == Err::<
            Branch,
            ControlError,
        >(ControlError::BranchDepth),
        relative < control.frames.len() ==> (control.branch(relative, depth).is_ok() <==> depth
            >= control.frame_at(relative as int).branch_depth()),
{
}

/// The labels of the open constructs are all different: no two places that
/// branches go to are mixed up.
pub proof fn labels_are_distinct(control: ControlView, outer: int, inner: int)
    requires
        control.wf(),
        0 <= outer < inner < control.frames.len(),
    ensures
        control.frames[outer].branch_target() != control.frames[inner].branch_target(),
        control.frames[outer].end != control.frames[inner].end,
{
    assert(!uses_label(control.frames[outer], control.frames[inner].end));
    assert(control.frames[inner].wf());
    assert(control.frames[outer].wf());
}

} // verus!
