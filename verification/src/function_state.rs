//! The state of one function's compilation: where its values are and which
//! constructs are open, kept together so that the depth of the operand
//! stack and the open constructs always agree.

use crate::control::Branch;
use crate::control::ControlError;
use crate::control::ControlFrame;
use crate::control::ControlStack;
use crate::control::ControlView;
use crate::control::FrameKind;
use crate::machine_state::Acquired;
use crate::machine_state::Location;
use crate::machine_state::MachineState;
use crate::machine_state::MachineView;
use crate::machine_state::RegisterClass;
use crate::machine_state::StateError;
use vstd::prelude::*;

verus! {

/// Why a step of the compilation was not done: a fault in the places of the
/// values, or one in the open constructs. Either ends the compilation of the
/// function.
#[derive(Clone, Copy, Debug, PartialEq, Eq, Structural)]
pub enum CodegenError {
    State(StateError),
    Control(ControlError),
}

/// The state as a value.
pub ghost struct FunctionView {
    pub machine: MachineView,
    pub control: ControlView,
}

impl FunctionView {
    /// The depth below which the operand stack may not fall: the depth that
    /// it had when the innermost open construct was entered.
    pub open spec fn floor(self) -> nat {
        if self.control.frames.len() > 0 {
            self.control.frames.last().entry_depth as nat
        } else {
            0
        }
    }

    /// The invariant of the state: the places of the values are in order,
    /// the open constructs are in order, and the operand stack is no less
    /// deep than it was when any open construct was entered.
    pub open spec fn wf(self) -> bool {
        &&& self.machine.wf()
        &&& self.control.wf()
        &&& self.floor() <= self.machine.stack.len()
    }
}

/// The state of one function's compilation.
pub struct FunctionState {
    machine: MachineState,
    control: ControlStack,
}

impl View for FunctionState {
    type V = FunctionView;

    closed spec fn view(&self) -> FunctionView {
        FunctionView { machine: self.machine@, control: self.control@ }
    }
}

impl FunctionState {
    /// The state at the start of a function, for a machine with this many
    /// allocatable registers in each file: no value, no open construct.
    pub fn new(general: u8, float: u8) -> (state: FunctionState)
        ensures
            state@.wf(),
            state@.machine.general.len() == general,
            state@.machine.float.len() == float,
            state@.machine.stack.len() == 0,
            state@.machine.locals.len() == 0,
            state@.machine.held.len() == 0,
            state@.machine.stack_offset == 0,
            state@.control.frames.len() == 0,
            state@.control.next_label == 0,
    {
        FunctionState { machine: MachineState::new(general, float), control: ControlStack::new() }
    }

    /// The places of the values.
    pub fn machine(&self) -> (machine: &MachineState)
        ensures
            machine@ == self@.machine,
    {
        &self.machine
    }

    /// The open constructs.
    pub fn control(&self) -> (control: &ControlStack)
        ensures
            control@ == self@.control,
    {
        &self.control
    }

    /// The depth below which the operand stack may not fall.
    fn floor(&self) -> (floor: usize)
        requires
            self@.wf(),
        ensures
            floor == self@.floor(),
    {
        match self.control.frame(0) {
            Some(frame) => frame.entry_depth,
            None => 0,
        }
    }

    /// Pushes a new value of the given file, as `MachineState::push` does.
    pub fn push(&mut self, class: RegisterClass) -> (place: Result<Location, CodegenError>)
        requires
            old(self)@.wf(),
        ensures
            final(self)@.wf(),
            final(self)@.control == old(self)@.control,
            match place {
                Ok(location) => {
                    &&& old(self)@.machine.allocates(class, location)
                    &&& final(self)@.machine == old(self)@.machine.with_pushed(location)
                },
                Err(error) => {
                    &&& error == CodegenError::State(StateError::FrameTooLarge)
                    &&& old(self)@.machine.is_full(class)
                    &&& final(self)@ == old(self)@
                },
            },
    {
        match self.machine.push(class) {
            Ok(location) => Ok(location),
            Err(error) => Err(CodegenError::State(error)),
        }
    }

    /// Pushes a constant, which takes no place.
    pub fn push_immediate(&mut self, value: u64)
        requires
            old(self)@.wf(),
        ensures
            final(self)@.wf(),
            final(self)@.control == old(self)@.control,
            final(self)@.machine == (MachineView {
                stack: old(self)@.machine.stack.push(Location::Immediate(value)),
                ..old(self)@.machine
            }),
    {
        self.machine.push_immediate(value);
    }

    /// Gives a new local its place, as `MachineState::add_local` does.
    pub fn add_local(&mut self, class: RegisterClass) -> (place: Result<Location, CodegenError>)
        requires
            old(self)@.wf(),
        ensures
            final(self)@.wf(),
            final(self)@.control == old(self)@.control,
            match place {
                Ok(location) => {
                    &&& old(self)@.machine.allocates(class, location)
                    &&& final(self)@.machine == old(self)@.machine.with_local(location)
                },
                Err(error) => {
                    &&& error == CodegenError::State(StateError::FrameTooLarge)
                    &&& old(self)@.machine.is_full(class)
                    &&& final(self)@ == old(self)@
                },
            },
    {
        match self.machine.add_local(class) {
            Ok(location) => Ok(location),
            Err(error) => Err(CodegenError::State(error)),
        }
    }

    /// Pops the top of the operand stack and gives its place up, as
    /// `MachineState::pop` does. It fails, and changes nothing, where the
    /// stack is no deeper than it was when the innermost open construct was
    /// entered: the values below belong to the constructs around it.
    pub fn pop(&mut self) -> (place: Result<Location, CodegenError>)
        requires
            old(self)@.wf(),
        ensures
            final(self)@.wf(),
            final(self)@.control == old(self)@.control,
            match place {
                Ok(location) => {
                    &&& old(self)@.machine.stack.len() > old(self)@.floor()
                    &&& location == old(self)@.machine.stack.last()
                    &&& final(self)@.machine == old(self)@.machine.popped()
                },
                Err(error) => {
                    &&& error == CodegenError::State(StateError::StackUnderflow)
                    &&& old(self)@.machine.stack.len() == old(self)@.floor()
                    &&& final(self)@ == old(self)@
                },
            },
    {
        if self.machine.depth() <= self.floor() {
            return Err(CodegenError::State(StateError::StackUnderflow));
        }
        match self.machine.pop() {
            Ok(location) => Ok(location),
            Err(error) => Err(CodegenError::State(error)),
        }
    }

    /// Pops every value that was pushed since the innermost open construct
    /// was entered, and returns the number of bytes by which the frame
    /// shrank: the amount by which the stack pointer is to be adjusted. Code
    /// that leaves the construct by a branch has to do so with this
    /// adjustment. With no open construct every value is popped.
    pub fn unwind(&mut self) -> (adjustment: u32)
        requires
            old(self)@.wf(),
        ensures
            final(self)@.wf(),
            final(self)@.control == old(self)@.control,
            final(self)@.machine == old(self)@.machine.popped_to(old(self)@.floor()),
            final(self)@.machine.stack == old(self)@.machine.stack.take(old(self)@.floor() as int),
            final(self)@.machine.locals == old(self)@.machine.locals,
            final(self)@.machine.held == old(self)@.machine.held,
            adjustment == old(self)@.machine.stack_offset - final(self)@.machine.stack_offset,
    {
        let floor = self.floor();
        self.machine.truncate(floor)
    }

    /// The place of the value `depth` values below the top of the operand
    /// stack. It fails where that value lies below the values of the
    /// innermost open construct.
    pub fn peek(&self, depth: usize) -> (place: Result<Location, CodegenError>)
        requires
            self@.wf(),
        ensures
            place == if depth < self@.machine.stack.len() - self@.floor() {
                Ok::<Location, CodegenError>(
                    self@.machine.stack[self@.machine.stack.len() - 1 - depth],
                )
            } else {
                Err::<Location, CodegenError>(CodegenError::State(StateError::StackUnderflow))
            },
    {
        if depth >= self.machine.depth() - self.floor() {
            return Err(CodegenError::State(StateError::StackUnderflow));
        }
        match self.machine.peek(depth) {
            Ok(location) => Ok(location),
            Err(error) => Err(CodegenError::State(error)),
        }
    }

    /// Hands out a register of the given file, spilling the oldest value of
    /// the operand stack that is in one where none is free, as
    /// `MachineState::acquire_register` does.
    pub fn acquire_register(&mut self, class: RegisterClass) -> (handed: Result<
        Acquired,
        CodegenError,
    >)
        requires
            old(self)@.wf(),
        ensures
            final(self)@.wf(),
            final(self)@.control == old(self)@.control,
            handed.is_ok() <==> old(self)@.machine.refuses_register(class).is_none(),
            match handed {
                Ok(acquired) => old(self)@.machine.acquires(class, acquired, final(self)@.machine),
                Err(error) => {
                    &&& error matches CodegenError::State(reason)
                        && old(self)@.machine.refuses_register(class) == Some(reason)
                    &&& final(self)@ == old(self)@
                },
            },
    {
        match self.machine.acquire_register(class) {
            Ok(acquired) => Ok(acquired),
            Err(error) => Err(CodegenError::State(error)),
        }
    }

    /// Gives back a register that was acquired, as `MachineState::release`
    /// does.
    pub fn release(&mut self, location: Location) -> (done: Result<(), CodegenError>)
        requires
            old(self)@.wf(),
        ensures
            final(self)@.wf(),
            final(self)@.control == old(self)@.control,
            done.is_ok() <==> old(self)@.machine.is_held(location),
            match done {
                Ok(_) => old(self)@.machine.releases(location, final(self)@.machine),
                Err(error) => {
                    &&& error == CodegenError::State(StateError::NotHeld)
                    &&& !old(self)@.machine.is_held(location)
                    &&& final(self)@ == old(self)@
                },
            },
    {
        match self.machine.release(location) {
            Ok(()) => Ok(()),
            Err(error) => Err(CodegenError::State(error)),
        }
    }

    /// Enters a construct that leaves `arity` values: its frame records the
    /// depth that the operand stack has now, becomes the innermost, and is
    /// returned. It fails, and changes nothing, where the depth at the
    /// construct's end would not fit the machine or the labels run out.
    pub fn enter_frame(&mut self, kind: FrameKind, arity: usize) -> (entered: Result<
        ControlFrame,
        CodegenError,
    >)
        requires
            old(self)@.wf(),
        ensures
            final(self)@.wf(),
            final(self)@.machine == old(self)@.machine,
            match entered {
                Ok(frame) => {
                    &&& old(self)@.control.refuses_entry(
                        kind,
                        arity,
                        old(self)@.machine.stack.len() as usize,
                    ).is_none()
                    &&& frame == old(self)@.control.entered(
                        kind,
                        arity,
                        old(self)@.machine.stack.len() as usize,
                    )
                    &&& frame.entry_depth == old(self)@.machine.stack.len()
                    &&& final(self)@.control.frames == old(self)@.control.frames.push(frame)
                    &&& final(self)@.control.next_label == old(self)@.control.next_label
                        + ControlView::labels_for(kind)
                },
                Err(error) => {
                    &&& error matches CodegenError::Control(reason)
                        && old(self)@.control.refuses_entry(
                        kind,
                        arity,
                        old(self)@.machine.stack.len() as usize,
                    ) == Some(reason)
                    &&& final(self)@ == old(self)@
                },
            },
    {
        let depth = self.machine.depth();
        match self.control.enter_frame(kind, arity, depth) {
            Ok(frame) => Ok(frame),
            Err(error) => Err(CodegenError::Control(error)),
        }
    }

    /// Leaves the innermost construct at its end: its frame is closed and
    /// returned, and the values that it leaves stay on the operand stack. It
    /// fails, and changes nothing, where no construct is open or where the
    /// stack does not hold exactly the values that the construct leaves
    /// above those that it found.
    pub fn exit_frame(&mut self) -> (left: Result<ControlFrame, CodegenError>)
        requires
            old(self)@.wf(),
        ensures
            final(self)@.wf(),
            final(self)@.machine == old(self)@.machine,
            match left {
                Ok(frame) => {
                    &&& old(self)@.control.frames.len() > 0
                    &&& frame == old(self)@.control.frames.last()
                    &&& old(self)@.machine.stack.len() == frame.exit_depth()
                    &&& final(self)@.control.frames == old(self)@.control.frames.drop_last()
                    &&& final(self)@.control.next_label == old(self)@.control.next_label
                },
                Err(error) => {
                    &&& final(self)@ == old(self)@
                    &&& if old(self)@.control.frames.len() == 0 {
                        error == CodegenError::Control(ControlError::NoOpenFrame)
                    } else {
                        &&& error == CodegenError::Control(ControlError::StackDepthMismatch)
                        &&& old(self)@.machine.stack.len() != old(
                            self,
                        )@.control.frames.last().exit_depth()
                    }
                },
            },
    {
        let ghost before = self@;
        let depth = self.machine.depth();
        match self.control.exit_frame(depth) {
            Ok(frame) => {
                proof {
                    let open = before.control.frames.len() as int;
                    if open > 1 {
                        assert(before.control.frames[open - 2].entry_depth
                            <= before.control.frames[open - 1].entry_depth);
                        assert(self@.control.frames.last() == before.control.frames[open - 2]);
                    }
                }
                Ok(frame)
            },
            Err(error) => Err(CodegenError::Control(error)),
        }
    }

    /// What a branch of the given relative depth does from here: where it
    /// goes, how many values it carries from the top of the operand stack,
    /// and how many below those it discards. Depth zero names the innermost
    /// construct. Nothing changes. It fails where no construct is open at
    /// that depth, or where the stack holds fewer values above the
    /// construct's than the branch carries.
    pub fn branch(&self, relative: usize) -> (branch: Result<Branch, CodegenError>)
        requires
            self@.wf(),
        ensures
            branch == match self@.control.branch(relative, self@.machine.stack.len() as usize) {
                Ok(found) => Ok::<Branch, CodegenError>(found),
                Err(error) => Err::<Branch, CodegenError>(CodegenError::Control(error)),
            },
    {
        match self.control.branch(relative, self.machine.depth()) {
            Ok(found) => Ok(found),
            Err(error) => Err(CodegenError::Control(error)),
        }
    }
}

/// At every point of a function's compilation the operand stack is no less
/// deep than it was when any of the open constructs was entered, and a
/// branch to a loop from anywhere within it is never refused for want of
/// values.
pub proof fn stack_stays_above_open_frames(state: FunctionView, relative: usize)
    requires
        state.wf(),
        relative < state.control.frames.len(),
        state.machine.stack.len() <= usize::MAX,
    ensures
        state.control.frame_at(relative as int).entry_depth <= state.machine.stack.len(),
        state.control.frame_at(relative as int).kind == FrameKind::Loop ==> state.control.branch(
            relative,
            state.machine.stack.len() as usize,
        ).is_ok(),
{
    let open = state.control.frames.len() as int;
    if relative > 0 {
        assert(state.control.frames[open - 1 - relative].entry_depth <= state.control.frames[open
            - 1].entry_depth);
    }
    assert(state.control.frames[open - 1 - relative].wf());
}

} // verus!
