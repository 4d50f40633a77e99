use wasmer_dylib::control::Branch;
use wasmer_dylib::control::ControlError;
use wasmer_dylib::control::FrameKind;
use wasmer_dylib::control::Label;
use wasmer_dylib::function_state::CodegenError;
use wasmer_dylib::function_state::FunctionState;
use wasmer_dylib::machine_state::Location;
use wasmer_dylib::machine_state::Register;
use wasmer_dylib::machine_state::RegisterClass;
use wasmer_dylib::machine_state::StateError;

fn general(index: u8) -> Location {
    Location::Register(Register { class: RegisterClass::General, index })
}

#[test]
fn a_block_keeps_the_values_below_it() {
    let mut state = FunctionState::new(4, 4);
    state.enter_frame(FrameKind::Function, 1).unwrap();
    assert_eq!(state.push(RegisterClass::General), Ok(general(0)));
    assert_eq!(state.push(RegisterClass::General), Ok(general(1)));
    let block = state.enter_frame(FrameKind::Block, 1).unwrap();
    assert_eq!(block.entry_depth, 2);
    assert_eq!(state.pop(), Err(CodegenError::State(StateError::StackUnderflow)));
    assert_eq!(state.peek(0), Err(CodegenError::State(StateError::StackUnderflow)));
    assert_eq!(state.push(RegisterClass::General), Ok(general(2)));
    assert_eq!(state.peek(0), Ok(general(2)));
    assert_eq!(state.peek(1), Err(CodegenError::State(StateError::StackUnderflow)));
    assert_eq!(state.exit_frame().unwrap().end, block.end);
    assert_eq!(state.peek(2), Ok(general(0)));
    assert_eq!(state.pop(), Ok(general(2)));
    assert_eq!(state.pop(), Ok(general(1)));
    assert_eq!(state.machine().depth(), 1);
    assert_eq!(state.exit_frame().unwrap().kind, FrameKind::Function);
    assert_eq!(state.control().depth(), 0);
}

#[test]
fn a_construct_is_left_with_the_values_it_leaves() {
    let mut state = FunctionState::new(2, 0);
    state.enter_frame(FrameKind::Block, 2).unwrap();
    assert_eq!(
        state.exit_frame(),
        Err(CodegenError::Control(ControlError::StackDepthMismatch))
    );
    state.push_immediate(1);
    assert_eq!(
        state.exit_frame(),
        Err(CodegenError::Control(ControlError::StackDepthMismatch))
    );
    state.push_immediate(2);
    state.push_immediate(3);
    assert_eq!(
        state.exit_frame(),
        Err(CodegenError::Control(ControlError::StackDepthMismatch))
    );
    assert_eq!(state.pop(), Ok(Location::Immediate(3)));
    assert!(state.exit_frame().is_ok());
    assert_eq!(state.machine().depth(), 2);
    assert_eq!(state.exit_frame(), Err(CodegenError::Control(ControlError::NoOpenFrame)));
}

#[test]
fn branches_from_here() {
    let mut state = FunctionState::new(2, 0);
    assert_eq!(state.branch(0), Err(CodegenError::Control(ControlError::BranchDepth)));
    state.enter_frame(FrameKind::Function, 1).unwrap();
    state.push_immediate(1);
    state.enter_frame(FrameKind::Loop, 1).unwrap();
    assert_eq!(state.branch(0), Ok(Branch { target: Label(2), carried: 0, discarded: 0 }));
    assert_eq!(state.branch(1), Ok(Branch { target: Label(0), carried: 1, discarded: 0 }));
    state.push_immediate(2);
    state.push_immediate(3);
    assert_eq!(state.branch(0), Ok(Branch { target: Label(2), carried: 0, discarded: 2 }));
    assert_eq!(state.branch(1), Ok(Branch { target: Label(0), carried: 1, discarded: 2 }));
    assert_eq!(state.branch(2), Err(CodegenError::Control(ControlError::BranchDepth)));
    state.enter_frame(FrameKind::Block, 2).unwrap();
    assert_eq!(
        state.branch(0),
        Err(CodegenError::Control(ControlError::StackDepthMismatch))
    );
    assert_eq!(state.machine().depth(), 3);
    assert_eq!(state.control().depth(), 3);
}

#[test]
fn registers_are_acquired_and_released_within_a_construct() {
    let mut state = FunctionState::new(1, 0);
    state.enter_frame(FrameKind::Function, 0).unwrap();
    assert_eq!(state.push(RegisterClass::General), Ok(general(0)));
    state.enter_frame(FrameKind::Block, 0).unwrap();
    let acquired = state.acquire_register(RegisterClass::General).unwrap();
    assert_eq!(acquired.register, Register { class: RegisterClass::General, index: 0 });
    assert_eq!(acquired.spilled_to, Some(0));
    assert_eq!(
        state.acquire_register(RegisterClass::General),
        Err(CodegenError::State(StateError::RegisterUnderflow))
    );
    assert_eq!(state.release(general(0)), Ok(()));
    assert_eq!(state.release(general(0)), Err(CodegenError::State(StateError::NotHeld)));
    assert!(state.exit_frame().is_ok());
    assert_eq!(state.pop(), Ok(Location::StackSlot(0)));
    assert_eq!(state.machine().stack_offset(), 0);
    assert_eq!(state.add_local(RegisterClass::General), Ok(general(0)));
    assert_eq!(state.machine().local(0), Ok(general(0)));
}

#[test]
fn unwinding_drops_the_values_of_the_construct() {
    let mut state = FunctionState::new(1, 0);
    state.enter_frame(FrameKind::Function, 0).unwrap();
    assert_eq!(state.push(RegisterClass::General), Ok(general(0)));
    assert_eq!(state.push(RegisterClass::General), Ok(Location::StackSlot(0)));
    state.enter_frame(FrameKind::Block, 0).unwrap();
    assert_eq!(state.unwind(), 0);
    assert_eq!(state.push(RegisterClass::General), Ok(Location::StackSlot(8)));
    assert_eq!(state.push(RegisterClass::General), Ok(Location::StackSlot(16)));
    state.push_immediate(9);
    assert_eq!(state.machine().depth(), 5);
    assert_eq!(state.unwind(), 16);
    assert_eq!(state.machine().depth(), 2);
    assert_eq!(state.machine().stack_offset(), 8);
    assert!(state.exit_frame().is_ok());
    assert_eq!(state.unwind(), 8);
    assert_eq!(state.machine().depth(), 0);
    assert_eq!(state.machine().stack_offset(), 0);
    assert_eq!(state.push(RegisterClass::General), Ok(general(0)));
}
