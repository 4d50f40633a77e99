use wasmer_dylib::machine_state::Acquired;
use wasmer_dylib::machine_state::Location;
use wasmer_dylib::machine_state::MachineState;
use wasmer_dylib::machine_state::Register;
use wasmer_dylib::machine_state::RegisterClass;
use wasmer_dylib::machine_state::StateError;
use wasmer_dylib::machine_state::SLOT_BYTES;

fn general(index: u8) -> Location {
    Location::Register(Register { class: RegisterClass::General, index })
}

fn float(index: u8) -> Location {
    Location::Register(Register { class: RegisterClass::Float, index })
}

#[test]
fn new_state_is_empty() {
    let mut state = MachineState::new(16, 8);
    assert_eq!(state.depth(), 0);
    assert_eq!(state.stack_offset(), 0);
    assert_eq!(state.peek(0), Err(StateError::StackUnderflow));
    assert_eq!(state.pop(), Err(StateError::StackUnderflow));
    assert_eq!(state.local(0), Err(StateError::NoSuchLocal));
    assert_eq!(SLOT_BYTES, 8);
}

#[test]
fn values_take_the_first_free_register() {
    let mut state = MachineState::new(3, 2);
    assert_eq!(state.push(RegisterClass::General), Ok(general(0)));
    assert_eq!(state.push(RegisterClass::Float), Ok(float(0)));
    assert_eq!(state.push(RegisterClass::General), Ok(general(1)));
    assert_eq!(state.depth(), 3);
    assert_eq!(state.peek(0), Ok(general(1)));
    assert_eq!(state.peek(1), Ok(float(0)));
    assert_eq!(state.peek(2), Ok(general(0)));
    assert_eq!(state.peek(3), Err(StateError::StackUnderflow));
    assert_eq!(state.stack_offset(), 0);
}

#[test]
fn more_values_than_registers_go_to_the_frame() {
    let mut state = MachineState::new(2, 0);
    let mut places = Vec::new();
    for _ in 0..5 {
        places.push(state.push(RegisterClass::General).unwrap());
    }
    assert_eq!(
        places,
        vec![
            general(0),
            general(1),
            Location::StackSlot(0),
            Location::StackSlot(8),
            Location::StackSlot(16)
        ]
    );
    assert_eq!(state.stack_offset(), 24);
    for i in 0..places.len() {
        for j in 0..places.len() {
            if i != j {
                assert_ne!(places[i], places[j]);
            }
        }
    }
    assert_eq!(state.push(RegisterClass::Float), Ok(Location::StackSlot(24)));
    assert_eq!(state.pop(), Ok(Location::StackSlot(24)));
    assert_eq!(state.pop(), Ok(Location::StackSlot(16)));
    assert_eq!(state.stack_offset(), 16);
    assert_eq!(state.pop(), Ok(Location::StackSlot(8)));
    assert_eq!(state.pop(), Ok(Location::StackSlot(0)));
    assert_eq!(state.stack_offset(), 0);
    assert_eq!(state.pop(), Ok(general(1)));
    assert_eq!(state.push(RegisterClass::General), Ok(general(1)));
    assert_eq!(state.pop(), Ok(general(1)));
    assert_eq!(state.pop(), Ok(general(0)));
    assert_eq!(state.pop(), Err(StateError::StackUnderflow));
}

#[test]
fn constants_take_no_place() {
    let mut state = MachineState::new(1, 1);
    state.push_immediate(7);
    state.push_immediate(7);
    assert_eq!(state.push(RegisterClass::General), Ok(general(0)));
    assert_eq!(state.depth(), 3);
    assert_eq!(state.peek(1), Ok(Location::Immediate(7)));
    assert_eq!(state.pop(), Ok(general(0)));
    assert_eq!(state.pop(), Ok(Location::Immediate(7)));
    assert_eq!(state.pop(), Ok(Location::Immediate(7)));
    assert_eq!(state.stack_offset(), 0);
}

#[test]
fn locals_keep_their_places() {
    let mut state = MachineState::new(2, 1);
    assert_eq!(state.add_local(RegisterClass::General), Ok(general(0)));
    assert_eq!(state.add_local(RegisterClass::Float), Ok(float(0)));
    assert_eq!(state.add_local(RegisterClass::Float), Ok(Location::StackSlot(0)));
    assert_eq!(state.local(0), Ok(general(0)));
    assert_eq!(state.local(1), Ok(float(0)));
    assert_eq!(state.local(2), Ok(Location::StackSlot(0)));
    assert_eq!(state.local(3), Err(StateError::NoSuchLocal));
    assert_eq!(state.depth(), 0);
    assert_eq!(state.push(RegisterClass::General), Ok(general(1)));
    assert_eq!(state.push(RegisterClass::General), Ok(Location::StackSlot(8)));
    assert_eq!(state.pop(), Ok(Location::StackSlot(8)));
    assert_eq!(state.pop(), Ok(general(1)));
    assert_eq!(state.pop(), Err(StateError::StackUnderflow));
    assert_eq!(state.stack_offset(), 8);
    assert_eq!(state.local(0), Ok(general(0)));
}

#[test]
fn acquiring_takes_a_free_register_first() {
    let mut state = MachineState::new(2, 1);
    assert_eq!(state.push(RegisterClass::General), Ok(general(0)));
    let acquired = state.acquire_register(RegisterClass::General).unwrap();
    assert_eq!(
        acquired,
        Acquired {
            register: Register { class: RegisterClass::General, index: 1 },
            spilled_to: None
        }
    );
    assert_eq!(state.push(RegisterClass::General), Ok(Location::StackSlot(0)));
    assert_eq!(state.release(general(1)), Ok(()));
    assert_eq!(state.release(general(1)), Err(StateError::NotHeld));
    assert_eq!(state.push(RegisterClass::General), Ok(general(1)));
}

#[test]
fn acquiring_under_pressure_spills_the_oldest_value() {
    let mut state = MachineState::new(2, 0);
    state.push_immediate(1);
    assert_eq!(state.push(RegisterClass::General), Ok(general(0)));
    assert_eq!(state.push(RegisterClass::General), Ok(general(1)));
    assert_eq!(state.push(RegisterClass::General), Ok(Location::StackSlot(0)));
    let acquired = state.acquire_register(RegisterClass::General).unwrap();
    assert_eq!(acquired.register, Register { class: RegisterClass::General, index: 0 });
    assert_eq!(acquired.spilled_to, Some(8));
    assert_eq!(state.stack_offset(), 16);
    assert_eq!(state.peek(0), Ok(Location::StackSlot(0)));
    assert_eq!(state.peek(1), Ok(general(1)));
    assert_eq!(state.peek(2), Ok(Location::StackSlot(8)));
    assert_eq!(state.peek(3), Ok(Location::Immediate(1)));
    let second = state.acquire_register(RegisterClass::General).unwrap();
    assert_eq!(second.register, Register { class: RegisterClass::General, index: 1 });
    assert_eq!(second.spilled_to, Some(16));
    assert_eq!(
        state.acquire_register(RegisterClass::General),
        Err(StateError::RegisterUnderflow)
    );
    assert_eq!(state.release(general(0)), Ok(()));
    assert_eq!(state.release(general(1)), Ok(()));
    assert_eq!(state.pop(), Ok(Location::StackSlot(0)));
    assert_eq!(state.pop(), Ok(Location::StackSlot(16)));
    assert_eq!(state.pop(), Ok(Location::StackSlot(8)));
    assert_eq!(state.stack_offset(), 8);
}

#[test]
fn no_register_without_a_register_file() {
    let mut state = MachineState::new(1, 0);
    assert_eq!(state.acquire_register(RegisterClass::Float), Err(StateError::RegisterUnderflow));
    assert_eq!(state.push(RegisterClass::Float), Ok(Location::StackSlot(0)));
    assert_eq!(state.acquire_register(RegisterClass::Float), Err(StateError::RegisterUnderflow));
    assert_eq!(state.add_local(RegisterClass::General), Ok(general(0)));
    assert_eq!(
        state.acquire_register(RegisterClass::General),
        Err(StateError::RegisterUnderflow)
    );
}

#[test]
fn only_acquired_registers_are_released() {
    let mut state = MachineState::new(2, 2);
    assert_eq!(state.push(RegisterClass::General), Ok(general(0)));
    assert_eq!(state.release(general(0)), Err(StateError::NotHeld));
    assert_eq!(state.release(general(1)), Err(StateError::NotHeld));
    assert_eq!(state.release(Location::StackSlot(0)), Err(StateError::NotHeld));
    assert_eq!(state.release(Location::Immediate(3)), Err(StateError::NotHeld));
    assert_eq!(state.peek(0), Ok(general(0)));
    let acquired = state.acquire_register(RegisterClass::Float).unwrap();
    assert_eq!(state.release(Location::Register(acquired.register)), Ok(()));
}

#[test]
fn truncating_pops_down_to_a_depth() {
    let mut state = MachineState::new(1, 0);
    for _ in 0..4 {
        state.push(RegisterClass::General).unwrap();
    }
    assert_eq!(state.stack_offset(), 24);
    assert_eq!(state.truncate(7), 0);
    assert_eq!(state.depth(), 4);
    assert_eq!(state.truncate(2), 16);
    assert_eq!(state.depth(), 2);
    assert_eq!(state.stack_offset(), 8);
    assert_eq!(state.peek(0), Ok(Location::StackSlot(0)));
    assert_eq!(state.truncate(0), 8);
    assert_eq!(state.depth(), 0);
    assert_eq!(state.stack_offset(), 0);
    assert_eq!(state.push(RegisterClass::General), Ok(general(0)));
}

#[test]
fn a_slot_below_the_last_leaves_a_gap() {
    let mut state = MachineState::new(1, 0);
    assert_eq!(state.push(RegisterClass::General), Ok(general(0)));
    assert_eq!(state.push(RegisterClass::General), Ok(Location::StackSlot(0)));
    let acquired = state.acquire_register(RegisterClass::General).unwrap();
    assert_eq!(acquired.spilled_to, Some(8));
    assert_eq!(state.pop(), Ok(Location::StackSlot(0)));
    assert_eq!(state.stack_offset(), 16);
    assert_eq!(state.push(RegisterClass::General), Ok(Location::StackSlot(16)));
    assert_eq!(state.pop(), Ok(Location::StackSlot(16)));
    assert_eq!(state.pop(), Ok(Location::StackSlot(8)));
    assert_eq!(state.stack_offset(), 8);
}
