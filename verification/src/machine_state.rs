//! Where the values of the operand stack are while one function is
//! compiled: in a register, in a slot of the frame, or nowhere because the
//! value is a constant. The state keeps the simulated operand stack, the
//! locals, the registers in use and the extent of the frame.

use vstd::prelude::*;

verus! {

/// The size in bytes of one slot of the frame.
pub const SLOT_BYTES: u32 = 8;

/// The two register files.
#[derive(Clone, Copy, Debug, PartialEq, Eq, Structural)]
pub enum RegisterClass {
    /// Integers and addresses.
    General,
    /// Floating-point and vector values.
    Float,
}

/// A register that values may be allocated to: its file and its number
/// among the allocatable registers of that file.
#[derive(Clone, Copy, Debug, PartialEq, Eq, Structural)]
pub struct Register {
    pub class: RegisterClass,
    pub index: u8,
}

/// Where a value is.
#[derive(Clone, Copy, Debug, PartialEq, Eq, Structural)]
pub enum Location {
    /// In a register.
    Register(Register),
    /// In the slot of the frame that starts this many bytes from the frame's
    /// base.
    StackSlot(u32),
    /// Nowhere: the value is this constant.
    Immediate(u64),
}

/// Why an operation on the state was not done. Each is a fault of the
/// caller or of the code that it was given, not of the input program.
#[derive(Clone, Copy, Debug, PartialEq, Eq, Structural)]
pub enum StateError {
    /// The operand stack holds fewer values than were asked for.
    StackUnderflow,
    /// No register of the file is free and none can be taken from the
    /// operand stack.
    RegisterUnderflow,
    /// The frame cannot grow by another slot.
    FrameTooLarge,
    /// The location is not a register that was acquired and not released
    /// yet.
    NotHeld,
    /// There is no local with this number.
    NoSuchLocal,
}

/// A register handed out by `acquire_register`. Where the register held a
/// value of the operand stack, that value now belongs in the slot
/// `spilled_to`, and the caller has to store the register there before it
/// uses the register.
#[derive(Clone, Copy, Debug, PartialEq, Eq, Structural)]
pub struct Acquired {
    pub register: Register,
    pub spilled_to: Option<u32>,
}

/// The state as a value: which registers of each file are in use, the
/// operand stack from its bottom to its top, the locals, the registers that
/// were acquired and not released yet, and the number of bytes of the frame
/// that slots take.
pub ghost struct MachineView {
    pub general: Seq<bool>,
    pub float: Seq<bool>,
    pub stack: Seq<Location>,
    pub locals: Seq<Location>,
    pub held: Seq<Register>,
    pub stack_offset: nat,
}

/// Whether two locations are one and the same place. A constant is no
/// place.
pub open spec fn clash(a: Location, b: Location) -> bool {
    a == b && !(a is Immediate)
}

/// Whether `index` is the first position that is not in use.
pub open spec fn is_first_free(used: Seq<bool>, index: int) -> bool {
    &&& 0 <= index < used.len()
    &&& !used[index]
    &&& forall|k: int| 0 <= k < index ==> used[k]
}

/// Whether every position is in use.
pub open spec fn all_used(used: Seq<bool>) -> bool {
    forall|k: int| 0 <= k < used.len() ==> used[k]
}

/// Whether a location is a register of the given file.
pub open spec fn in_register_of(location: Location, class: RegisterClass) -> bool {
    match location {
        Location::Register(register) => register.class == class,
        _ => false,
    }
}

/// Whether `index` is the position of the value that was pushed first among
/// those of the stack that are in a register of the given file.
pub open spec fn is_oldest_in_register(
    stack: Seq<Location>,
    class: RegisterClass,
    index: int,
) -> bool {
    &&& 0 <= index < stack.len()
    &&& in_register_of(stack[index], class)
    &&& forall|k: int| 0 <= k < index ==> !in_register_of(stack[k], class)
}

/// Whether no value of the stack is in a register of the given file.
pub open spec fn none_in_register(stack: Seq<Location>, class: RegisterClass) -> bool {
    forall|k: int| 0 <= k < stack.len() ==> !in_register_of(stack[k], class)
}

impl MachineView {
    /// Which registers of a file are in use.
    pub open spec fn used(self, class: RegisterClass) -> Seq<bool> {
        match class {
            RegisterClass::General => self.general,
            RegisterClass::Float => self.float,
        }
    }

    /// Whether a register is in use.
    pub open spec fn is_used(self, register: Register) -> bool {
        register.index < self.used(register.class).len() && self.used(
            register.class,
        )[register.index as int]
    }

    /// The places of all values that are alive: the locals, then the
    /// operand stack.
    pub open spec fn live(self) -> Seq<Location> {
        self.locals + self.stack
    }

    /// Whether a location can hold a value in this state: a register that is
    /// in use, a slot within the frame, or a constant.
    pub open spec fn holds(self, location: Location) -> bool {
        match location {
            Location::Register(register) => self.is_used(register),
            Location::StackSlot(offset) => offset % 8 == 0 && offset + 8 <= self.stack_offset,
            Location::Immediate(_) => true,
        }
    }

    /// Whether a location is the place of no value and of no acquired
    /// register.
    pub open spec fn is_fresh(self, location: Location) -> bool {
        &&& forall|i: int| 0 <= i < self.live().len() ==> #[trigger] self.live()[i] != location
        &&& forall|i: int|
            0 <= i < self.held.len() ==> Location::Register(#[trigger] self.held[i]) != location
    }

    /// The invariant of the state. Every value that is alive has a place
    /// that can hold it; no two of them have the same register or the same
    /// slot; and an acquired register is in use, is acquired once, and is
    /// the place of no value.
    pub open spec fn wf(self) -> bool {
        &&& self.general.len() <= 256
        &&& self.float.len() <= 256
        &&& self.stack_offset % 8 == 0
        &&& self.stack_offset <= u32::MAX
        &&& forall|i: int| 0 <= i < self.live().len() ==> self.holds(#[trigger] self.live()[i])
        &&& forall|i: int| 0 <= i < self.held.len() ==> self.is_used(#[trigger] self.held[i])
        &&& forall|i: int, j: int|
            0 <= i < j < self.live().len() ==> !clash(
                #[trigger] self.live()[i],
                #[trigger] self.live()[j],
            )
        &&& forall|i: int, j: int|
            0 <= i < j < self.held.len() ==> #[trigger] self.held[i] != #[trigger] self.held[j]
        &&& forall|i: int, j: int|
            0 <= i < self.live().len() && 0 <= j < self.held.len() ==> #[trigger] self.live()[i]
                != Location::Register(#[trigger] self.held[j])
    }

    /// The state with a register marked as in use or as free.
    pub open spec fn with_used(self, register: Register, used: bool) -> MachineView {
        match register.class {
            RegisterClass::General => MachineView {
                general: self.general.update(register.index as int, used),
                ..self
            },
            RegisterClass::Float => MachineView {
                float: self.float.update(register.index as int, used),
                ..self
            },
        }
    }

    /// The state after a place was given up: a register is free again, and
    /// the frame shrinks by a slot where the slot was its last.
    pub open spec fn with_released(self, location: Location) -> MachineView {
        match location {
            Location::Register(register) => self.with_used(register, false),
            Location::StackSlot(offset) => if offset + 8 == self.stack_offset {
                MachineView { stack_offset: offset as nat, ..self }
            } else {
                self
            },
            Location::Immediate(_) => self,
        }
    }

    /// The state after a new place was taken for a value of the given file:
    /// the first free register of the file or, where none is free, a new
    /// slot at the end of the frame.
    pub open spec fn with_allocated(self, location: Location) -> MachineView {
        match location {
            Location::Register(register) => self.with_used(register, true),
            Location::StackSlot(offset) => MachineView {
                stack_offset: self.stack_offset + 8,
                ..self
            },
            Location::Immediate(_) => self,
        }
    }

    /// Whether `location` is the place that a new value of the given file
    /// gets: the first free register of the file or, where none is free, the
    /// slot at the end of the frame.
    pub open spec fn allocates(self, class: RegisterClass, location: Location) -> bool {
        match location {
            Location::Register(register) => register.class == class && is_first_free(
                self.used(class),
                register.index as int,
            ),
            Location::StackSlot(offset) => all_used(self.used(class)) && offset
                == self.stack_offset && self.stack_offset + 8 <= u32::MAX,
            Location::Immediate(_) => false,
        }
    }

    /// The state after the top of the operand stack was popped and its
    /// place given up.
    pub open spec fn popped(self) -> MachineView
        recommends
            self.stack.len() > 0,
    {
        (MachineView { stack: self.stack.drop_last(), ..self }).with_released(self.stack.last())
    }

    /// The state after values were popped until `depth` of them were left.
    pub open spec fn popped_to(self, depth: nat) -> MachineView
        decreases self.stack.len(),
    {
        if self.stack.len() <= depth {
            self
        } else {
            self.popped().popped_to(depth)
        }
    }

    /// The state after a value with a newly taken place was pushed onto the
    /// operand stack.
    pub open spec fn with_pushed(self, location: Location) -> MachineView {
        MachineView { stack: self.stack.push(location), ..self.with_allocated(location) }
    }

    /// The state after a local got a newly taken place.
    pub open spec fn with_local(self, location: Location) -> MachineView {
        MachineView { locals: self.locals.push(location), ..self.with_allocated(location) }
    }

    /// Whether handing out `acquired` for the given file leads from this
    /// state to `after`. Where a register of the file is free, the first
    /// such is handed out and nothing is spilled. Where none is free, the
    /// register of the value that was pushed first among those of the
    /// operand stack that are in a register of the file is handed out, and
    /// that value gets the slot at the end of the frame instead.
    pub open spec fn acquires(
        self,
        class: RegisterClass,
        acquired: Acquired,
        after: MachineView,
    ) -> bool {
        &&& acquired.register.class == class
        &&& match acquired.spilled_to {
            None => {
                &&& is_first_free(self.used(class), acquired.register.index as int)
                &&& after == (MachineView {
                    held: self.held.push(acquired.register),
                    ..self.with_used(acquired.register, true)
                })
            },
            Some(offset) => {
                &&& all_used(self.used(class))
                &&& offset == self.stack_offset
                &&& self.stack_offset + 8 <= u32::MAX
                &&& exists|index: int|
                    {
                        &&& is_oldest_in_register(self.stack, class, index)
                        &&& self.stack[index] == Location::Register(acquired.register)
                        &&& after == (MachineView {
                            stack: self.stack.update(index, Location::StackSlot(offset)),
                            held: self.held.push(acquired.register),
                            stack_offset: self.stack_offset + 8,
                            ..self
                        })
                    }
            },
        }
    }

    /// Why no register of the given file can be handed out, if none can: no
    /// register of the file is free, and either no value of the operand
    /// stack is in one, or the frame cannot grow by the slot for the value
    /// that would be spilled.
    pub open spec fn refuses_register(self, class: RegisterClass) -> Option<StateError> {
        if !all_used(self.used(class)) {
            None
        } else if none_in_register(self.stack, class) {
            Some(StateError::RegisterUnderflow)
        } else if self.stack_offset + 8 > u32::MAX {
            Some(StateError::FrameTooLarge)
        } else {
            None
        }
    }

    /// Whether giving back `location` leads from this state to `after`: the
    /// location is an acquired register, which is acquired no longer and
    /// free again.
    pub open spec fn releases(self, location: Location, after: MachineView) -> bool {
        exists|index: int|
            {
                &&& 0 <= index < self.held.len()
                &&& location == Location::Register(self.held[index])
                &&& after == (MachineView {
                    held: self.held.remove(index),
                    ..self.with_used(self.held[index], false)
                })
            }
    }

    /// Whether a location is an acquired register.
    pub open spec fn is_held(self, location: Location) -> bool {
        exists|index: int|
            0 <= index < self.held.len() && location == Location::Register(self.held[index])
    }

    /// Whether no new place can be had for a value of the given file: no
    /// register of it is free and the frame cannot grow.
    pub open spec fn is_full(self, class: RegisterClass) -> bool {
        all_used(self.used(class)) && self.stack_offset + 8 > u32::MAX
    }
}

/// The state of the machine while one function is compiled.
pub struct MachineState {
    general_used: Vec<bool>,
    float_used: Vec<bool>,
    stack: Vec<Location>,
    locals: Vec<Location>,
    held: Vec<Register>,
    stack_offset: u32,
}

impl View for MachineState {
    type V = MachineView;

    closed spec fn view(&self) -> MachineView {
        MachineView {
            general: self.general_used@,
            float: self.float_used@,
            stack: self.stack@,
            locals: self.locals@,
            held: self.held@,
            stack_offset: self.stack_offset as nat,
        }
    }
}

/// The first position that is not in use, if there is one.
fn first_free(used: &Vec<bool>) -> (found: Option<usize>)
    ensures
        match found {
            Some(index) => is_first_free(used@, index as int),
            None => all_used(used@),
        },
{
    let mut i: usize = 0;
    while i < used.len()
        invariant
            i <= used@.len(),
            forall|k: int| 0 <= k < i ==> used@[k],
        decreases used@.len() - i,
    {
        if !used[i] {
            return Some(i);
        }
        i += 1;
    }
    None
}

/// The position of the value that was pushed first among those of the stack
/// that are in a register of the given file, if there is one.
fn oldest_in_register(stack: &Vec<Location>, class: RegisterClass) -> (found: Option<usize>)
    ensures
        match found {
            Some(index) => is_oldest_in_register(stack@, class, index as int),
            None => none_in_register(stack@, class),
        },
{
    let mut i: usize = 0;
    while i < stack.len()
        invariant
            i <= stack@.len(),
            forall|k: int| 0 <= k < i ==> !in_register_of(stack@[k], class),
        decreases stack@.len() - i,
    {
        match stack[i] {
            Location::Register(register) => {
                if register.class == class {
                    return Some(i);
                }
            },
            _ => {},
        }
        i += 1;
    }
    None
}

/// The position of a register among the acquired ones, if it is one.
fn position_of(held: &Vec<Register>, register: Register) -> (found: Option<usize>)
    ensures
        match found {
            Some(index) => 0 <= index < held@.len() && held@[index as int] == register,
            None => forall|k: int| 0 <= k < held@.len() ==> held@[k] != register,
        },
{
    let mut i: usize = 0;
    while i < held.len()
        invariant
            i <= held@.len(),
            forall|k: int| 0 <= k < i ==> held@[k] != register,
        decreases held@.len() - i,
    {
        if held[i] == register {
            return Some(i);
        }
        i += 1;
    }
    None
}

/// A table of `count` registers, none in use.
fn all_free(count: u8) -> (used: Vec<bool>)
    ensures
        used@.len() == count,
        forall|k: int| 0 <= k < used@.len() ==> !used@[k],
{
    let mut used: Vec<bool> = Vec::new();
    let mut i: u8 = 0;
    while i < count
        invariant
            i <= count,
            used@.len() == i,
            forall|k: int| 0 <= k < used@.len() ==> !used@[k],
        decreases count - i,
    {
        used.push(false);
        i += 1;
    }
    used
}

impl MachineState {
    /// The state at the start of a function, for a machine with this many
    /// allocatable registers in each file: no value is alive, no register is
    /// in use, and the frame has no slot.
    pub fn new(general: u8, float: u8) -> (state: MachineState)
        ensures
            state@.wf(),
            state@.general.len() == general,
            state@.float.len() == float,
            all_free_registers(state@.general),
            all_free_registers(state@.float),
            state@.stack.len() == 0,
            state@.locals.len() == 0,
            state@.held.len() == 0,
            state@.stack_offset == 0,
    {
        MachineState {
            general_used: all_free(general),
            float_used: all_free(float),
            stack: Vec::new(),
            locals: Vec::new(),
            held: Vec::new(),
            stack_offset: 0,
        }
    }

    /// The number of values on the operand stack.
    pub fn depth(&self) -> (depth: usize)
        ensures
            depth == self@.stack.len(),
    {
        self.stack.len()
    }

    /// The number of bytes of the frame that slots take.
    pub fn stack_offset(&self) -> (offset: u32)
        ensures
            offset == self@.stack_offset,
    {
        self.stack_offset
    }

    /// The places of all values that are alive, the locals first and then
    /// the operand stack from its bottom: what an entry of the address map
    /// records.
    pub fn snapshot(&self) -> (places: Vec<Location>)
        ensures
            places@ == self@.live(),
    {
        let mut places: Vec<Location> = Vec::new();
        let mut i: usize = 0;
        while i < self.locals.len()
            invariant
                i <= self.locals@.len(),
                places@ == self.locals@.take(i as int),
            decreases self.locals@.len() - i,
        {
            places.push(self.locals[i]);
            assert(places@ =~= self.locals@.take(i as int + 1));
            i += 1;
        }
        assert(places@ =~= self.locals@);
        let mut j: usize = 0;
        while j < self.stack.len()
            invariant
                j <= self.stack@.len(),
                places@ == self.locals@ + self.stack@.take(j as int),
            decreases self.stack@.len() - j,
        {
            places.push(self.stack[j]);
            assert(places@ =~= self.locals@ + self.stack@.take(j as int + 1));
            j += 1;
        }
        assert(places@ =~= self.locals@ + self.stack@);
        places
    }

    /// Takes a new place for a value of the given file and marks it as
    /// taken; the value is not yet alive.
    fn allocate(&mut self, class: RegisterClass) -> (place: Result<Location, StateError>)
        requires
            old(self)@.wf(),
        ensures
            final(self)@.wf(),
            match place {
                Ok(location) => {
                    &&& old(self)@.allocates(class, location)
                    &&& final(self)@ == old(self)@.with_allocated(location)
                    &&& final(self)@.holds(location)
                    &&& final(self)@.is_fresh(location)
                },
                Err(error) => {
                    &&& error == StateError::FrameTooLarge
                    &&& old(self)@.is_full(class)
                    &&& final(self)@ == old(self)@
                },
            },
    {
        let ghost before = self@;
        let found = match class {
            RegisterClass::General => first_free(&self.general_used),
            RegisterClass::Float => first_free(&self.float_used),
        };
        match found {
            Some(index) => {
                let register = Register { class, index: index as u8 };
                match class {
                    RegisterClass::General => self.general_used.set(index, true),
                    RegisterClass::Float => self.float_used.set(index, true),
                }
                proof {
                    let after = self@;
                    assert(after == before.with_used(register, true));
                    assert(after.live() == before.live());
                    assert forall|i: int| 0 <= i < after.live().len() implies after.holds(
                        #[trigger] after.live()[i],
                    ) by {
                        assert(before.holds(before.live()[i]));
                    }
                    assert forall|i: int| 0 <= i < after.held.len() implies after.is_used(
                        #[trigger] after.held[i],
                    ) by {
                        assert(before.is_used(before.held[i]));
                    }
                    assert forall|i: int| 0 <= i < after.live().len() implies #[trigger] after.live()[i]
                        != Location::Register(register) by {
                        assert(before.holds(before.live()[i]));
                    }
                    assert forall|i: int| 0 <= i < after.held.len() implies Location::Register(
                        #[trigger] after.held[i],
                    ) != Location::Register(register) by {
                        assert(before.is_used(before.held[i]));
                    }
                }
                Ok(Location::Register(register))
            },
            None => {
                if self.stack_offset > u32::MAX - SLOT_BYTES {
                    Err(StateError::FrameTooLarge)
                } else {
                    let offset = self.stack_offset;
                    self.stack_offset = offset + SLOT_BYTES;
                    proof {
                        let after = self@;
                        assert(after.live() == before.live());
                        assert forall|i: int| 0 <= i < after.live().len() implies after.holds(
                            #[trigger] after.live()[i],
                        ) by {
                            assert(before.holds(before.live()[i]));
                        }
                        assert forall|i: int| 0 <= i < after.held.len() implies after.is_used(
                            #[trigger] after.held[i],
                        ) by {
                            assert(before.is_used(before.held[i]));
                        }
                        assert forall|i: int| 0 <= i < after.live().len() implies #[trigger] after.live()[i]
                            != Location::StackSlot(offset) by {
                            assert(before.holds(before.live()[i]));
                        }
                    }
                    Ok(Location::StackSlot(offset))
                }
            },
        }
    }

    /// Pushes a new value of the given file onto the operand stack and
    /// returns its place: the first free register of the file or, where
    /// none is free, a new slot at the end of the frame. It fails only
    /// where no register is free and the frame cannot grow.
    pub fn push(&mut self, class: RegisterClass) -> (place: Result<Location, StateError>)
        requires
            old(self)@.wf(),
        ensures
            final(self)@.wf(),
            match place {
                Ok(location) => {
                    &&& old(self)@.allocates(class, location)
                    &&& final(self)@ == old(self)@.with_pushed(location)
                },
                Err(error) => {
                    &&& error == StateError::FrameTooLarge
                    &&& old(self)@.is_full(class)
                    &&& final(self)@ == old(self)@
                },
            },
    {
        match self.allocate(class) {
            Ok(location) => {
                let ghost taken = self@;
                self.stack.push(location);
                proof {
                    let after = self@;
                    assert(after.live() =~= taken.live().push(location));
                    assert forall|i: int| 0 <= i < after.live().len() implies after.holds(
                        #[trigger] after.live()[i],
                    ) by {
                        if i < taken.live().len() {
                            assert(taken.holds(taken.live()[i]));
                        }
                    }
                    assert forall|i: int, j: int| 0 <= i < j < after.live().len() implies !clash(
                        #[trigger] after.live()[i],
                        #[trigger] after.live()[j],
                    ) by {
                        if j < taken.live().len() {
                            assert(!clash(taken.live()[i], taken.live()[j]));
                        } else {
                            assert(taken.live()[i] != location);
                        }
                    }
                    assert forall|i: int, j: int|
                        0 <= i < after.live().len() && 0 <= j < after.held.len() implies #[trigger] after.live()[i]
                        != Location::Register(#[trigger] after.held[j]) by {
                        if i < taken.live().len() {
                            assert(taken.live()[i] != Location::Register(taken.held[j]));
                        } else {
                            assert(Location::Register(taken.held[j]) != location);
                        }
                    }
                }
                Ok(location)
            },
            Err(error) => Err(error),
        }
    }

    /// Pushes a constant onto the operand stack. It takes no place.
    pub fn push_immediate(&mut self, value: u64)
        requires
            old(self)@.wf(),
        ensures
            final(self)@.wf(),
            final(self)@ == (MachineView {
                stack: old(self)@.stack.push(Location::Immediate(value)),
                ..old(self)@
            }),
    {
        let ghost before = self@;
        self.stack.push(Location::Immediate(value));
        proof {
            let after = self@;
            assert(after.live() =~= before.live().push(Location::Immediate(value)));
            assert forall|i: int| 0 <= i < after.live().len() implies after.holds(
                #[trigger] after.live()[i],
            ) by {
                if i < before.live().len() {
                    assert(before.holds(before.live()[i]));
                }
            }
            assert forall|i: int, j: int| 0 <= i < j < after.live().len() implies !clash(
                #[trigger] after.live()[i],
                #[trigger] after.live()[j],
            ) by {
                if j < before.live().len() {
                    assert(!clash(before.live()[i], before.live()[j]));
                }
            }
            assert forall|i: int, j: int|
                0 <= i < after.live().len() && 0 <= j < after.held.len() implies #[trigger] after.live()[i]
                != Location::Register(#[trigger] after.held[j]) by {
                if i < before.live().len() {
                    assert(before.live()[i] != Location::Register(before.held[j]));
                }
            }
        }
    }

    /// Gives a new local of the given file its place, as `push` gives a
    /// value one, and returns it. The place stays the local's.
    pub fn add_local(&mut self, class: RegisterClass) -> (place: Result<Location, StateError>)
        requires
            old(self)@.wf(),
        ensures
            final(self)@.wf(),
            match place {
                Ok(location) => {
                    &&& old(self)@.allocates(class, location)
                    &&& final(self)@ == old(self)@.with_local(location)
                },
                Err(error) => {
                    &&& error == StateError::FrameTooLarge
                    &&& old(self)@.is_full(class)
                    &&& final(self)@ == old(self)@
                },
            },
    {
        match self.allocate(class) {
            Ok(location) => {
                let ghost taken = self@;
                self.locals.push(location);
                proof {
                    let after = self@;
                    let locals = taken.locals.len() as int;
                    assert forall|i: int| 0 <= i < after.live().len() implies (if i < locals {
                        #[trigger] after.live()[i] == taken.live()[i]
                    } else if i == locals {
                        after.live()[i] == location
                    } else {
                        after.live()[i] == taken.live()[i - 1]
                    }) by {}
                    assert forall|i: int| 0 <= i < after.live().len() implies after.holds(
                        #[trigger] after.live()[i],
                    ) by {
                        if i < locals {
                            assert(taken.holds(taken.live()[i]));
                        } else if i > locals {
                            assert(taken.holds(taken.live()[i - 1]));
                        }
                    }
                    assert forall|i: int, j: int| 0 <= i < j < after.live().len() implies !clash(
                        #[trigger] after.live()[i],
                        #[trigger] after.live()[j],
                    ) by {
                        let a = if i < locals {
                            i
                        } else {
                            i - 1
                        };
                        let b = if j < locals {
                            j
                        } else {
                            j - 1
                        };
                        if i == locals {
                            assert(taken.live()[b] != location);
                        } else if j == locals {
                            assert(taken.live()[a] != location);
                        } else {
                            assert(!clash(taken.live()[a], taken.live()[b]));
                        }
                    }
                    assert forall|i: int, j: int|
                        0 <= i < after.live().len() && 0 <= j < after.held.len() implies #[trigger] after.live()[i]
                        != Location::Register(#[trigger] after.held[j]) by {
                        if i < locals {
                            assert(taken.live()[i] != Location::Register(taken.held[j]));
                        } else if i == locals {
                            assert(Location::Register(taken.held[j]) != location);
                        } else {
                            assert(taken.live()[i - 1] != Location::Register(taken.held[j]));
                        }
                    }
                }
                Ok(location)
            },
            Err(error) => Err(error),
        }
    }

    /// The place of the local with the given number.
    pub fn local(&self, index: usize) -> (place: Result<Location, StateError>)
        ensures
            place == if index < self@.locals.len() {
                Ok::<Location, StateError>(self@.locals[index as int])
            } else {
                Err::<Location, StateError>(StateError::NoSuchLocal)
            },
    {
        if index < self.locals.len() {
            Ok(self.locals[index])
        } else {
            Err(StateError::NoSuchLocal)
        }
    }

    /// The place of the value that lies `depth` values below the top of the
    /// operand stack; the top itself is at depth zero.
    pub fn peek(&self, depth: usize) -> (place: Result<Location, StateError>)
        ensures
            place == if depth < self@.stack.len() {
                Ok::<Location, StateError>(self@.stack[self@.stack.len() - 1 - depth])
            } else {
                Err::<Location, StateError>(StateError::StackUnderflow)
            },
    {
        if depth < self.stack.len() {
            Ok(self.stack[self.stack.len() - 1 - depth])
        } else {
            Err(StateError::StackUnderflow)
        }
    }

    /// Pops the top of the operand stack and returns the place that it had.
    /// The place is given up: its register is free again, and the frame
    /// shrinks by its slot where that was the last. It fails where the stack
    /// is empty.
    pub fn pop(&mut self) -> (place: Result<Location, StateError>)
        requires
            old(self)@.wf(),
        ensures
            final(self)@.wf(),
            match place {
                Ok(location) => {
                    &&& old(self)@.stack.len() > 0
                    &&& location == old(self)@.stack.last()
                    &&& final(self)@ == old(self)@.popped()
                },
                Err(error) => {
                    &&& error == StateError::StackUnderflow
                    &&& old(self)@.stack.len() == 0
                    &&& final(self)@ == old(self)@
                },
            },
    {
        let ghost before = self@;
        match self.stack.pop() {
            None => Err(StateError::StackUnderflow),
            Some(location) => {
                let ghost popped = self@;
                proof {
                    assert(popped.live() =~= before.live().drop_last());
                    assert(before.live().last() == location);
                    assert forall|i: int| 0 <= i < popped.live().len() implies #[trigger] popped.live()[i]
                        == before.live()[i] by {}
                }
                match location {
                    Location::Register(register) => {
                        proof {
                            assert(before.holds(before.live()[before.live().len() - 1]));
                        }
                        match register.class {
                            RegisterClass::General => self.general_used.set(
                                register.index as usize,
                                false,
                            ),
                            RegisterClass::Float => self.float_used.set(
                                register.index as usize,
                                false,
                            ),
                        }
                    },
                    Location::StackSlot(offset) => {
                        proof {
                            assert(before.holds(before.live()[before.live().len() - 1]));
                        }
                        if offset == self.stack_offset - SLOT_BYTES {
                            self.stack_offset = offset;
                        }
                    },
                    Location::Immediate(_) => {},
                }
                proof {
                    let after = self@;
                    let top = before.live().len() - 1;
                    assert(after.live() == popped.live());
                    assert forall|i: int| 0 <= i < after.live().len() implies after.holds(
                        #[trigger] after.live()[i],
                    ) by {
                        assert(before.holds(before.live()[i]));
                        assert(!clash(before.live()[i], before.live()[top]));
                    }
                    assert forall|i: int| 0 <= i < after.held.len() implies after.is_used(
                        #[trigger] after.held[i],
                    ) by {
                        assert(before.is_used(before.held[i]));
                        assert(before.live()[top] != Location::Register(before.held[i]));
                    }
                    assert forall|i: int, j: int| 0 <= i < j < after.live().len() implies !clash(
                        #[trigger] after.live()[i],
                        #[trigger] after.live()[j],
                    ) by {
                        assert(!clash(before.live()[i], before.live()[j]));
                    }
                    assert forall|i: int, j: int|
                        0 <= i < after.live().len() && 0 <= j < after.held.len() implies #[trigger] after.live()[i]
                        != Location::Register(#[trigger] after.held[j]) by {
                        assert(before.live()[i] != Location::Register(before.held[j]));
                    }
                }
                Ok(location)
            },
        }
    }

    /// Hands out a register of the given file for the caller's own use,
    /// until it is released.
    ///
    /// Where a register of the file is free, the first such is handed out.
    /// Where none is free, the register of the value that was pushed first
    /// among those of the operand stack that are in a register of the file
    /// is handed out, and that value gets a new slot at the end of the
    /// frame instead: it is spilled. It fails where neither can be done, or
    /// where the frame cannot grow by the slot.
    pub fn acquire_register(&mut self, class: RegisterClass) -> (handed: Result<
        Acquired,
        StateError,
    >)
        requires
            old(self)@.wf(),
        ensures
            final(self)@.wf(),
            handed.is_ok() <==> old(self)@.refuses_register(class).is_none(),
            match handed {
                Ok(acquired) => old(self)@.acquires(class, acquired, final(self)@),
                Err(error) => {
                    &&& old(self)@.refuses_register(class) == Some(error)
                    &&& final(self)@ == old(self)@
                },
            },
    {
        let ghost before = self@;
        let found = match class {
            RegisterClass::General => first_free(&self.general_used),
            RegisterClass::Float => first_free(&self.float_used),
        };
        match found {
            Some(index) => {
                let register = Register { class, index: index as u8 };
                match class {
                    RegisterClass::General => self.general_used.set(index, true),
                    RegisterClass::Float => self.float_used.set(index, true),
                }
                self.held.push(register);
                proof {
                    let after = self@;
                    assert(after.live() == before.live());
                    assert forall|i: int| 0 <= i < after.live().len() implies after.holds(
                        #[trigger] after.live()[i],
                    ) by {
                        assert(before.holds(before.live()[i]));
                    }
                    assert forall|i: int| 0 <= i < after.held.len() implies after.is_used(
                        #[trigger] after.held[i],
                    ) by {
                        if i < before.held.len() {
                            assert(before.is_used(before.held[i]));
                        }
                    }
                    assert forall|i: int, j: int| 0 <= i < j < after.held.len() implies #[trigger] after.held[i]
                        != #[trigger] after.held[j] by {
                        assert(before.is_used(before.held[i]));
                    }
                    assert forall|i: int, j: int|
                        0 <= i < after.live().len() && 0 <= j < after.held.len() implies #[trigger] after.live()[i]
                        != Location::Register(#[trigger] after.held[j]) by {
                        assert(before.holds(before.live()[i]));
                        if j < before.held.len() {
                            assert(before.live()[i] != Location::Register(before.held[j]));
                        }
                    }
                }
                Ok(Acquired { register, spilled_to: None })
            },
            None => {
                match oldest_in_register(&self.stack, class) {
                    None => Err(StateError::RegisterUnderflow),
                    Some(index) => {
                        if self.stack_offset > u32::MAX - SLOT_BYTES {
                            return Err(StateError::FrameTooLarge);
                        }
                        let register = match self.stack[index] {
                            Location::Register(register) => register,
                            _ => Register { class, index: 0 },
                        };
                        let offset = self.stack_offset;
                        self.stack.set(index, Location::StackSlot(offset));
                        self.stack_offset = offset + SLOT_BYTES;
                        self.held.push(register);
                        proof {
                            let after = self@;
                            let at = before.locals.len() + index;
                            assert(before.live()[at] == Location::Register(register));
                            assert(after.live() =~= before.live().update(
                                at,
                                Location::StackSlot(offset),
                            ));
                            assert(before.holds(before.live()[at]));
                            assert forall|i: int| 0 <= i < after.live().len() implies after.holds(
                                #[trigger] after.live()[i],
                            ) by {
                                assert(before.holds(before.live()[i]));
                            }
                            assert forall|i: int| 0 <= i < after.held.len() implies after.is_used(
                                #[trigger] after.held[i],
                            ) by {
                                if i < before.held.len() {
                                    assert(before.is_used(before.held[i]));
                                }
                            }
                            assert forall|i: int, j: int|
                                0 <= i < j < after.live().len() implies !clash(
                                #[trigger] after.live()[i],
                                #[trigger] after.live()[j],
                            ) by {
                                assert(!clash(before.live()[i], before.live()[j]));
                                assert(before.holds(before.live()[i]));
                                assert(before.holds(before.live()[j]));
                            }
                            assert forall|i: int, j: int|
                                0 <= i < j < after.held.len() implies #[trigger] after.held[i]
                                != #[trigger] after.held[j] by {
                                if j < before.held.len() {
                                    assert(before.held[i] != before.held[j]);
                                } else {
                                    assert(before.live()[at] != Location::Register(
                                        before.held[i],
                                    ));
                                }
                            }
                            assert forall|i: int, j: int|
                                0 <= i < after.live().len() && 0 <= j < after.held.len() implies #[trigger] after.live()[i]
                                != Location::Register(#[trigger] after.held[j]) by {
                                if j < before.held.len() {
                                    assert(before.live()[i] != Location::Register(
                                        before.held[j],
                                    ));
                                } else if i < at {
                                    assert(!clash(before.live()[i], before.live()[at]));
                                } else if i > at {
                                    assert(!clash(before.live()[at], before.live()[i]));
                                }
                            }
                            assert(is_oldest_in_register(before.stack, class, index as int));
                        }
                        Ok(Acquired { register, spilled_to: Some(offset) })
                    },
                }
            },
        }
    }

    /// Gives back a register that `acquire_register` handed out: it is free
    /// again. It fails, and changes nothing, where the location is not such
    /// a register.
    pub fn release(&mut self, location: Location) -> (done: Result<(), StateError>)
        requires
            old(self)@.wf(),
        ensures
            final(self)@.wf(),
            done.is_ok() <==> old(self)@.is_held(location),
            match done {
                Ok(_) => old(self)@.releases(location, final(self)@),
                Err(error) => {
                    &&& error == StateError::NotHeld
                    &&& !old(self)@.is_held(location)
                    &&& final(self)@ == old(self)@
                },
            },
    {
        let ghost before = self@;
        let register = match location {
            Location::Register(register) => register,
            _ => {
                return Err(StateError::NotHeld);
            },
        };
        match position_of(&self.held, register) {
            None => Err(StateError::NotHeld),
            Some(index) => {
                proof {
                    assert(before.is_used(before.held[index as int]));
                }
                self.held.remove(index);
                match register.class {
                    RegisterClass::General => self.general_used.set(
                        register.index as usize,
                        false,
                    ),
                    RegisterClass::Float => self.float_used.set(register.index as usize, false),
                }
                proof {
                    let after = self@;
                    let gone = index as int;
                    assert(after.live() == before.live());
                    assert forall|i: int| 0 <= i < after.held.len() implies #[trigger] after.held[i]
                        == before.held[if i < gone {
                        i
                    } else {
                        i + 1
                    }] by {}
                    assert forall|i: int| 0 <= i < after.live().len() implies after.holds(
                        #[trigger] after.live()[i],
                    ) by {
                        assert(before.holds(before.live()[i]));
                        assert(before.live()[i] != Location::Register(before.held[gone]));
                    }
                    assert forall|i: int| 0 <= i < after.held.len() implies after.is_used(
                        #[trigger] after.held[i],
                    ) by {
                        let k = if i < gone {
                            i
                        } else {
                            i + 1
                        };
                        assert(before.is_used(before.held[k]));
                        if k < gone {
                            assert(before.held[k] != before.held[gone]);
                        } else {
                            assert(before.held[gone] != before.held[k]);
                        }
                    }
                    assert forall|i: int, j: int| 0 <= i < j < after.held.len() implies #[trigger] after.held[i]
                        != #[trigger] after.held[j] by {
                        let a = if i < gone {
                            i
                        } else {
                            i + 1
                        };
                        let b = if j < gone {
                            j
                        } else {
                            j + 1
                        };
                        assert(before.held[a] != before.held[b]);
                    }
                    assert forall|i: int, j: int|
                        0 <= i < after.live().len() && 0 <= j < after.held.len() implies #[trigger] after.live()[i]
                        != Location::Register(#[trigger] after.held[j]) by {
                        let b = if j < gone {
                            j
                        } else {
                            j + 1
                        };
                        assert(before.live()[i] != Location::Register(before.held[b]));
                    }
                }
                Ok(())
            },
        }
    }

    /// Pops values until `depth` of them are left on the operand stack, and
    /// returns the number of bytes by which the frame shrank: the amount by
    /// which the stack pointer is to be adjusted. With `depth` or fewer
    /// values on the stack nothing changes.
    pub fn truncate(&mut self, depth: usize) -> (adjustment: u32)
        requires
            old(self)@.wf(),
        ensures
            final(self)@.wf(),
            final(self)@ == old(self)@.popped_to(depth as nat),
            final(self)@.stack.len() <= old(self)@.stack.len(),
            old(self)@.stack.len() >= depth ==> final(self)@.stack == old(self)@.stack.take(
                depth as int,
            ),
            final(self)@.locals == old(self)@.locals,
            final(self)@.held == old(self)@.held,
            adjustment == old(self)@.stack_offset - final(self)@.stack_offset,
    {
        let start = self.stack_offset;
        while self.stack.len() > depth
            invariant
                self@.wf(),
                self@.popped_to(depth as nat) == old(self)@.popped_to(depth as nat),
                self@.stack.len() <= old(self)@.stack.len(),
                old(self)@.stack.len() >= depth ==> self@.stack.len() >= depth && self@.stack
                    == old(self)@.stack.take(self@.stack.len() as int),
                self@.locals == old(self)@.locals,
                self@.held == old(self)@.held,
                self@.stack_offset <= old(self)@.stack_offset,
                start == old(self)@.stack_offset,
            decreases self@.stack.len(),
        {
            let ghost before = self@;
            let _ = self.pop();
            proof {
                assert(self@.stack =~= old(self)@.stack.take(self@.stack.len() as int));
            }
        }
        proof {
            assert(old(self)@.stack.len() >= depth ==> self@.stack =~= old(self)@.stack.take(
                depth as int,
            ));
        }
        start - self.stack_offset
    }
}

/// Whether no position is in use.
pub open spec fn all_free_registers(used: Seq<bool>) -> bool {
    forall|k: int| 0 <= k < used.len() ==> !used[k]
}

/// The least position that is not in use, among the first `upto`, where
/// there is one.
proof fn least_free(used: Seq<bool>, upto: int) -> (index: int)
    requires
        0 <= upto <= used.len(),
        exists|k: int| 0 <= k < upto && !used[k],
    ensures
        is_first_free(used, index),
        index < upto,
    decreases upto,
{
    if exists|k: int| 0 <= k < upto - 1 && !used[k] {
        least_free(used, upto - 1)
    } else {
        upto - 1
    }
}

/// No two values that are alive at the same instant are in the same
/// register, and no two are in slots that share a byte of the frame.
pub proof fn live_places_are_disjoint(state: MachineView, first: int, second: int)
    requires
        state.wf(),
        0 <= first < state.live().len(),
        0 <= second < state.live().len(),
        first != second,
    ensures
        state.live()[first] is Register ==> state.live()[first] != state.live()[second],
        forall|a: u32, b: u32|
            state.live()[first] == Location::StackSlot(a) && state.live()[second]
                == Location::StackSlot(b) ==> a + SLOT_BYTES <= b || b + SLOT_BYTES <= a,
{
    if first < second {
        assert(!clash(state.live()[first], state.live()[second]));
    } else {
        assert(!clash(state.live()[second], state.live()[first]));
    }
    assert(state.holds(state.live()[first]));
    assert(state.holds(state.live()[second]));
}

/// A register that was acquired is the place of no value that is alive, and
/// is acquired only once.
pub proof fn acquired_registers_are_private(state: MachineView, held: int, other: int, live: int)
    requires
        state.wf(),
        0 <= held < state.held.len(),
        0 <= other < state.held.len(),
        held != other,
        0 <= live < state.live().len(),
    ensures
        state.live()[live] != Location::Register(state.held[held]),
        state.held[held] != state.held[other],
{
    if held < other {
        assert(state.held[held] != state.held[other]);
    } else {
        assert(state.held[other] != state.held[held]);
    }
}

/// However many values are alive, a new one gets a place as long as the
/// frame can grow by a slot: a free register, or else a slot of its own at
/// the end of the frame. The place is that of no other value.
pub proof fn a_place_is_always_found(state: MachineView, class: RegisterClass) -> (place: Location)
    requires
        state.wf(),
        state.stack_offset + 8 <= u32::MAX,
    ensures
        state.allocates(class, place),
        all_used(state.used(class)) ==> place == Location::StackSlot(state.stack_offset as u32),
        forall|i: int| 0 <= i < state.live().len() ==> state.live()[i] != place,
{
    let used = state.used(class);
    if all_used(used) {
        let place = Location::StackSlot(state.stack_offset as u32);
        assert forall|i: int| 0 <= i < state.live().len() implies state.live()[i] != place by {
            assert(state.holds(state.live()[i]));
        }
        place
    } else {
        let index = least_free(used, used.len() as int);
        let place = Location::Register(Register { class, index: index as u8 });
        assert forall|i: int| 0 <= i < state.live().len() implies state.live()[i] != place by {
            assert(state.holds(state.live()[i]));
        }
        place
    }
}

/// With no register of a file free, a register can still be had as long as
/// some value of the operand stack is in one and the frame can grow by a
/// slot: the oldest such value moves to the frame.
pub proof fn a_register_is_found_by_spilling(state: MachineView, class: RegisterClass) -> (index:
    int)
    requires
        state.wf(),
        !none_in_register(state.stack, class),
    ensures
        is_oldest_in_register(state.stack, class, index),
{
    oldest_among(state.stack, class, state.stack.len() as int)
}

/// The position of the oldest value in a register of the file, among the
/// first `upto` of the stack, where there is one.
proof fn oldest_among(stack: Seq<Location>, class: RegisterClass, upto: int) -> (index: int)
    requires
        0 <= upto <= stack.len(),
        exists|k: int| 0 <= k < upto && in_register_of(stack[k], class),
    ensures
        is_oldest_in_register(stack, class, index),
        index < upto,
    decreases upto,
{
    if exists|k: int| 0 <= k < upto - 1 && in_register_of(stack[k], class) {
        oldest_among(stack, class, upto - 1)
    } else {
        upto - 1
    }
}

} // verus!
