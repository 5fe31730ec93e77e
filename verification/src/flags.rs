//! The lifecycle flag word of a socket.
//!
//! Four independent bits steer the two pumps. An enable bit says that a pump
//! may keep running; a running bit says that a pump is inside its loop. A
//! pump takes its running bit when it enters its loop, and only if no other
//! holds it; it claims the bit anew before every further iteration and gives
//! it up when it leaves the loop. Shutting down clears both enable bits and
//! then waits until both running bits are seen clear.

use vstd::prelude::*;

verus! {

/// Set while the inbound pump is permitted to keep running.
pub const READ: usize = 0b0001;

/// Set while an inbound pump is inside its loop.
pub const READING: usize = 0b0010;

/// Set while the outbound pump is permitted to keep running.
pub const WRITE: usize = 0b0100;

/// Set while an outbound pump is inside its loop.
pub const WRITING: usize = 0b1000;

/// The state of one direction of a socket, as its two bits spell it.
#[derive(Clone, Copy, Debug, PartialEq, Eq, Structural)]
pub enum PumpState {
    /// Not enabled, no pump in its loop.
    Idle,
    /// Enabled, no pump in its loop.
    Enabled,
    /// Enabled, a pump in its loop.
    Running,
    /// No longer enabled, a pump still in its loop.
    ShuttingDown,
}

/// The state that an enable bit and a running bit spell.
pub open spec fn pump_state(enabled: bool, running: bool) -> PumpState {
    if enabled {
        if running {
            PumpState::Running
        } else {
            PumpState::Enabled
        }
    } else {
        if running {
            PumpState::ShuttingDown
        } else {
            PumpState::Idle
        }
    }
}

/// How the entry of a pump into its loop went.
#[derive(Clone, Copy, Debug, PartialEq, Eq, Structural)]
pub enum Entry {
    /// The direction is enabled and no pump was inside the loop: the pump
    /// holds the running bit now.
    Acquired,
    /// The direction is not enabled: there is nothing to run.
    Disabled,
    /// The direction is enabled, but another pump is inside the loop.
    Held,
}

/// How an entry goes that finds the given enable bit and running bit.
pub open spec fn entry(enabled: bool, running: bool) -> Entry {
    if !enabled {
        Entry::Disabled
    } else if running {
        Entry::Held
    } else {
        Entry::Acquired
    }
}

/// Whether one step may take a direction from one state to another. A pump
/// enters and leaves its loop while the direction is enabled; a shutdown
/// takes an enabled direction out of use, at once if no pump is inside its
/// loop and else as soon as the pump has left it. Nothing brings a direction
/// back into use.
pub open spec fn may_follow(from: PumpState, to: PumpState) -> bool {
    ||| to == from
    ||| from == PumpState::Enabled && to == PumpState::Running
    ||| from == PumpState::Running && to == PumpState::Enabled
    ||| from == PumpState::Enabled && to == PumpState::Idle
    ||| from == PumpState::Running && to == PumpState::ShuttingDown
    ||| from == PumpState::ShuttingDown && to == PumpState::Idle
}

/// The four lifecycle bits, each as a truth value.
pub struct Lifecycle {
    pub read: bool,
    pub reading: bool,
    pub write: bool,
    pub writing: bool,
}

impl Lifecycle {
    /// The flags of a new socket: both directions enabled, no pump running.
    pub open spec fn initial() -> Lifecycle {
        Lifecycle { read: true, reading: false, write: true, writing: false }
    }

    /// How the entry of an inbound pump goes.
    pub open spec fn reading_entry(self) -> Entry {
        entry(self.read, self.reading)
    }

    /// An inbound pump tries to enter its loop: it sets the running bit if
    /// the direction is enabled and the bit is clear, and changes nothing
    /// otherwise.
    pub open spec fn enter_reading(self) -> Lifecycle {
        if self.reading_entry() == Entry::Acquired {
            Lifecycle { reading: true, ..self }
        } else {
            self
        }
    }

    /// How the entry of an outbound pump goes.
    pub open spec fn writing_entry(self) -> Entry {
        entry(self.write, self.writing)
    }

    /// An outbound pump tries to enter its loop: it sets the running bit if
    /// the direction is enabled and the bit is clear, and changes nothing
    /// otherwise.
    pub open spec fn enter_writing(self) -> Lifecycle {
        if self.writing_entry() == Entry::Acquired {
            Lifecycle { writing: true, ..self }
        } else {
            self
        }
    }

    /// The inbound pump claims its running bit. The claim holds only if the
    /// direction was enabled; otherwise the bit is given up at once.
    pub open spec fn claim_reading(self) -> Lifecycle {
        Lifecycle { reading: self.read, ..self }
    }

    /// The inbound pump gives up its running bit.
    pub open spec fn release_reading(self) -> Lifecycle {
        Lifecycle { reading: false, ..self }
    }

    /// The outbound pump claims its running bit. The claim holds only if the
    /// direction was enabled; otherwise the bit is given up at once.
    pub open spec fn claim_writing(self) -> Lifecycle {
        Lifecycle { writing: self.write, ..self }
    }

    /// The outbound pump gives up its running bit.
    pub open spec fn release_writing(self) -> Lifecycle {
        Lifecycle { writing: false, ..self }
    }

    /// Both enable bits are cleared; the running bits stay as they are.
    pub open spec fn shut_down(self) -> Lifecycle {
        Lifecycle { read: false, write: false, ..self }
    }

    /// No pump is inside its loop.
    pub open spec fn quiescent(self) -> bool {
        !self.reading && !self.writing
    }

    /// The state of the inbound direction.
    pub open spec fn reader(self) -> PumpState {
        pump_state(self.read, self.reading)
    }

    /// The state of the outbound direction.
    pub open spec fn writer(self) -> PumpState {
        pump_state(self.write, self.writing)
    }
}

/// The flag word.
#[derive(Debug)]
pub struct Flags {
    bits: usize,
}

impl View for Flags {
    type V = Lifecycle;

    closed spec fn view(&self) -> Lifecycle {
        Lifecycle {
            read: self.bits & READ != 0,
            reading: self.bits & READING != 0,
            write: self.bits & WRITE != 0,
            writing: self.bits & WRITING != 0,
        }
    }
}

/// What setting one of the four bits does to each of them.
proof fn lemma_set(word: usize, bit: usize)
    by (bit_vector)
    requires
        bit == 1 || bit == 2 || bit == 4 || bit == 8,
    ensures
        (word | bit) & bit != 0,
        bit != 1 ==> (word | bit) & 1 == word & 1,
        bit != 2 ==> (word | bit) & 2 == word & 2,
        bit != 4 ==> (word | bit) & 4 == word & 4,
        bit != 8 ==> (word | bit) & 8 == word & 8,
{
}

/// What clearing the bits of a mask does to each of the four bits.
proof fn lemma_clear(word: usize, mask: usize)
    by (bit_vector)
    ensures
        mask & 1 != 0 ==> (word & !mask) & 1 == 0,
        mask & 2 != 0 ==> (word & !mask) & 2 == 0,
        mask & 4 != 0 ==> (word & !mask) & 4 == 0,
        mask & 8 != 0 ==> (word & !mask) & 8 == 0,
        mask & 1 == 0 ==> (word & !mask) & 1 == word & 1,
        mask & 2 == 0 ==> (word & !mask) & 2 == word & 2,
        mask & 4 == 0 ==> (word & !mask) & 4 == word & 4,
        mask & 8 == 0 ==> (word & !mask) & 8 == word & 8,
{
}

/// Which of the four bits each mask of this module holds.
proof fn lemma_masks()
    by (bit_vector)
    ensures
        (1usize | 4) & 1 != 0,
        (1usize | 4) & 2 == 0,
        (1usize | 4) & 4 != 0,
        (1usize | 4) & 8 == 0,
        2usize & 1 == 0 && 2usize & 2 != 0 && 2usize & 4 == 0 && 2usize & 8 == 0,
        8usize & 1 == 0 && 8usize & 2 == 0 && 8usize & 4 == 0 && 8usize & 8 != 0,
{
}

/// A word is free of the two running bits exactly if each is clear.
proof fn lemma_running(word: usize)
    by (bit_vector)
    ensures
        (word & (2usize | 8) != 0) == (word & 2 != 0 || word & 8 != 0),
{
}

impl Flags {
    /// The flag word of a new socket.
    pub fn new() -> (flags: Flags)
        ensures
            flags@ == Lifecycle::initial(),
    {
        proof {
            lemma_masks();
        }
        Flags { bits: READ | WRITE }
    }

    /// The entry of an inbound pump into its loop: takes the running bit if
    /// the direction is enabled and no other pump holds the bit, and changes
    /// nothing otherwise.
    pub fn enter_reading(&mut self) -> (outcome: Entry)
        ensures
            outcome == old(self)@.reading_entry(),
            final(self)@ == old(self)@.enter_reading(),
    {
        proof {
            lemma_masks();
            lemma_set(self.bits, READING);
        }
        if self.bits & READ == 0 {
            Entry::Disabled
        } else if self.bits & READING != 0 {
            Entry::Held
        } else {
            self.bits = self.bits | READING;
            Entry::Acquired
        }
    }

    /// The entry of an outbound pump into its loop: takes the running bit if
    /// the direction is enabled and no other pump holds the bit, and changes
    /// nothing otherwise.
    pub fn enter_writing(&mut self) -> (outcome: Entry)
        ensures
            outcome == old(self)@.writing_entry(),
            final(self)@ == old(self)@.enter_writing(),
    {
        proof {
            lemma_masks();
            lemma_set(self.bits, WRITING);
        }
        if self.bits & WRITE == 0 {
            Entry::Disabled
        } else if self.bits & WRITING != 0 {
            Entry::Held
        } else {
            self.bits = self.bits | WRITING;
            Entry::Acquired
        }
    }

    /// The inbound pump's test at the head of every further iteration: sets
    /// the running bit, and clears it again at once if the direction was not
    /// enabled. Returns whether the pump may go on.
    pub fn claim_reading(&mut self) -> (enabled: bool)
        ensures
            enabled == old(self)@.read,
            final(self)@ == old(self)@.claim_reading(),
    {
        proof {
            lemma_masks();
            lemma_set(self.bits, READING);
            lemma_clear(self.bits | READING, READING);
        }
        let previous: usize = self.bits;
        self.bits = previous | READING;
        if previous & READ != 0 {
            true
        } else {
            self.bits = self.bits & !READING;
            false
        }
    }

    /// The inbound pump leaves its loop.
    pub fn release_reading(&mut self)
        ensures
            final(self)@ == old(self)@.release_reading(),
    {
        proof {
            lemma_masks();
            lemma_clear(self.bits, READING);
        }
        self.bits = self.bits & !READING;
    }

    /// The outbound pump's test at the head of every further iteration: sets
    /// the running bit, and clears it again at once if the direction was not
    /// enabled. Returns whether the pump may go on.
    pub fn claim_writing(&mut self) -> (enabled: bool)
        ensures
            enabled == old(self)@.write,
            final(self)@ == old(self)@.claim_writing(),
    {
        proof {
            lemma_masks();
            lemma_set(self.bits, WRITING);
            lemma_clear(self.bits | WRITING, WRITING);
        }
        let previous: usize = self.bits;
        self.bits = previous | WRITING;
        if previous & WRITE != 0 {
            true
        } else {
            self.bits = self.bits & !WRITING;
            false
        }
    }

    /// The outbound pump leaves its loop.
    pub fn release_writing(&mut self)
        ensures
            final(self)@ == old(self)@.release_writing(),
    {
        proof {
            lemma_masks();
            lemma_clear(self.bits, WRITING);
        }
        self.bits = self.bits & !WRITING;
    }

    /// Clears both enable bits. Returns whether a pump was inside its loop
    /// when they were cleared.
    pub fn shut_down(&mut self) -> (busy: bool)
        ensures
            busy == !old(self)@.quiescent(),
            final(self)@ == old(self)@.shut_down(),
    {
        proof {
            lemma_masks();
            lemma_clear(self.bits, READ | WRITE);
            lemma_running(self.bits);
        }
        let previous: usize = self.bits;
        self.bits = previous & !(READ | WRITE);
        previous & (READING | WRITING) != 0
    }

    /// The state of the inbound direction.
    pub fn reader(&self) -> (state: PumpState)
        ensures
            state == self@.reader(),
    {
        Self::state_of(self.bits & READ != 0, self.bits & READING != 0)
    }

    /// The state of the outbound direction.
    pub fn writer(&self) -> (state: PumpState)
        ensures
            state == self@.writer(),
    {
        Self::state_of(self.bits & WRITE != 0, self.bits & WRITING != 0)
    }

    fn state_of(enabled: bool, running: bool) -> (state: PumpState)
        ensures
            state == pump_state(enabled, running),
    {
        if enabled {
            if running {
                PumpState::Running
            } else {
                PumpState::Enabled
            }
        } else {
            if running {
                PumpState::ShuttingDown
            } else {
                PumpState::Idle
            }
        }
    }
}

} // verus!
