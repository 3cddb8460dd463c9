//! The programmable-I/O resources a lane is built from.
//!
//! The engine is modeled by what the driver relies on: its identity, its
//! four sequencer slots, and which of the two UART microprograms occupy
//! their regions of the shared instruction memory. The microprograms
//! themselves are opaque collaborators; only their installation
//! bookkeeping and the configuration they demand of a slot appear here.

use vstd::prelude::*;

verus! {

/// Pins the engine's pin fabric can address.
pub const PIN_COUNT: u8 = 30;

/// Sequencer slots per engine.
pub const SLOT_COUNT: u8 = 4;

/// Lifecycle marker: the lane is built and configured, its clock stopped.
pub struct Configured;

/// Lifecycle marker: the lane's slot clock is running.
pub struct Running;

/// Direction a slot's shift register fills.
#[derive(Clone, Copy, Debug, PartialEq, Eq, Structural)]
pub enum ShiftDirection {
    /// New bits enter at the most significant end.
    Left,
    /// New bits enter at the least significant end.
    Right,
}

/// How a slot's two FIFOs are joined.
#[derive(Clone, Copy, Debug, PartialEq, Eq, Structural)]
pub enum Buffers {
    /// All FIFO storage serves the receive side.
    OnlyRx,
    /// All FIFO storage serves the transmit side.
    OnlyTx,
    /// Both directions keep their own FIFO.
    RxTx,
}

/// Direction a pin is driven.
#[derive(Clone, Copy, Debug, PartialEq, Eq, Structural)]
pub enum PinDir {
    /// The slot samples the pin.
    Input,
    /// The slot drives the pin.
    Output,
}

/// Why a microprogram could not be installed: the region of instruction
/// memory it needs is unavailable — already occupied or out of room.
#[derive(Clone, Copy, Debug, PartialEq, Eq, Structural)]
pub enum InstallError {
    /// The program's region is taken.
    Occupied,
}

/// The bare, unsplit programmable-I/O peripheral, as handed to the
/// driver and as returned by a full teardown.
pub struct PioInstance {
    /// Which of the chip's engines this is.
    pub id: u8,
}

/// One sequencer slot, not yet bound to a program.
pub struct UninitStateMachine {
    /// The engine the slot belongs to.
    pub engine_id: u8,
    /// The slot's position within its engine.
    pub index: u8,
}

/// The receive pin: input-capable, already multiplexed to the engine's
/// pin function with its pull-up enabled. That configuration is a
/// precondition carried by this type, not checked at run time.
pub struct RxPin {
    /// The pin's number.
    pub id: u8,
}

/// The transmit pin: output-capable, already multiplexed to the engine's
/// pin function with its pulls disabled. That configuration is a
/// precondition carried by this type, not checked at run time.
pub struct TxPin {
    /// The pin's number.
    pub id: u8,
}

/// Token for the installed receive microprogram: its claim on a region
/// of the engine's instruction memory. Lanes borrow it; exactly one
/// uninstall can ever consume it.
pub struct RxProgram {
    engine_id: u8,
}

/// Token for the installed transmit microprogram. See [`RxProgram`].
pub struct TxProgram {
    engine_id: u8,
}

impl RxProgram {
    /// The engine whose instruction memory holds the program.
    pub closed spec fn engine_id(&self) -> u8 {
        self.engine_id
    }
}

impl TxProgram {
    /// The engine whose instruction memory holds the program.
    pub closed spec fn engine_id(&self) -> u8 {
        self.engine_id
    }
}

/// The split engine: the handle that installs and uninstalls the two
/// microprograms in the shared instruction memory.
pub struct PioEngine {
    id: u8,
    rx_installed: bool,
    tx_installed: bool,
}

impl PioInstance {
    /// Split the peripheral into the engine handle and its four
    /// uninitialized sequencer slots.
    pub fn split(self) -> (r: (
        PioEngine,
        UninitStateMachine,
        UninitStateMachine,
        UninitStateMachine,
        UninitStateMachine,
    ))
        ensures
            r.0.id() == self.id,
            !r.0.rx_installed(),
            !r.0.tx_installed(),
            r.1 == (UninitStateMachine { engine_id: self.id, index: 0 }),
            r.2 == (UninitStateMachine { engine_id: self.id, index: 1 }),
            r.3 == (UninitStateMachine { engine_id: self.id, index: 2 }),
            r.4 == (UninitStateMachine { engine_id: self.id, index: 3 }),
    {
        (
            PioEngine { id: self.id, rx_installed: false, tx_installed: false },
            UninitStateMachine { engine_id: self.id, index: 0 },
            UninitStateMachine { engine_id: self.id, index: 1 },
            UninitStateMachine { engine_id: self.id, index: 2 },
            UninitStateMachine { engine_id: self.id, index: 3 },
        )
    }
}

impl PioEngine {
    /// The engine's identity.
    pub closed spec fn id(&self) -> u8 {
        self.id
    }

    /// Whether the receive microprogram occupies its region.
    pub closed spec fn rx_installed(&self) -> bool {
        self.rx_installed
    }

    /// Whether the transmit microprogram occupies its region.
    pub closed spec fn tx_installed(&self) -> bool {
        self.tx_installed
    }

    /// Reclaim the receive program's instruction memory. Consuming the
    /// token here is what makes a second uninstall impossible.
    pub fn uninstall_rx(&mut self, program: RxProgram)
        requires
            program.engine_id() == old(self).id(),
        ensures
            final(self).id() == old(self).id(),
            !final(self).rx_installed(),
            final(self).tx_installed() == old(self).tx_installed(),
    {
        self.rx_installed = false;
    }

    /// Reclaim the transmit program's instruction memory. See
    /// [`Self::uninstall_rx`].
    pub fn uninstall_tx(&mut self, program: TxProgram)
        requires
            program.engine_id() == old(self).id(),
        ensures
            final(self).id() == old(self).id(),
            !final(self).tx_installed(),
            final(self).rx_installed() == old(self).rx_installed(),
    {
        self.tx_installed = false;
    }

    /// Reassemble the bare peripheral from the engine handle and its four
    /// slots. Both microprograms must have been uninstalled: the result
    /// is the peripheral in its pre-driver form.
    pub fn free(
        self,
        sm0: UninitStateMachine,
        sm1: UninitStateMachine,
        sm2: UninitStateMachine,
        sm3: UninitStateMachine,
    ) -> (p: PioInstance)
        requires
            !self.rx_installed(),
            !self.tx_installed(),
            sm0 == (UninitStateMachine { engine_id: self.id(), index: 0 }),
            sm1 == (UninitStateMachine { engine_id: self.id(), index: 1 }),
            sm2 == (UninitStateMachine { engine_id: self.id(), index: 2 }),
            sm3 == (UninitStateMachine { engine_id: self.id(), index: 3 }),
        ensures
            p.id == self.id(),
    {
        PioInstance { id: self.id }
    }
}

/// Install the receive microprogram into the engine's instruction
/// memory. Fails — with an error, never a retry — exactly when the
/// program's region is already occupied.
pub fn install_rx_program(pio: &mut PioEngine) -> (r: Result<RxProgram, InstallError>)
    ensures
        final(pio).id() == old(pio).id(),
        final(pio).tx_installed() == old(pio).tx_installed(),
        final(pio).rx_installed(),
        r is Ok <==> !old(pio).rx_installed(),
        r matches Ok(p) ==> p.engine_id() == old(pio).id(),
{
    if pio.rx_installed {
        Err(InstallError::Occupied)
    } else {
        pio.rx_installed = true;
        Ok(RxProgram { engine_id: pio.id })
    }
}

/// Install the transmit microprogram into the engine's instruction
/// memory. See [`install_rx_program`].
pub fn install_tx_program(pio: &mut PioEngine) -> (r: Result<TxProgram, InstallError>)
    ensures
        final(pio).id() == old(pio).id(),
        final(pio).rx_installed() == old(pio).rx_installed(),
        final(pio).tx_installed(),
        r is Ok <==> !old(pio).tx_installed(),
        r matches Ok(p) ==> p.engine_id() == old(pio).id(),
{
    if pio.tx_installed {
        Err(InstallError::Occupied)
    } else {
        pio.tx_installed = true;
        Ok(TxProgram { engine_id: pio.id })
    }
}

} // verus!
