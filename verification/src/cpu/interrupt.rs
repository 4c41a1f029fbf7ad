//! The interrupt controller: which of reset, non-maskable interrupt and
//! interrupt request is served next, and when the processor halts.
//!
//! The controller decides and keeps its own state; it touches neither the
//! registers nor memory.

use crate::cpu::execute::{Signal, IRQ_VECTOR, NMI_VECTOR, RESET_VECTOR};
use vstd::prelude::*;

verus! {

/// What the processor is doing between two steps.
#[derive(Clone, Copy, Debug, PartialEq, Eq, Structural)]
pub enum RunState {
    /// Executing instructions.
    Running,
    /// Halted by a wait instruction until an interrupt line is asserted.
    Waiting,
    /// Inside a reset or interrupt sequence.
    InSequence,
    /// Halted by a stop instruction until the next reset.
    Stopped,
}

/// The three sources of an interrupt sequence, highest priority first.
#[derive(Clone, Copy, Debug, PartialEq, Eq, Structural)]
pub enum Interrupt {
    Reset,
    NonMaskable,
    Request,
}

/// What one step of the processor is to do.
#[derive(Clone, Copy, Debug, PartialEq, Eq, Structural)]
pub enum Action {
    /// Nothing: the processor is halted.
    Idle,
    /// Fetch and execute the next instruction.
    Execute,
    /// Run the sequence of an interrupt.
    Service(Interrupt),
}

/// The interrupt lines and what the controller remembers of them.
#[derive(Clone, Copy, Debug, PartialEq, Eq, Structural)]
pub struct InterruptController {
    /// What the processor is doing.
    pub state: RunState,
    /// Whether the interrupt request line is asserted. The line is read as a
    /// level at every step.
    pub irq_line: bool,
    /// Whether the non-maskable interrupt line is asserted.
    pub nmi_line: bool,
    /// Whether the non-maskable interrupt line went from released to
    /// asserted and that transition was not served yet.
    pub nmi_pending: bool,
    /// Whether a reset was requested and not served yet.
    pub reset_pending: bool,
}

/// The controller of a processor that runs with every line released.
pub open spec fn idle_controller() -> InterruptController {
    InterruptController {
        state: RunState::Running,
        irq_line: false,
        nmi_line: false,
        nmi_pending: false,
        reset_pending: false,
    }
}

/// What the next step does. A reset goes before everything; a stopped
/// processor waits for it. A pending non-maskable interrupt goes before an
/// interrupt request, which is served only while InterruptDisable is clear.
/// A waiting processor stays halted while the request line is released; a
/// request that is masked wakes it and execution goes on.
pub open spec fn action_for(controller: InterruptController, interrupt_disable: bool) -> Action {
    if controller.reset_pending {
        Action::Service(Interrupt::Reset)
    } else if controller.state == RunState::Stopped {
        Action::Idle
    } else if controller.nmi_pending {
        Action::Service(Interrupt::NonMaskable)
    } else if controller.irq_line && !interrupt_disable {
        Action::Service(Interrupt::Request)
    } else if controller.state == RunState::Waiting && !controller.irq_line {
        Action::Idle
    } else {
        Action::Execute
    }
}

/// The controller once it has decided: an interrupt that is served is no
/// longer pending, and a reset drops a pending non-maskable interrupt.
pub open spec fn accepted(
    controller: InterruptController,
    interrupt_disable: bool,
) -> InterruptController {
    match action_for(controller, interrupt_disable) {
        Action::Idle => controller,
        Action::Execute => InterruptController { state: RunState::Running, ..controller },
        Action::Service(Interrupt::Reset) => InterruptController {
            state: RunState::InSequence,
            reset_pending: false,
            nmi_pending: false,
            ..controller
        },
        Action::Service(Interrupt::NonMaskable) => InterruptController {
            state: RunState::InSequence,
            nmi_pending: false,
            ..controller
        },
        Action::Service(Interrupt::Request) => InterruptController {
            state: RunState::InSequence,
            ..controller
        },
    }
}

/// The controller once the work of a step is done.
pub open spec fn settled(controller: InterruptController, signal: Signal) -> InterruptController {
    InterruptController {
        state: match signal {
            Signal::Continue => RunState::Running,
            Signal::Wait => RunState::Waiting,
            Signal::Stop => RunState::Stopped,
        },
        ..controller
    }
}

/// The controller after the non-maskable interrupt line was driven: a
/// transition from released to asserted is remembered until it is served.
pub open spec fn with_nmi_line(
    controller: InterruptController,
    asserted: bool,
) -> InterruptController {
    InterruptController {
        nmi_line: asserted,
        nmi_pending: controller.nmi_pending || (asserted && !controller.nmi_line),
        ..controller
    }
}

/// Where the sequence of an interrupt finds the address to go to.
pub open spec fn vector_of(interrupt: Interrupt) -> u16 {
    match interrupt {
        Interrupt::Reset => RESET_VECTOR,
        Interrupt::NonMaskable => NMI_VECTOR,
        Interrupt::Request => IRQ_VECTOR,
    }
}

impl Interrupt {
    /// Where the sequence of the interrupt finds the address to go to.
    pub fn vector(self) -> (address: u16)
        ensures
            address == vector_of(self),
    {
        match self {
            Interrupt::Reset => RESET_VECTOR,
            Interrupt::NonMaskable => NMI_VECTOR,
            Interrupt::Request => IRQ_VECTOR,
        }
    }
}

impl InterruptController {
    /// A controller in the running state with every line released.
    pub fn new() -> (controller: InterruptController)
        ensures
            controller == idle_controller(),
    {
        InterruptController {
            state: RunState::Running,
            irq_line: false,
            nmi_line: false,
            nmi_pending: false,
            reset_pending: false,
        }
    }

    /// Drives the interrupt request line.
    pub fn set_irq(&mut self, asserted: bool)
        ensures
            *final(self) == (InterruptController { irq_line: asserted, ..*old(self) }),
    {
        self.irq_line = asserted;
    }

    /// Drives the non-maskable interrupt line. Only a transition from
    /// released to asserted requests an interrupt.
    pub fn set_nmi(&mut self, asserted: bool)
        ensures
            *final(self) == with_nmi_line(*old(self), asserted),
    {
        if asserted && !self.nmi_line {
            self.nmi_pending = true;
        }
        self.nmi_line = asserted;
    }

    /// Requests a reset, which the next step serves.
    pub fn request_reset(&mut self)
        ensures
            *final(self) == (InterruptController { reset_pending: true, ..*old(self) }),
    {
        self.reset_pending = true;
    }

    /// Decides what the next step does, by fixed priority, and accepts the
    /// interrupt that it is to serve.
    pub fn poll(&mut self, interrupt_disable: bool) -> (action: Action)
        ensures
            action == action_for(*old(self), interrupt_disable),
            *final(self) == accepted(*old(self), interrupt_disable),
    {
        if self.reset_pending {
            self.state = RunState::InSequence;
            self.reset_pending = false;
            self.nmi_pending = false;
            return Action::Service(Interrupt::Reset);
        }
        match self.state {
            RunState::Stopped => {
                return Action::Idle;
            },
            _ => {},
        }
        if self.nmi_pending {
            self.state = RunState::InSequence;
            self.nmi_pending = false;
            return Action::Service(Interrupt::NonMaskable);
        }
        if self.irq_line {
            if !interrupt_disable {
                self.state = RunState::InSequence;
                return Action::Service(Interrupt::Request);
            }
        } else {
            match self.state {
                RunState::Waiting => {
                    return Action::Idle;
                },
                _ => {},
            }
        }
        self.state = RunState::Running;
        Action::Execute
    }

    /// Ends a step: after a sequence or an instruction the processor runs
    /// on, unless the instruction asked it to wait or to stop.
    pub fn complete(&mut self, signal: Signal)
        ensures
            *final(self) == settled(*old(self), signal),
    {
        self.state = match signal {
            Signal::Continue => RunState::Running,
            Signal::Wait => RunState::Waiting,
            Signal::Stop => RunState::Stopped,
        };
    }
}

} // verus!
