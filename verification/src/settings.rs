//! The attributes that the serial line is given before any data flows.

use vstd::prelude::*;
use crate::baud::BaudRate;
use crate::modes::{clocal, cread, cs8, ignbrk, ignpar, tcioflush, tcsanow};
use crate::modes::{
    CLOCAL, CREAD, CRTSCTS, CS8, CSIZE, CSTOPB, ECHO, ICANON, IGNBRK, IGNPAR, ISIG, IXOFF, IXON,
    OPOST, PARENB, TCIOFLUSH, TCSANOW,
};

verus! {

/// The four mode words and the rate of a serial line.
#[derive(Clone, Copy, Debug, PartialEq, Eq, Structural)]
pub struct LineSettings {
    pub input_modes: u32,
    pub output_modes: u32,
    pub control_modes: u32,
    pub local_modes: u32,
    pub rate: BaudRate,
}

impl LineSettings {
    /// The settings of a raw line at `rate`: breaks and parity errors are
    /// ignored on input, output is not processed, characters have eight bits,
    /// the receiver is on, modem lines are ignored, and the line discipline
    /// neither edits, echoes nor raises signals.
    pub open spec fn spec_raw(rate: BaudRate) -> LineSettings {
        LineSettings {
            input_modes: IGNPAR | IGNBRK,
            output_modes: 0,
            control_modes: CS8 | CREAD | CLOCAL,
            local_modes: 0,
            rate,
        }
    }

    /// Characters have eight bits.
    pub open spec fn eight_data_bits(self) -> bool {
        self.control_modes & CSIZE == CS8
    }

    /// No parity bit is sent or expected.
    pub open spec fn no_parity(self) -> bool {
        self.control_modes & PARENB == 0
    }

    /// One stop bit ends each character.
    pub open spec fn one_stop_bit(self) -> bool {
        self.control_modes & CSTOPB == 0
    }

    /// Neither hardware nor software flow control is in use.
    pub open spec fn no_flow_control(self) -> bool {
        self.control_modes & CRTSCTS == 0 && self.input_modes & (IXON | IXOFF) == 0
    }

    /// The receiver is on and modem status lines are ignored.
    pub open spec fn local_receiver(self) -> bool {
        self.control_modes & CREAD == CREAD && self.control_modes & CLOCAL == CLOCAL
    }

    /// Bytes pass unprocessed: no line editing, no echo, no signals from
    /// control characters, no post-processing of output.
    pub open spec fn unprocessed(self) -> bool {
        self.local_modes & (ICANON | ECHO | ISIG) == 0 && self.output_modes & OPOST == 0
    }

    /// The settings of a raw line at `rate`.
    pub fn raw(rate: BaudRate) -> (settings: LineSettings)
        ensures
            settings == Self::spec_raw(rate),
    {
        LineSettings {
            input_modes: ignpar() | ignbrk(),
            output_modes: 0,
            control_modes: cs8() | cread() | clocal(),
            local_modes: 0,
            rate,
        }
    }
}

/// One step of bringing the device to its settings.
#[derive(Clone, Copy, Debug, PartialEq, Eq, Structural)]
pub enum SetupCommand {
    /// Read the attributes that the device has now.
    FetchAttributes,
    /// Put the four mode words of `settings` into the attributes at hand,
    /// then set their input and output speed to `speed_code`.
    LoadSettings { settings: LineSettings, speed_code: u32 },
    /// Hand the attributes to the device. `when` selects the moment.
    ApplyAttributes { when: i32 },
    /// Discard data that the device has queued. `which` selects the queues.
    DiscardQueues { which: i32 },
}

/// The steps that bring a device to `settings`, in the order in which they
/// are taken. The attributes take effect at once, and only then is queued
/// data discarded, in both directions, so that nothing stale is read or sent
/// once data flows. A step that fails ends the setup: none is tried again
/// and none after it is taken.
pub open spec fn spec_setup_commands(settings: LineSettings) -> Seq<SetupCommand> {
    seq![
        SetupCommand::FetchAttributes,
        SetupCommand::LoadSettings { settings, speed_code: settings.rate.spec_speed_code() },
        SetupCommand::ApplyAttributes { when: TCSANOW },
        SetupCommand::DiscardQueues { which: TCIOFLUSH },
    ]
}

/// The steps that bring a device to `settings`, first to last.
pub fn setup_commands(settings: LineSettings) -> (commands: Vec<SetupCommand>)
    ensures
        commands@ == spec_setup_commands(settings),
{
    let mut commands: Vec<SetupCommand> = Vec::new();
    commands.push(SetupCommand::FetchAttributes);
    commands.push(
        SetupCommand::LoadSettings { settings, speed_code: settings.rate.speed_code() },
    );
    commands.push(SetupCommand::ApplyAttributes { when: tcsanow() });
    commands.push(SetupCommand::DiscardQueues { which: tcioflush() });
    assert(commands@ =~= spec_setup_commands(settings));
    commands
}

/// The mode words of a raw line, as numbers.
pub proof fn lemma_raw_words(rate: BaudRate)
    ensures
        LineSettings::spec_raw(rate).input_modes == 0o5,
        LineSettings::spec_raw(rate).output_modes == 0,
        LineSettings::spec_raw(rate).control_modes == 0o4260,
        LineSettings::spec_raw(rate).local_modes == 0,
{
    assert(IGNPAR | IGNBRK == 0o5) by (bit_vector);
    assert(CS8 | CREAD | CLOCAL == 0o4260) by (bit_vector);
}

/// A raw line at any supported rate carries eight data bits, no parity and
/// one stop bit, uses no flow control, has its receiver on, and passes bytes
/// unprocessed.
pub proof fn lemma_raw_is_8n1(rate: BaudRate)
    ensures
        LineSettings::spec_raw(rate).eight_data_bits(),
        LineSettings::spec_raw(rate).no_parity(),
        LineSettings::spec_raw(rate).one_stop_bit(),
        LineSettings::spec_raw(rate).no_flow_control(),
        LineSettings::spec_raw(rate).local_receiver(),
        LineSettings::spec_raw(rate).unprocessed(),
{
    assert((CS8 | CREAD | CLOCAL) & CSIZE == CS8) by (bit_vector);
    assert((CS8 | CREAD | CLOCAL) & PARENB == 0) by (bit_vector);
    assert((CS8 | CREAD | CLOCAL) & CSTOPB == 0) by (bit_vector);
    assert((CS8 | CREAD | CLOCAL) & CRTSCTS == 0) by (bit_vector);
    assert((CS8 | CREAD | CLOCAL) & CREAD == CREAD) by (bit_vector);
    assert((CS8 | CREAD | CLOCAL) & CLOCAL == CLOCAL) by (bit_vector);
    assert((IGNPAR | IGNBRK) & (IXON | IXOFF) == 0) by (bit_vector);
    assert(0u32 & (ICANON | ECHO | ISIG) == 0) by (bit_vector);
    assert(0u32 & OPOST == 0) by (bit_vector);
}

} // verus!
