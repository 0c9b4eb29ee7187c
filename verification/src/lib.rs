//! Driver core for a parallel-bus LCD display controller chip.
//!
//! The driver owns a bus transport capability and walks the chip through its
//! datasheet register initialization sequence: an ordered list of
//! command/data writes with two mandatory pause points.  The transport and
//! the delay provider are capability traits whose contracts record every
//! call in a ghost log, so the exact sequence a `Controller` emits is part of
//! its specification.

use vstd::prelude::*;

pub mod mock;

verus! {

/// One observable call made on a bus transport.
#[derive(Clone, Copy, Debug, PartialEq, Eq, Structural)]
pub enum Event {
    /// A command/address word was latched into the chip's command register.
    Command(u16),
    /// A data word was written into the currently selected register.
    Data(u16),
    /// One data word was read back from the currently selected register.
    Read,
    /// The chip's reset line was asserted and released.
    Reset,
}

/// Bus transport capability: the four operations the driver needs from any
/// concrete bus (bit-banged parallel port, SPI bridge, memory-mapped block).
///
/// The ghost `log` records every call, oldest first, so that contracts can
/// pin down exactly which words reach the chip and in which order.
/// `next_read` is the word the transport will hand back on the next
/// `read_data` call; writes and resets leave it untouched.
pub trait Interface {
    /// Ghost history of every call made on this transport, oldest first.
    spec fn log(&self) -> Seq<Event>;

    /// The word the transport will place in the out-parameter of the next
    /// `read_data` call.
    spec fn next_read(&self) -> u16;

    /// Latch a 16-bit command/address word onto the chip's command register.
    fn write_command(&mut self, command: u16)
        ensures
            final(self).log() == old(self).log().push(Event::Command(command)),
            final(self).next_read() == old(self).next_read(),
    ;

    /// Write a 16-bit word into the register selected by the last command.
    fn write_data(&mut self, data: u16)
        ensures
            final(self).log() == old(self).log().push(Event::Data(data)),
            final(self).next_read() == old(self).next_read(),
    ;

    /// Read 16 bits back from the register selected by the last command,
    /// overwriting `data` unconditionally.
    fn read_data(&mut self, data: &mut u16)
        ensures
            final(self).log() == old(self).log().push(Event::Read),
            *final(data) == old(self).next_read(),
    ;

    /// Cycle the chip's physical reset line, returning once the chip is out
    /// of reset and ready to accept commands.
    fn reset(&mut self)
        ensures
            final(self).log() == old(self).log().push(Event::Reset),
            final(self).next_read() == old(self).next_read(),
    ;
}

/// Millisecond-delay capability, consumed by `init` at its two pause points.
///
/// The ghost `log` records every requested duration, oldest first.
pub trait Delay {
    /// Ghost history of every delay request, in milliseconds, oldest first.
    spec fn log(&self) -> Seq<u8>;

    /// Block the caller for at least `ms` milliseconds.
    fn delay_ms(&mut self, ms: u8)
        ensures
            final(self).log() == old(self).log().push(ms),
    ;
}

/// The 16-bit value read back from the chip's ID register.
///
/// The driver does not interpret it; decoding which chip revision is present
/// is the caller's concern.  The zero value stands for "not yet read".
#[derive(Clone, Copy, Debug, PartialEq, Eq, Structural)]
pub struct DisplayIdentification {
    raw: u16,
}

impl DisplayIdentification {
    /// The raw identification word.
    pub closed spec fn spec_raw(&self) -> u16 {
        self.raw
    }

    /// Read-only access to the raw identification word.
    pub fn raw(&self) -> (r: u16)
        ensures
            r == self.spec_raw(),
    {
        self.raw
    }
}

impl Default for DisplayIdentification {
    fn default() -> (r: Self)
        ensures
            r.spec_raw() == 0,
    {
        DisplayIdentification { raw: 0 }
    }
}

/// The complete transport call sequence that `init` emits for a panel of
/// the given resolution: the reset, then the datasheet's fixed register
/// table as command/data pairs, in order.
///
/// Only the addressing-window registers depend on the resolution: 0x0051
/// (horizontal end address) carries `width - 1` and 0x0053 (vertical end
/// address) carries `height - 1`, both zero-based.  For a zero width or
/// height that subtraction underflows, so `init` requires both to be at
/// least 1.
pub open spec fn init_events(width: u16, height: u16) -> Seq<Event> {
    seq![
        Event::Reset,
        // driver output control
        Event::Command(0x0001), Event::Data(0x0100),
        // LCD driving waveform control
        Event::Command(0x0002), Event::Data(0x0700),
        // entry mode
        Event::Command(0x0003), Event::Data(0x1030),
        // scaling control
        Event::Command(0x0004), Event::Data(0x0000),
        // display control 2
        Event::Command(0x0008), Event::Data(0x0207),
        // display control 3
        Event::Command(0x0009), Event::Data(0x0000),
        // frame cycle control
        Event::Command(0x000A), Event::Data(0x0000),
        // external display interface control 1
        Event::Command(0x000C), Event::Data(0x0000),
        // frame marker position
        Event::Command(0x000D), Event::Data(0x0000),
        // external display interface control 2
        Event::Command(0x000F), Event::Data(0x0000),
        // display control; the first pause precedes this pair
        Event::Command(0x0007), Event::Data(0x0101),
        // power control 1-5; the second pause precedes this block
        Event::Command(0x0010), Event::Data(0x16B0),
        Event::Command(0x0011), Event::Data(0x0001),
        Event::Command(0x0017), Event::Data(0x0001),
        Event::Command(0x0012), Event::Data(0x0138),
        Event::Command(0x0013), Event::Data(0x0800),
        // NVM read data 2 and 3
        Event::Command(0x0029), Event::Data(0x0009),
        Event::Command(0x002A), Event::Data(0x0009),
        Event::Command(0x00A4), Event::Data(0x0000),
        // addressing window: horizontal start/end, vertical start/end
        Event::Command(0x0050), Event::Data(0x0000),
        Event::Command(0x0051), Event::Data(((width - 1) as u16)),
        Event::Command(0x0052), Event::Data(0x0000),
        Event::Command(0x0053), Event::Data(((height - 1) as u16)),
        // driver output control
        Event::Command(0x0060), Event::Data(0xA700),
        Event::Command(0x0061), Event::Data(0x0003),
        // vertical scroll control
        Event::Command(0x006A), Event::Data(0x0000),
        // partial display 1: position, RAM start, RAM end
        Event::Command(0x0080), Event::Data(0x0000),
        Event::Command(0x0081), Event::Data(0x0000),
        Event::Command(0x0082), Event::Data(0x0000),
        // partial display 2: position, RAM start, RAM end
        Event::Command(0x0083), Event::Data(0x0000),
        Event::Command(0x0084), Event::Data(0x0000),
        Event::Command(0x0085), Event::Data(0x0000),
        // frame cycle control
        Event::Command(0x0090), Event::Data(0x0013),
        // panel interface control 2 and 3
        Event::Command(0x0092), Event::Data(0x0000),
        Event::Command(0x0093), Event::Data(0x0003),
        // frame cycle control
        Event::Command(0x0095), Event::Data(0x0110),
        // display on
        Event::Command(0x0007), Event::Data(0x0173),
    ]
}

/// Window addressing: with panel resolution `width` by `height`, the init
/// sequence programs the horizontal end address register (0x0051) with
/// `width - 1` and the vertical end address register (0x0053) with
/// `height - 1`.
pub proof fn lemma_window_addressing(width: u16, height: u16)
    requires
        width >= 1,
        height >= 1,
    ensures
        init_events(width, height).len() == 75,
        init_events(width, height)[41] == Event::Command(0x0051),
        init_events(width, height)[42] == Event::Data((width - 1) as u16),
        init_events(width, height)[45] == Event::Command(0x0053),
        init_events(width, height)[46] == Event::Data((height - 1) as u16),
{
}

/// Initialization is repeatable: `init` appends `init_events` of the
/// controller's resolution and leaves that resolution untouched, so in the
/// transport log left by two `init` calls the two appended segments are
/// identical.
pub proof fn lemma_init_repeatable(log: Seq<Event>, width: u16, height: u16)
    ensures
        ({
            let after = log + init_events(width, height) + init_events(width, height);
            after.subrange(log.len() as int, log.len() as int + 75) == after.subrange(
                log.len() as int + 75,
                log.len() as int + 150,
            )
        }),
{
    let events = init_events(width, height);
    assert(events.len() == 75);
    let after = log + events + events;
    assert(after.subrange(log.len() as int, log.len() as int + 75) =~= events);
    assert(after.subrange(log.len() as int + 75, log.len() as int + 150) =~= events);
}

/// The display driver: owns one transport for its lifetime, plus the panel's
/// logical resolution, fixed at construction.
pub struct Controller<T> where T: Interface {
    iface: T,
    width: u16,
    height: u16,
}

impl<T: Interface> Controller<T> {
    /// The ghost call history of the owned transport.
    pub closed spec fn log(&self) -> Seq<Event> {
        self.iface.log()
    }

    /// The word the owned transport will hand back on the next data read.
    pub closed spec fn next_read(&self) -> u16 {
        self.iface.next_read()
    }

    /// The panel width configured at construction.
    pub closed spec fn spec_width(&self) -> u16 {
        self.width
    }

    /// The panel height configured at construction.
    pub closed spec fn spec_height(&self) -> u16 {
        self.height
    }

    /// The configured resolution is the same in both states.
    pub open spec fn same_panel(&self, other: &Self) -> bool {
        self.spec_width() == other.spec_width() && self.spec_height() == other.spec_height()
    }

    /// Take ownership of the transport and store the panel resolution
    /// verbatim.  Pure state assembly: no validation, no side effect.
    pub fn new(iface: T, width: u16, height: u16) -> (r: Self)
        ensures
            r.spec_width() == width,
            r.spec_height() == height,
            r.log() == iface.log(),
            r.next_read() == iface.next_read(),
    {
        Controller { iface, width, height }
    }

    /// The panel width passed to `new`, unchanged ever since.
    pub fn width(&self) -> (r: u16)
        ensures
            r == self.spec_width(),
    {
        self.width
    }

    /// The panel height passed to `new`, unchanged ever since.
    pub fn height(&self) -> (r: u16)
        ensures
            r == self.spec_height(),
    {
        self.height
    }

    /// Forward a command word to the transport.
    pub fn write_command(&mut self, command: u16)
        ensures
            final(self).log() == old(self).log().push(Event::Command(command)),
            final(self).next_read() == old(self).next_read(),
            final(self).same_panel(old(self)),
    {
        self.iface.write_command(command);
    }

    /// Forward a data word to the transport.
    pub fn write_data(&mut self, data: u16)
        ensures
            final(self).log() == old(self).log().push(Event::Data(data)),
            final(self).next_read() == old(self).next_read(),
            final(self).same_panel(old(self)),
    {
        self.iface.write_data(data);
    }

    /// Set register `command` to `data`: emit `write_command(command)`
    /// immediately followed by `write_data(data)`, with nothing in between.
    pub fn write_cmd_data(&mut self, command: u16, data: u16)
        ensures
            final(self).log() == old(self).log().push(Event::Command(command)).push(
                Event::Data(data),
            ),
            final(self).next_read() == old(self).next_read(),
            final(self).same_panel(old(self)),
    {
        self.write_command(command);
        self.write_data(data);
    }

    /// Read one data word back from the register selected by the last
    /// command, overwriting `data` unconditionally.
    pub fn read_data(&mut self, data: &mut u16)
        ensures
            final(self).log() == old(self).log().push(Event::Read),
            *final(data) == old(self).next_read(),
            final(self).same_panel(old(self)),
    {
        self.iface.read_data(data);
    }

    /// Select the chip's ID register (address 0x0000) and read the
    /// identification word back: the result is exactly the word the
    /// transport supplies.
    pub fn read_id(&mut self) -> (r: DisplayIdentification)
        ensures
            final(self).log() == old(self).log().push(Event::Command(0x0000)).push(Event::Read),
            r.spec_raw() == old(self).next_read(),
            final(self).same_panel(old(self)),
    {
        let mut raw: u16 = 0;
        self.write_command(0x0000);
        self.read_data(&mut raw);
        DisplayIdentification { raw }
    }

    /// Drive the chip from reset into its usable display mode: the reset,
    /// then the datasheet register table of `init_events`, pausing for 50 ms
    /// twice on the way (after the first ten register pairs and again after
    /// the display-control pair that follows).
    ///
    /// The sequence depends only on the configured resolution, which `init`
    /// leaves untouched, so a second call emits the identical sequence
    /// again.  A width or height of zero would underflow the zero-based
    /// addressing-window registers, hence the precondition.
    #[verifier::rlimit(100)]
    pub fn init<D: Delay>(&mut self, delay: &mut D)
        requires
            old(self).spec_width() >= 1,
            old(self).spec_height() >= 1,
        ensures
            final(self).log() == old(self).log() + init_events(
                old(self).spec_width(),
                old(self).spec_height(),
            ),
            final(self).next_read() == old(self).next_read(),
            final(self).same_panel(old(self)),
            final(delay).log() == old(delay).log().push(50).push(50),
    {
        self.iface.reset();
        self.write_cmd_data(0x0001, 0x0100);  // driver output control
        self.write_cmd_data(0x0002, 0x0700);  // LCD driving waveform control
        self.write_cmd_data(0x0003, 0x1030);  // entry mode
        self.write_cmd_data(0x0004, 0x0000);  // scaling control
        self.write_cmd_data(0x0008, 0x0207);  // display control 2
        self.write_cmd_data(0x0009, 0x0000);  // display control 3
        self.write_cmd_data(0x000A, 0x0000);  // frame cycle control
        self.write_cmd_data(0x000C, 0x0000);  // external display interface control 1
        self.write_cmd_data(0x000D, 0x0000);  // frame marker position
        self.write_cmd_data(0x000F, 0x0000);  // external display interface control 2
        delay.delay_ms(50);
        self.write_cmd_data(0x0007, 0x0101);  // display control
        delay.delay_ms(50);
        self.write_cmd_data(0x0010, 0x16B0);  // power control 1
        self.write_cmd_data(0x0011, 0x0001);  // power control 2
        self.write_cmd_data(0x0017, 0x0001);  // power control 3
        self.write_cmd_data(0x0012, 0x0138);  // power control 4
        self.write_cmd_data(0x0013, 0x0800);  // power control 5
        self.write_cmd_data(0x0029, 0x0009);  // NVM read data 2
        self.write_cmd_data(0x002A, 0x0009);  // NVM read data 3
        self.write_cmd_data(0x00A4, 0x0000);
        self.write_cmd_data(0x0050, 0x0000);  // horizontal start address
        self.write_cmd_data(0x0051, self.width - 1);  // horizontal end address
        self.write_cmd_data(0x0052, 0x0000);  // vertical start address
        self.write_cmd_data(0x0053, self.height - 1);  // vertical end address
        self.write_cmd_data(0x0060, 0xA700);  // driver output control
        self.write_cmd_data(0x0061, 0x0003);  // driver output control
        self.write_cmd_data(0x006A, 0x0000);  // vertical scroll control
        self.write_cmd_data(0x0080, 0x0000);  // partial display 1 position
        self.write_cmd_data(0x0081, 0x0000);  // partial display 1 RAM start
        self.write_cmd_data(0x0082, 0x0000);  // partial display 1 RAM end
        self.write_cmd_data(0x0083, 0x0000);  // partial display 2 position
        self.write_cmd_data(0x0084, 0x0000);  // partial display 2 RAM start
        self.write_cmd_data(0x0085, 0x0000);  // partial display 2 RAM end
        self.write_cmd_data(0x0090, 0x0013);  // frame cycle control
        self.write_cmd_data(0x0092, 0x0000);  // panel interface control 2
        self.write_cmd_data(0x0093, 0x0003);  // panel interface control 3
        self.write_cmd_data(0x0095, 0x0110);  // frame cycle control
        self.write_cmd_data(0x0007, 0x0173);  // display on
        proof {
            broadcast use {Seq::<_>::add_empty_right, Seq::<_>::push_distributes_over_add};

            assert(self.log() =~= old(self).log() + init_events(
                old(self).spec_width(),
                old(self).spec_height(),
            ));
        }
    }

    /// Read-only access to the owned transport, e.g. for pixel pushes that
    /// sit outside this core.
    pub fn transport(&self) -> (r: &T)
        ensures
            r.log() == self.log(),
            r.next_read() == self.next_read(),
    {
        &self.iface
    }
}

} // verus!
