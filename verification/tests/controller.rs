use lcd_controller::Controller;
use lcd_controller::Delay;
use lcd_controller::DisplayIdentification;
use lcd_controller::Event;
use lcd_controller::Interface;
use lcd_controller::mock::MockDelay;
use lcd_controller::mock::MockInterface;
use std::cell::RefCell;
use std::rc::Rc;
use vstd::seq::Seq;

/// The full transport sequence `init` must emit for the given resolution:
/// the reset, then the datasheet register table as command/data pairs.
fn expected_init_events(width: u16, height: u16) -> Vec<Event> {
    let pairs: Vec<(u16, u16)> = vec![
        (0x0001, 0x0100),
        (0x0002, 0x0700),
        (0x0003, 0x1030),
        (0x0004, 0x0000),
        (0x0008, 0x0207),
        (0x0009, 0x0000),
        (0x000A, 0x0000),
        (0x000C, 0x0000),
        (0x000D, 0x0000),
        (0x000F, 0x0000),
        (0x0007, 0x0101),
        (0x0010, 0x16B0),
        (0x0011, 0x0001),
        (0x0017, 0x0001),
        (0x0012, 0x0138),
        (0x0013, 0x0800),
        (0x0029, 0x0009),
        (0x002A, 0x0009),
        (0x00A4, 0x0000),
        (0x0050, 0x0000),
        (0x0051, width - 1),
        (0x0052, 0x0000),
        (0x0053, height - 1),
        (0x0060, 0xA700),
        (0x0061, 0x0003),
        (0x006A, 0x0000),
        (0x0080, 0x0000),
        (0x0081, 0x0000),
        (0x0082, 0x0000),
        (0x0083, 0x0000),
        (0x0084, 0x0000),
        (0x0085, 0x0000),
        (0x0090, 0x0013),
        (0x0092, 0x0000),
        (0x0093, 0x0003),
        (0x0095, 0x0110),
        (0x0007, 0x0173),
    ];
    let mut events: Vec<Event> = vec![Event::Reset];
    for (command, data) in pairs {
        events.push(Event::Command(command));
        events.push(Event::Data(data));
    }
    events
}

#[test]
fn init_emits_datasheet_sequence() {
    let mut controller = Controller::new(MockInterface::new(0), 240, 320);
    let mut delay = MockDelay::new();
    controller.init(&mut delay);
    let expected = expected_init_events(240, 320);
    assert_eq!(expected.len(), 75);
    assert_eq!(controller.transport().events, expected);
    assert_eq!(delay.calls, vec![50u8, 50u8]);
}

#[test]
fn init_counts_match_protocol() {
    let mut controller = Controller::new(MockInterface::new(0), 240, 320);
    let mut delay = MockDelay::new();
    controller.init(&mut delay);
    let events = &controller.transport().events;
    let commands: usize = events
        .iter()
        .filter(|e| matches!(e, Event::Command(_)))
        .count();
    let datas: usize = events.iter().filter(|e| matches!(e, Event::Data(_))).count();
    let resets: usize = events.iter().filter(|e| matches!(e, Event::Reset)).count();
    assert_eq!(commands, 37);
    assert_eq!(datas, 37);
    assert_eq!(resets, 1);
    assert_eq!(events.len(), 75);
    assert_eq!(delay.calls.len(), 2);
}

#[test]
fn write_cmd_data_emits_adjacent_pair() {
    let mut controller = Controller::new(MockInterface::new(0), 240, 320);
    controller.write_cmd_data(0x1234, 0xABCD);
    assert_eq!(
        controller.transport().events,
        vec![Event::Command(0x1234), Event::Data(0xABCD)]
    );
    controller.write_cmd_data(0x0000, 0xFFFF);
    assert_eq!(
        controller.transport().events,
        vec![
            Event::Command(0x1234),
            Event::Data(0xABCD),
            Event::Command(0x0000),
            Event::Data(0xFFFF),
        ]
    );
}

#[test]
fn read_id_round_trips_mock_value() {
    for value in [0u16, 1, 0x1234, 0x9325, 0xFFFF] {
        let mut controller = Controller::new(MockInterface::new(value), 240, 320);
        let id = controller.read_id();
        assert_eq!(id.raw(), value);
        assert_eq!(
            controller.transport().events,
            vec![Event::Command(0x0000), Event::Read]
        );
    }
}

#[test]
fn default_identification_is_zero() {
    let id = DisplayIdentification::default();
    assert_eq!(id.raw(), 0);
}

#[test]
fn dimensions_return_constructor_values() {
    let controller = Controller::new(MockInterface::new(0), 123, 45);
    assert_eq!(controller.width(), 123);
    assert_eq!(controller.height(), 45);
}

#[test]
fn dimensions_unchanged_and_init_repeatable() {
    let mut controller = Controller::new(MockInterface::new(0), 240, 320);
    let mut delay = MockDelay::new();
    controller.init(&mut delay);
    assert_eq!(controller.width(), 240);
    assert_eq!(controller.height(), 320);
    controller.init(&mut delay);
    assert_eq!(controller.width(), 240);
    assert_eq!(controller.height(), 320);
    let events = &controller.transport().events;
    assert_eq!(events.len(), 150);
    assert_eq!(events[..75], events[75..]);
    assert_eq!(delay.calls, vec![50u8, 50u8, 50u8, 50u8]);
}

#[test]
fn window_addressing_carries_dimensions_minus_one() {
    let mut controller = Controller::new(MockInterface::new(0), 240, 320);
    let mut delay = MockDelay::new();
    controller.init(&mut delay);
    let events = &controller.transport().events;
    assert_eq!(events[41], Event::Command(0x0051));
    assert_eq!(events[42], Event::Data(239));
    assert_eq!(events[45], Event::Command(0x0053));
    assert_eq!(events[46], Event::Data(319));

    let mut tiny = Controller::new(MockInterface::new(0), 1, 1);
    let mut tiny_delay = MockDelay::new();
    tiny.init(&mut tiny_delay);
    let tiny_events = &tiny.transport().events;
    assert_eq!(tiny_events[42], Event::Data(0));
    assert_eq!(tiny_events[46], Event::Data(0));
}

/// One call as a transport or a delay provider sees it, recorded into a log
/// shared by both capabilities so that relative ordering is observable.
#[derive(Clone, Copy, Debug, PartialEq, Eq)]
enum Call {
    Command(u16),
    Data(u16),
    #[allow(dead_code)]
    Read,
    Reset,
    Delay(u8),
}

struct SharedIface {
    log: Rc<RefCell<Vec<Call>>>,
}

impl Interface for SharedIface {
    // the ghost history items survive compilation as trait items; they are
    // never called at run time
    fn log(&self) -> Seq<Event> {
        panic!()
    }

    fn next_read(&self) -> u16 {
        panic!()
    }

    fn write_command(&mut self, command: u16) {
        self.log.borrow_mut().push(Call::Command(command));
    }

    fn write_data(&mut self, data: u16) {
        self.log.borrow_mut().push(Call::Data(data));
    }

    fn read_data(&mut self, data: &mut u16) {
        *data = 0;
        self.log.borrow_mut().push(Call::Read);
    }

    fn reset(&mut self) {
        self.log.borrow_mut().push(Call::Reset);
    }
}

struct SharedDelay {
    log: Rc<RefCell<Vec<Call>>>,
}

impl Delay for SharedDelay {
    fn log(&self) -> Seq<u8> {
        panic!()
    }

    fn delay_ms(&mut self, ms: u8) {
        self.log.borrow_mut().push(Call::Delay(ms));
    }
}

#[test]
fn init_delays_sit_between_documented_writes() {
    let log: Rc<RefCell<Vec<Call>>> = Rc::new(RefCell::new(Vec::new()));
    let iface = SharedIface { log: Rc::clone(&log) };
    let mut delay = SharedDelay { log: Rc::clone(&log) };
    let mut controller = Controller::new(iface, 240, 320);
    controller.init(&mut delay);
    let calls = log.borrow();
    // reset plus ten register pairs, then the first pause
    assert_eq!(calls[0], Call::Reset);
    assert_eq!(calls[21], Call::Delay(50));
    // the display-control pair, then the second pause
    assert_eq!(calls[22], Call::Command(0x0007));
    assert_eq!(calls[23], Call::Data(0x0101));
    assert_eq!(calls[24], Call::Delay(50));
    // no further pauses anywhere else
    let delays: Vec<usize> = calls
        .iter()
        .enumerate()
        .filter(|(_, c)| matches!(c, Call::Delay(_)))
        .map(|(i, _)| i)
        .collect();
    assert_eq!(delays, vec![21usize, 24usize]);
    assert_eq!(calls.len(), 77);
}
