use hih6030::decode::decode;
use hih6030::driver::{next_action, Action, Event, ADDRESS, RESPONSE_LEN, TRIGGER};
use hih6030::{hih6030 as Driver, Error, Measurement, Status};

#[derive(Debug, PartialEq)]
enum Transfer {
    Write(u8, Vec<u8>),
    Read(u8, usize),
}

struct FakeBus {
    log: Vec<Transfer>,
    write_fails: bool,
    read_fails: bool,
    response: [u8; 4],
}

fn fake(write_fails: bool, read_fails: bool, response: [u8; 4]) -> FakeBus {
    FakeBus { log: Vec::new(), write_fails, read_fails, response }
}

fn run(d: &mut Driver<FakeBus>) -> Result<Measurement, Error<u8>> {
    let mut action = d.meas_req::<u8>();
    loop {
        action = match action {
            Action::Write { address, command } => {
                let bus = d.bus();
                bus.log.push(Transfer::Write(address, vec![command]));
                let w = if bus.write_fails { Err(1u8) } else { Ok(()) };
                d.data_fetch(w)
            }
            Action::Read { address } => {
                let bus = d.bus();
                bus.log.push(Transfer::Read(address, RESPONSE_LEN));
                let mut buf = [0u8; RESPONSE_LEN];
                let r = if bus.read_fails {
                    Err(2u8)
                } else {
                    buf = bus.response;
                    Ok(())
                };
                next_action(address, Event::Fetched(r, buf))
            }
            Action::Finish(result) => return result,
        };
    }
}

#[test]
fn new_binds_fixed_address_and_sends_nothing() {
    let mut d = Driver::new::<u8>(fake(false, false, [0; 4])).unwrap();
    assert_eq!(d.address(), 0x27);
    assert_eq!(ADDRESS, 0x27);
    assert!(d.bus().log.is_empty());
}

#[test]
fn request_is_trigger_byte_to_address() {
    let d = Driver::new::<u8>(fake(false, false, [0; 4])).unwrap();
    assert!(matches!(d.meas_req::<u8>(), Action::Write { address: 0x27, command: 0xFF }));
    assert_eq!(TRIGGER, 0xFF);
}

#[test]
fn fetch_follows_only_a_successful_write() {
    let d = Driver::new::<u8>(fake(false, false, [0; 4])).unwrap();
    assert!(matches!(d.data_fetch::<u8>(Ok(())), Action::Read { address: 0x27 }));
    assert!(matches!(d.data_fetch(Err(5u8)), Action::Finish(Err(Error::BusWrite(5)))));
}

#[test]
fn next_action_covers_each_event() {
    assert!(matches!(next_action::<u8>(0x27, Event::Begin), Action::Write { address: 0x27, command: 0xFF }));
    assert!(matches!(next_action::<u8>(0x11, Event::Written(Ok(()))), Action::Read { address: 0x11 }));
    assert!(matches!(next_action(0x27, Event::Written(Err(4u8))), Action::Finish(Err(Error::BusWrite(4)))));
    assert!(matches!(
        next_action(0x27, Event::Fetched(Err(9u8), [1, 2, 3, 4])),
        Action::Finish(Err(Error::BusRead(9)))
    ));
    match next_action::<u8>(0x27, Event::Fetched(Ok(()), [0x40, 0x10, 0x20, 0x30])) {
        Action::Finish(Ok(m)) => assert_eq!(m, decode([0x40, 0x10, 0x20, 0x30])),
        other => panic!("expected a measurement, got {:?}", other),
    }
}

#[test]
fn failed_write_skips_read() {
    let mut d = Driver::new::<u8>(fake(true, false, [0; 4])).unwrap();
    let r = run(&mut d);
    assert!(matches!(r, Err(Error::BusWrite(1))));
    assert_eq!(d.bus().log, vec![Transfer::Write(0x27, vec![0xFF])]);
}

#[test]
fn failed_read_reports_bus_read() {
    let mut d = Driver::new::<u8>(fake(false, true, [0; 4])).unwrap();
    let r = run(&mut d);
    assert!(matches!(r, Err(Error::BusRead(2))));
    assert_eq!(
        d.bus().log,
        vec![Transfer::Write(0x27, vec![0xFF]), Transfer::Read(0x27, 4)]
    );
}

#[test]
fn successive_measurements_are_independent() {
    let mut d = Driver::new::<u8>(fake(true, false, [0x7F, 0xFF, 0xFF, 0xFF])).unwrap();
    assert!(run(&mut d).is_err());
    d.bus().write_fails = false;
    d.bus().log.clear();
    let first = run(&mut d).unwrap();
    let second = run(&mut d).unwrap();
    assert_eq!(first, second);
    assert_eq!(first.status, Status::StaleData);
    assert_eq!(
        d.bus().log,
        vec![
            Transfer::Write(0x27, vec![0xFF]),
            Transfer::Read(0x27, 4),
            Transfer::Write(0x27, vec![0xFF]),
            Transfer::Read(0x27, 4),
        ]
    );
    assert_eq!(d.address(), 0x27);
}
