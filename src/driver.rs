use vstd::prelude::*;
use crate::decode::{decode, decode_spec, Measurement};

verus! {

/// Seven-bit bus address of the sensor.
pub const ADDRESS: u8 = 0x27;

/// Command byte that triggers a conversion.
pub const TRIGGER: u8 = 0xFF;

/// Number of bytes in a response.
pub const RESPONSE_LEN: usize = 4;

/// Failure of a measurement, carrying the transport's own error.
#[derive(Debug)]
pub enum Error<E> {
    /// The trigger command could not be written.
    BusWrite(E),
    /// The response could not be read.
    BusRead(E),
}

/// A transaction for the caller to perform on the bus, or the end of the
/// measurement with its result.
#[derive(Debug)]
pub enum Action<E> {
    /// Write the single byte `command` to `address`.
    Write { address: u8, command: u8 },
    /// Read `RESPONSE_LEN` bytes from `address`.
    Read { address: u8 },
    /// The measurement is over.
    Finish(Result<Measurement, Error<E>>),
}

/// What the caller hands back: the start of a measurement, or the outcome of
/// the transaction that the last action asked for.
#[derive(Debug)]
pub enum Event<E> {
    /// A measurement begins.
    Begin,
    /// The trigger write completed with this outcome.
    Written(Result<(), E>),
    /// The response read completed with this outcome, into these bytes.
    Fetched(Result<(), E>, [u8; 4]),
}

/// The action that follows `event` in a measurement on the sensor at `address`.
pub open spec fn next_action_spec<E>(address: u8, event: Event<E>) -> Action<E> {
    match event {
        Event::Begin => Action::Write { address, command: TRIGGER },
        Event::Written(Ok(())) => Action::Read { address },
        Event::Written(Err(e)) => Action::Finish(Err(Error::BusWrite(e))),
        Event::Fetched(Ok(()), buf) => Action::Finish(Ok(decode_spec(buf))),
        Event::Fetched(Err(e), _) => Action::Finish(Err(Error::BusRead(e))),
    }
}

/// The actions of one measurement, in order, when the write completes with
/// `w` and, if a read is asked for, the read completes with `r` into `buf`.
pub open spec fn session_spec<E>(address: u8, w: Result<(), E>, r: Result<(), E>, buf: [u8; 4]) -> Seq<Action<E>> {
    let request = next_action_spec(address, Event::Begin);
    let after_write = next_action_spec(address, Event::Written(w));
    if after_write is Read {
        seq![request, after_write, next_action_spec(address, Event::Fetched(r, buf))]
    } else {
        seq![request, after_write]
    }
}

/// Decides the next step of a measurement: the trigger write first; the
/// read only after a successful write; then the result. A failed write ends
/// the measurement with `BusWrite`, a failed read with `BusRead`.
pub fn next_action<E>(address: u8, event: Event<E>) -> (a: Action<E>)
    ensures
        a == next_action_spec(address, event),
{
    match event {
        Event::Begin => Action::Write { address, command: TRIGGER },
        Event::Written(Ok(())) => Action::Read { address },
        Event::Written(Err(e)) => Action::Finish(Err(Error::BusWrite(e))),
        Event::Fetched(Ok(()), buf) => Action::Finish(Ok(decode(buf))),
        Event::Fetched(Err(e), _) => Action::Finish(Err(Error::BusRead(e))),
    }
}

/// A failed trigger write ends the measurement with `BusWrite` carrying the
/// transport's error, and no read is attempted after it.
pub proof fn lemma_failed_write_skips_read<E>(address: u8, e: E, r: Result<(), E>, buf: [u8; 4])
    ensures
        session_spec(address, Err(e), r, buf) =~= seq![
            Action::Write { address, command: TRIGGER },
            Action::Finish(Err(Error::BusWrite(e))),
        ],
        forall|i: int|
            0 <= i < session_spec(address, Err(e), r, buf).len()
                ==> !(#[trigger] session_spec(address, Err(e), r, buf)[i] is Read),
{
}

/// A successful trigger write followed by a failed read ends the measurement
/// with `BusRead` carrying the transport's error.
pub proof fn lemma_failed_read_reports_bus_read<E>(address: u8, e: E, buf: [u8; 4])
    ensures
        session_spec(address, Ok(()), Err(e), buf).last() == Action::<E>::Finish(
            Err(Error::BusRead(e)),
        ),
{
}

/// Every measurement whose write and read succeed performs exactly one write
/// of the trigger command followed by exactly one read, then yields the
/// decoded response. The actions depend on nothing but the address and the
/// outcomes of this measurement's own transactions, so an earlier
/// measurement, whatever its outcomes, does not change those of a later one.
pub proof fn lemma_sessions_independent<E>(
    address: u8,
    w1: Result<(), E>,
    r1: Result<(), E>,
    buf1: [u8; 4],
    buf2: [u8; 4],
)
    ensures
        session_spec::<E>(address, Ok(()), Ok(()), buf2) =~= seq![
            Action::<E>::Write { address, command: TRIGGER },
            Action::<E>::Read { address },
            Action::<E>::Finish(Ok(decode_spec(buf2))),
        ],
        session_spec(address, w1, r1, buf1)[0] == session_spec::<E>(address, Ok(()), Ok(()), buf2)[0],
{
}

/// HIH6030 driver: the bus handle and the sensor's fixed address.
#[allow(non_camel_case_types)]
pub struct hih6030<I2C> {
    i2c: I2C,
    address: u8,
}

impl<I2C> hih6030<I2C> {
    /// Creates a driver on a bus handle. Nothing is sent on the bus.
    pub fn new<E>(i2c: I2C) -> (r: Result<Self, E>)
        ensures
            r matches Ok(d) && d.bus_address() == ADDRESS,
    {
        Ok(hih6030 { i2c, address: ADDRESS })
    }

    /// The address the driver talks to.
    pub closed spec fn bus_address(&self) -> u8 {
        self.address
    }

    /// The bus handle, for the transactions of a measurement. The address
    /// stays as it is.
    pub fn bus(&mut self) -> (r: &mut I2C)
        ensures
            final(self).bus_address() == old(self).bus_address(),
    {
        &mut self.i2c
    }

    /// Request phase: the trigger command written to the sensor's address,
    /// the first transaction of every measurement.
    pub fn meas_req<E>(&self) -> (a: Action<E>)
        ensures
            a == next_action_spec::<E>(self.bus_address(), (Event::Begin)),
            a == (Action::<E>::Write { address: self.bus_address(), command: TRIGGER }),
    {
        next_action(self.address, Event::Begin)
    }

    /// Fetch phase: given the outcome of the trigger write, the read of the
    /// response from the sensor's address, or, after a failed write, the end
    /// of the measurement with `BusWrite`.
    pub fn data_fetch<E>(&self, written: Result<(), E>) -> (a: Action<E>)
        ensures
            a == next_action_spec(self.bus_address(), Event::Written(written)),
            written is Ok ==> a == (Action::<E>::Read { address: self.bus_address() }),
            (written matches Err(e) ==> a == Action::<E>::Finish(Err(Error::BusWrite(e)))),
    {
        next_action(self.address, Event::Written(written))
    }

    /// The address the driver talks to.
    pub fn address(&self) -> (r: u8)
        ensures
            r == self.bus_address(),
    {
        self.address
    }
}

} // verus!
