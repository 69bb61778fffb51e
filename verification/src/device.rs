//! The device session: the transport and delay collaborator traits, the
//! per-channel measurement state, the command builder and the orchestration
//! of one request/response exchange.
use vstd::prelude::*;

verus! {

use crate::codec::data_at;
use crate::codec::get_data;
use crate::codec::power;
use crate::codec::signed_power_at;
use crate::crc::crc_always_ok;
use crate::crc::crc_matches;
use crate::crc::is_crc_ok;
use crate::error::ChangeBitrateError;
use crate::error::UartError;
use crate::error::UartErrorKind;
use crate::CHANNEL_1_OFFSET;
use crate::CHANNEL_2_OFFSET;
use crate::CURRENT;
use crate::FACTOR;
use crate::FREQUENCY;
use crate::NEGATIVE_ENERGY;
use crate::POSITIVE_ENERGY;
use crate::POWER;
use crate::POWER_SIGN_1;
use crate::POWER_SIGN_2;
use crate::READ_DATA_SIZE;
use crate::SEGMENT_READ;
use crate::SEGMENT_WRITE;
use crate::SEGMENT_WRITE_CHANGE_BIT_RATE;
use crate::VOLTAGE;

/// The link bitrates the meter can be switched to.
pub enum ChangeBitrate {
    B4800,
    B9600,
    B19200,
    B38400,
}

/// The byte transport to the meter, supplied by a platform-specific adapter.
///
/// `read` places the received bytes at the start of `buf` and reports how
/// many arrived; `write` reports how many bytes left.  The session assumes
/// nothing of either call: its own contracts state what it does for every
/// outcome.
pub trait Uart {
    /// Reads bytes into the start of `buf`, giving up after `timeout`
    /// milliseconds.
    fn read(&mut self, buf: &mut [u8; SEGMENT_READ], timeout: u32) -> Result<usize, UartError>;

    /// Writes the bytes of `bytes` and reports how many were written.
    fn write(&mut self, bytes: &[u8]) -> Result<usize, UartError>;
}

/// The blocking pause collaborator, supplied by a platform-specific adapter.
pub trait Delay {
    /// Pauses execution for `ms` milliseconds.
    fn delay_ms(&mut self, ms: u16);
}

/// The fixed 8-byte read-measurements request.
pub open spec fn read_command_spec() -> Seq<u8> {
    seq![0x01u8, 0x03, 0x00, 0x48, 0x00, 0x0e, 0x44, 0x18]
}

/// The three bytes that select a bitrate: the value byte and the two
/// precomputed checksum bytes of the resulting request.  They are protocol
/// constants, never recomputed.
pub open spec fn bitrate_suffix(rate: ChangeBitrate) -> (u8, u8, u8) {
    match rate {
        ChangeBitrate::B4800 => (0x05, 0x6b, 0xd7),
        ChangeBitrate::B9600 => (0x06, 0x2b, 0xd6),
        ChangeBitrate::B19200 => (0x07, 0xea, 0x16),
        ChangeBitrate::B38400 => (0x08, 0xaa, 0x12),
    }
}

/// The complete 11-byte change-bitrate request for `rate`.
pub open spec fn bitrate_command_spec(rate: ChangeBitrate) -> Seq<u8> {
    seq![
        0x00u8,
        0x10,
        0x00,
        0x04,
        0x00,
        0x01,
        0x02,
        0x01,
        bitrate_suffix(rate).0,
        bitrate_suffix(rate).1,
        bitrate_suffix(rate).2,
    ]
}

/// Builds the change-bitrate request for `new_bitrate`.
pub fn bitrate_command(new_bitrate: &ChangeBitrate) -> (segment: [u8; SEGMENT_WRITE_CHANGE_BIT_RATE])
    ensures
        segment@ == bitrate_command_spec(*new_bitrate),
{
    let mut segment: [u8; SEGMENT_WRITE_CHANGE_BIT_RATE] = [
        0x00,
        0x10,
        0x00,
        0x04,
        0x00,
        0x01,
        0x02,
        0x01,
        0x00,
        0x00,
        0x00,
    ];
    match new_bitrate {
        ChangeBitrate::B9600 => update_segment(&mut segment, 0x06, 0x2b, 0xd6),
        ChangeBitrate::B19200 => update_segment(&mut segment, 0x07, 0xea, 0x16),
        ChangeBitrate::B38400 => update_segment(&mut segment, 0x08, 0xaa, 0x12),
        ChangeBitrate::B4800 => update_segment(&mut segment, 0x05, 0x6b, 0xd7),
    }
    proof {
        assert(segment@ =~= bitrate_command_spec(*new_bitrate));
    }
    segment
}

/// Writes the rate-selecting suffix into a change-bitrate request.
fn update_segment(
    data: &mut [u8; SEGMENT_WRITE_CHANGE_BIT_RATE],
    value: u8,
    crc1: u8,
    crc2: u8,
)
    ensures
        final(data)@ == old(data)@.update(8, value).update(9, crc1).update(10, crc2),
{
    data[8] = value;
    data[9] = crc1;
    data[10] = crc2;
}

/// Accepts a reported write length exactly when it matches the length of the
/// change-bitrate request; any other length is a write-size mismatch.
pub fn confirm_bitrate_write(write_size: usize) -> (r: Result<(), ChangeBitrateError>)
    ensures
        r is Ok <==> write_size == SEGMENT_WRITE_CHANGE_BIT_RATE,
        r matches Err(e) ==> e.parent.kind == UartErrorKind::WriteInsuffisantBytes
            && e.parent.expected_len == SEGMENT_WRITE_CHANGE_BIT_RATE && e.parent.actual_len
            == write_size,
{
    if write_size == SEGMENT_WRITE_CHANGE_BIT_RATE {
        Ok(())
    } else {
        Err(
            ChangeBitrateError::new(
                UartError::size_mismatch(
                    UartErrorKind::WriteInsuffisantBytes,
                    SEGMENT_WRITE_CHANGE_BIT_RATE,
                    write_size,
                ),
            ),
        )
    }
}

/// The last-decoded measurements of one metered line, held as the raw
/// integers of the wire format.
///
/// `voltage`, `current` and the two energies carry unit scale 0.0001,
/// `factor` carries 0.001; `power` carries 0.0001 and the sign taken from
/// the channel's direction flag.
pub struct Channel {
    pub data_offset: usize,
    pub power_sign: usize,
    pub voltage: u32,
    pub current: u32,
    pub positive_energy: u32,
    pub negative_energy: u32,
    pub power: i64,
    pub factor: u32,
}

impl Channel {
    /// Whether the channel's byte offsets lie inside a frame.
    pub open spec fn wf(self) -> bool {
        &&& self.data_offset + NEGATIVE_ENERGY + 3 < READ_DATA_SIZE
        &&& self.power_sign < READ_DATA_SIZE
    }

    /// Whether every measurement field is zero, as on a fresh channel.
    pub open spec fn cleared(self) -> bool {
        &&& self.voltage == 0
        &&& self.current == 0
        &&& self.positive_energy == 0
        &&& self.negative_energy == 0
        &&& self.power == 0
        &&& self.factor == 0
    }

    /// Whether the channel holds exactly the measurements that frame `f`
    /// stores at its offsets.
    pub open spec fn decoded_from(self, f: Seq<u8>) -> bool {
        &&& self.voltage == data_at(f, self.data_offset + VOLTAGE)
        &&& self.current == data_at(f, self.data_offset + CURRENT)
        &&& self.positive_energy == data_at(f, self.data_offset + POSITIVE_ENERGY)
        &&& self.negative_energy == data_at(f, self.data_offset + NEGATIVE_ENERGY)
        &&& self.factor == data_at(f, self.data_offset + FACTOR)
        &&& self.power == signed_power_at(f, self.data_offset + POWER, self.power_sign as int)
    }

    /// A fresh channel for the block at `data_offset` with the direction
    /// flag at `power_sign`; every measurement starts at zero.
    pub fn new(data_offset: usize, power_sign: usize) -> (c: Self)
        requires
            data_offset + NEGATIVE_ENERGY + 3 < READ_DATA_SIZE,
            power_sign < READ_DATA_SIZE,
        ensures
            c.wf(),
            c.cleared(),
            c.data_offset == data_offset,
            c.power_sign == power_sign,
    {
        Self {
            data_offset,
            power_sign,
            voltage: 0,
            current: 0,
            positive_energy: 0,
            negative_energy: 0,
            power: 0,
            factor: 0,
        }
    }

    /// The raw voltage (unit scale 0.0001 V).
    pub fn voltage(&self) -> (v: u32)
        ensures
            v == self.voltage,
    {
        self.voltage
    }

    /// The raw current (unit scale 0.0001 A).
    pub fn current(&self) -> (v: u32)
        ensures
            v == self.current,
    {
        self.current
    }

    /// The raw positive energy (unit scale 0.0001 kWh).
    pub fn positive_energy(&self) -> (v: u32)
        ensures
            v == self.positive_energy,
    {
        self.positive_energy
    }

    /// The raw negative energy (unit scale 0.0001 kWh).
    pub fn negative_energy(&self) -> (v: u32)
        ensures
            v == self.negative_energy,
    {
        self.negative_energy
    }

    /// The raw signed power (unit scale 0.0001 W).
    pub fn power(&self) -> (v: i64)
        ensures
            v == self.power,
    {
        self.power
    }

    /// The raw power factor (unit scale 0.001).
    pub fn factor(&self) -> (v: u32)
        ensures
            v == self.factor,
    {
        self.factor
    }

    /// Recomputes every measurement of this channel from the frame in
    /// `segment_read`; nothing of the prior values survives.
    fn update(&mut self, segment_read: &[u8; SEGMENT_READ])
        requires
            old(self).wf(),
        ensures
            final(self).wf(),
            final(self).data_offset == old(self).data_offset,
            final(self).power_sign == old(self).power_sign,
            final(self).decoded_from(segment_read@),
    {
        self.voltage = get_data(segment_read, self.data_offset + VOLTAGE);
        self.current = get_data(segment_read, self.data_offset + CURRENT);
        self.positive_energy = get_data(segment_read, self.data_offset + POSITIVE_ENERGY);
        self.negative_energy = get_data(segment_read, self.data_offset + NEGATIVE_ENERGY);
        self.factor = get_data(segment_read, self.data_offset + FACTOR);
        self.power = power(segment_read, self.data_offset + POWER, self.power_sign);
    }
}

/// The device session: owns the transport and delay collaborators, the
/// fixed read request and the last-committed measurement state.
pub struct JsyMk194<U, D> where U: Uart, D: Delay {
    pub uart: U,
    pub delay: D,
    pub segment_write: [u8; SEGMENT_WRITE],
    pub check_crc: bool,
    pub frequency: u32,
    pub channel1: Channel,
    pub channel2: Channel,
}

impl<U, D> JsyMk194<U, D> where U: Uart, D: Delay {
    /// Whether the session is laid out for the two channel blocks of the
    /// meter and carries the fixed read request.
    pub open spec fn wf(self) -> bool {
        &&& self.channel1.data_offset == CHANNEL_1_OFFSET
        &&& self.channel1.power_sign == POWER_SIGN_1
        &&& self.channel2.data_offset == CHANNEL_2_OFFSET
        &&& self.channel2.power_sign == POWER_SIGN_2
        &&& self.segment_write@ == read_command_spec()
    }

    /// Whether the committed state is exactly the decode of frame `f`: both
    /// channels and the frequency, all from the same frame.
    pub open spec fn committed_from(self, f: Seq<u8>) -> bool {
        &&& self.channel1.decoded_from(f)
        &&& self.channel2.decoded_from(f)
        &&& self.frequency == data_at(f, FREQUENCY as int)
    }

    /// A fresh session that validates the checksum of every frame.  All
    /// measurements start at zero.
    pub fn new(uart: U, delay: D) -> (device: Self)
        ensures
            device.wf(),
            device.check_crc == true,
            device.frequency == 0,
            device.channel1.cleared(),
            device.channel2.cleared(),
    {
        let device = Self {
            uart,
            delay,
            segment_write: [0x01, 0x03, 0x00, 0x48, 0x00, 0x0e, 0x44, 0x18],
            check_crc: true,
            channel1: Channel::new(CHANNEL_1_OFFSET, POWER_SIGN_1),
            channel2: Channel::new(CHANNEL_2_OFFSET, POWER_SIGN_2),
            frequency: 0,
        };
        proof {
            assert(device.segment_write@ =~= read_command_spec());
        }
        device
    }

    /// A fresh session that skips checksum validation, for module variants
    /// known not to populate it.  All measurements start at zero.
    pub fn new_without_crc_check(uart: U, delay: D) -> (device: Self)
        ensures
            device.wf(),
            device.check_crc == false,
            device.frequency == 0,
            device.channel1.cleared(),
            device.channel2.cleared(),
    {
        let device = Self {
            uart,
            delay,
            segment_write: [0x01, 0x03, 0x00, 0x48, 0x00, 0x0e, 0x44, 0x18],
            check_crc: false,
            channel1: Channel::new(CHANNEL_1_OFFSET, POWER_SIGN_1),
            channel2: Channel::new(CHANNEL_2_OFFSET, POWER_SIGN_2),
            frequency: 0,
        };
        proof {
            assert(device.segment_write@ =~= read_command_spec());
        }
        device
    }

    /// One full read exchange: writes the read request, reads the answer and
    /// hands it to [`Self::decode_response`].  On any failure the committed
    /// measurements stay exactly as they were; on success they are the
    /// decode of a full frame that, when checking is on, passed the
    /// checksum.
    pub fn read(&mut self) -> (r: Result<(), UartError>)
        requires
            old(self).wf(),
        ensures
            final(self).wf(),
            final(self).check_crc == old(self).check_crc,
            final(self).segment_write == old(self).segment_write,
            r is Err ==> final(self).channel1 == old(self).channel1 && final(self).channel2 == old(
                self,
            ).channel2 && final(self).frequency == old(self).frequency,
            r is Ok ==> exists|f: Seq<u8>|
                f.len() == SEGMENT_READ && #[trigger] final(self).committed_from(f) && (old(
                    self,
                ).check_crc ==> crc_matches(f.subrange(0, READ_DATA_SIZE as int))),
    {
        let w = self.uart.write(self.segment_write.as_slice());
        match w {
            Ok(_) => {},
            Err(e) => {
                return Err(e);
            },
        }

        let mut buf: [u8; SEGMENT_READ] = [0u8; 64];
        let is_read_data = self.uart.read(&mut buf, 100);

        match is_read_data {
            Ok(data_size) => {
                let r = self.decode_response(data_size, &buf);
                proof {
                    if r is Ok {
                        assert(self.committed_from(buf@));
                    }
                }
                r
            },
            Err(e) => Err(e),
        }
    }

    /// Judges and commits the transport's answer to a read request: `count`
    /// bytes placed at the start of `buf`.
    ///
    /// Succeeds exactly when the count is one full frame and, with checking
    /// on, the frame's checksum matches; then both channels and the
    /// frequency are recomputed from the frame, atomically.  A wrong count
    /// reports the expected and received counts; a checksum mismatch leaves
    /// every measurement untouched.
    pub fn decode_response(&mut self, count: usize, buf: &[u8; SEGMENT_READ]) -> (r: Result<
        (),
        UartError,
    >)
        requires
            old(self).wf(),
        ensures
            final(self).wf(),
            final(self).check_crc == old(self).check_crc,
            final(self).segment_write == old(self).segment_write,
            r is Ok <==> (count == READ_DATA_SIZE && (old(self).check_crc ==> crc_matches(
                buf@.subrange(0, READ_DATA_SIZE as int),
            ))),
            r is Ok ==> final(self).committed_from(buf@),
            r is Err ==> final(self).channel1 == old(self).channel1 && final(self).channel2 == old(
                self,
            ).channel2 && final(self).frequency == old(self).frequency,
            r matches Err(e) ==> if count != READ_DATA_SIZE {
                e.kind == UartErrorKind::ReadInsuffisantBytes && e.expected_len == READ_DATA_SIZE
                    && e.actual_len == count
            } else {
                e.kind == UartErrorKind::BadCrc
            },
    {
        if count != READ_DATA_SIZE {
            return Err(
                UartError::size_mismatch(
                    UartErrorKind::ReadInsuffisantBytes,
                    READ_DATA_SIZE,
                    count,
                ),
            );
        }

        let frame: &[u8] = &buf[0..READ_DATA_SIZE];
        let crc_good = if self.check_crc {
            is_crc_ok(frame)
        } else {
            crc_always_ok(frame)
        };

        if crc_good {
            self.channel1.update(buf);
            self.channel2.update(buf);
            self.frequency = get_data(buf, FREQUENCY);
            Ok(())
        } else {
            Err(UartError::from(UartErrorKind::BadCrc))
        }
    }

    /// The raw line frequency (unit scale 0.01 Hz).
    pub fn frequency(&self) -> (f: u32)
        ensures
            f == self.frequency,
    {
        self.frequency
    }

    /// Switches the meter's link bitrate: builds the change-bitrate request,
    /// waits the protocol-mandated settle pause, writes the request and
    /// checks the reported write length.  The committed measurements are
    /// never touched.
    pub fn change_bitrate(&mut self, new_bitrate: ChangeBitrate) -> (r: Result<
        (),
        ChangeBitrateError,
    >)
        requires
            old(self).wf(),
        ensures
            final(self).wf(),
            final(self).check_crc == old(self).check_crc,
            final(self).segment_write == old(self).segment_write,
            final(self).channel1 == old(self).channel1,
            final(self).channel2 == old(self).channel2,
            final(self).frequency == old(self).frequency,
    {
        let segment = bitrate_command(&new_bitrate);

        self.delay.delay_ms(1000);

        let result = self.uart.write(segment.as_slice());

        match result {
            Ok(write_size) => confirm_bitrate_write(write_size),
            Err(e) => Err(ChangeBitrateError::new(e)),
        }
    }

    /// Borrows the transport collaborator.
    pub fn get_uart(&self) -> &U {
        &self.uart
    }
}

/// Decoding is a function of the frame alone: two sessions that committed
/// the same frame hold the same measurements, whatever state either held
/// before.  In particular, reading the same frame twice in a row commits
/// identical state both times.
pub proof fn lemma_read_idempotent<U1: Uart, D1: Delay, U2: Uart, D2: Delay>(
    a: JsyMk194<U1, D1>,
    b: JsyMk194<U2, D2>,
    f: Seq<u8>,
)
    requires
        a.wf(),
        b.wf(),
        a.committed_from(f),
        b.committed_from(f),
    ensures
        a.channel1 == b.channel1,
        a.channel2 == b.channel2,
        a.frequency == b.frequency,
{
}

} // verus!
