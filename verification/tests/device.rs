use jsy_mk_194::error::{UartError, UartErrorKind};
use jsy_mk_194::{ChangeBitrate, Delay, JsyMk194, Uart, READ_DATA_SIZE, SEGMENT_READ, SEGMENT_WRITE_CHANGE_BIT_RATE};

/// When put in `segment_read`, `Uart::read` returns Ok with a full frame.
const READ_DATA_OK: [u8; READ_DATA_SIZE] = [
    0x01, 0x03, 0x38, 0x00, 0x24, 0x8E, 0x5F, 0x00, 0x00, 0x94, 0x0B, 0x00, 0x8A, 0xC4, 0xAA, 0x00,
    0x00, 0x2D, 0xB4, 0x00, 0x00, 0x03, 0xE8, 0x00, 0x00, 0x26, 0x16, 0x01, 0x01, 0x00, 0x00, 0x00,
    0x00, 0x13, 0x8B, 0x00, 0x24, 0x8E, 0x5F, 0x00, 0x00, 0x94, 0x0A, 0x00, 0x8A, 0x92, 0xD7, 0x00,
    0x00, 0x2D, 0xB4, 0x00, 0x00, 0x03, 0xE8, 0x00, 0x00, 0x26, 0x20, 0x87, 0xB2,
];

/// When put in `segment_read`, `Uart::read` returns Ok with a full frame.
const READ_DATA_OK_2: [u8; READ_DATA_SIZE] = [
    0x01, 0x03, 0x38, 0x00, 0x23, 0xCF, 0x24, 0x00, 0x00, 0x03, 0xFD, 0x00, 0x02, 0x1F, 0x95, 0x00,
    0x00, 0x00, 0x00, 0x00, 0x00, 0x02, 0x45, 0x00, 0x00, 0x00, 0x00, 0x01, 0x00, 0x00, 0x00, 0x00,
    0x00, 0x13, 0x89, 0x00, 0x23, 0xCF, 0x24, 0x00, 0x00, 0x00, 0x00, 0x00, 0x00, 0x00, 0x00, 0x00,
    0x00, 0x00, 0x00, 0x00, 0x00, 0x00, 0x00, 0x00, 0x00, 0x00, 0x00, 0x79, 0xB0,
];

/// When put in `segment_read`, the session's `read` reports a bad checksum.
const READ_DATA_BAD_CRC: [u8; READ_DATA_SIZE] = [
    0x01, 0x03, 0x38, 0x00, 0x24, 0x8E, 0x5F, 0x00, 0x00, 0x94, 0x0B, 0x00, 0x8A, 0xC4, 0xAA, 0x00,
    0x00, 0x2D, 0xB4, 0x00, 0x00, 0x03, 0xE8, 0x00, 0x00, 0x26, 0x16, 0x01, 0x01, 0x00, 0x00, 0x00,
    0x00, 0x13, 0x8B, 0x00, 0x24, 0x8E, 0x5F, 0x00, 0x00, 0x94, 0x0A, 0x00, 0x8A, 0x92, 0xD7, 0x00,
    0x00, 0x2D, 0xB4, 0x00, 0x00, 0x03, 0xE8, 0x00, 0x00, 0x26, 0x20, 0x99, 0x99,
];

/// When put in `segment_read`, `Uart::read` returns Err.
const READ_DATA_ERROR: [u8; READ_DATA_SIZE] = [0xff; READ_DATA_SIZE];

/// When put in `segment_read`, `Uart::read` returns a wrong byte count.
const READ_DATA_WRONG_SIZE: [u8; READ_DATA_SIZE] = [0x01; READ_DATA_SIZE];

/// When put in `segment_write`, `Uart::write` returns Ok.
const WRITE_DATA_OK: [u8; SEGMENT_WRITE_CHANGE_BIT_RATE] = [0; SEGMENT_WRITE_CHANGE_BIT_RATE];

/// When put in `segment_write`, `Uart::write` returns Err.
const WRITE_DATA_ERROR: [u8; SEGMENT_WRITE_CHANGE_BIT_RATE] = [0xff; SEGMENT_WRITE_CHANGE_BIT_RATE];

pub struct UartTestImpl {
    pub segment_write: [u8; SEGMENT_WRITE_CHANGE_BIT_RATE],
    pub segment_write_len: usize,
    pub segment_read: [u8; READ_DATA_SIZE],
}

impl Uart for UartTestImpl {
    fn read(&mut self, buf: &mut [u8; SEGMENT_READ], _timeout: u32) -> Result<usize, UartError> {
        match self.segment_read {
            READ_DATA_WRONG_SIZE => Ok(1),
            READ_DATA_ERROR => Err(UartError::new(
                UartErrorKind::ReadInsuffisantBytes,
                "Error read".to_string(),
            )),
            _ => {
                for (index, data) in self.segment_read.into_iter().enumerate() {
                    buf[index] = data;
                }

                Ok(self.segment_read.len())
            }
        }
    }

    fn write(&mut self, bytes: &[u8]) -> Result<usize, UartError> {
        self.segment_write_len = bytes.len();

        if self.segment_write == WRITE_DATA_ERROR {
            return Err(UartError::new(
                UartErrorKind::WriteInsuffisantBytes,
                "Error write".to_string(),
            ));
        }

        for (index, data) in bytes.iter().enumerate() {
            self.segment_write[index] = *data;
        }

        Ok(bytes.len())
    }
}

pub struct DelayTestImpl {}

impl Delay for DelayTestImpl {
    fn delay_ms(&mut self, _ms: u16) {
        // Do nothing
    }
}

fn setup(
    read_data: [u8; READ_DATA_SIZE],
    write_data: [u8; SEGMENT_WRITE_CHANGE_BIT_RATE],
) -> JsyMk194<UartTestImpl, DelayTestImpl> {
    let uart = UartTestImpl {
        segment_write: write_data,
        segment_read: read_data,
        segment_write_len: 0,
    };

    let delay = DelayTestImpl {};
    JsyMk194::new(uart, delay)
}

#[test]
fn test_read_ok() {
    let mut device = setup(READ_DATA_OK, WRITE_DATA_OK);

    assert!(device.read().is_ok());

    let voltage_1 = device.channel1.voltage() as f32 * 0.0001;
    let current_1 = device.channel1.current() as f32 * 0.0001;
    let power_1 = device.channel1.power() as f32 * 0.0001;
    let positive_energy_1 = device.channel1.positive_energy() as f32 * 0.0001;
    let negative_energy_1 = device.channel1.negative_energy() as f32 * 0.0001;
    let factor_1 = device.channel1.factor() as f32 * 0.001;

    let voltage_2 = device.channel2.voltage() as f32 * 0.0001;
    let current_2 = device.channel2.current() as f32 * 0.0001;
    let power_2 = device.channel2.power() as f32 * 0.0001;
    let positive_energy_2 = device.channel2.positive_energy() as f32 * 0.0001;
    let negative_energy_2 = device.channel2.negative_energy() as f32 * 0.0001;
    let factor_2 = device.channel2.factor() as f32 * 0.001;

    let frequency = device.frequency() as f32 * 0.01;

    assert_eq!(voltage_1, 239.574_3);
    assert_eq!(current_1, 3.789_899_8);
    assert_eq!(power_1, -909.431_4);
    assert_eq!(positive_energy_1, 1.17);
    assert_eq!(negative_energy_1, 0.974_999_96);
    assert_eq!(factor_1, 1.0);

    assert_eq!(voltage_2, 239.574_3);
    assert_eq!(current_2, 3.789_8);
    assert_eq!(power_2, -908.155_9);
    assert_eq!(positive_energy_2, 1.17);
    assert_eq!(negative_energy_2, 0.975_999_95);
    assert_eq!(factor_2, 1.0);

    assert_eq!(frequency, 50.03);
}

#[test]
fn test_read_ok_2() {
    let mut device = setup(READ_DATA_OK_2, WRITE_DATA_OK);

    assert!(device.read().is_ok());

    let voltage_1 = device.channel1.voltage() as f32 * 0.0001;
    let current_1 = device.channel1.current() as f32 * 0.0001;
    let power_1 = device.channel1.power() as f32 * 0.0001;
    let positive_energy_1 = device.channel1.positive_energy() as f32 * 0.0001;
    let negative_energy_1 = device.channel1.negative_energy() as f32 * 0.0001;
    let factor_1 = device.channel1.factor() as f32 * 0.001;

    let voltage_2 = device.channel2.voltage() as f32 * 0.0001;
    let current_2 = device.channel2.current() as f32 * 0.0001;
    let power_2 = device.channel2.power() as f32 * 0.0001;
    let positive_energy_2 = device.channel2.positive_energy() as f32 * 0.0001;
    let negative_energy_2 = device.channel2.negative_energy() as f32 * 0.0001;
    let factor_2 = device.channel2.factor() as f32 * 0.001;

    let frequency = device.frequency() as f32 * 0.01;

    assert_eq!(voltage_1, 234.678_79);
    assert_eq!(current_1, 0.1021);
    assert_eq!(power_1, -13.9157);
    assert_eq!(positive_energy_1, 0.0);
    assert_eq!(negative_energy_1, 0.0);
    assert_eq!(factor_1, 0.58100003);

    assert_eq!(voltage_2, 234.678_79);
    assert_eq!(current_2, 0.0);
    assert_eq!(power_2, 0.0);
    assert_eq!(positive_energy_2, 0.0);
    assert_eq!(negative_energy_2, 0.0);
    assert_eq!(factor_2, 0.0);

    assert_eq!(frequency, 50.01);
}

#[test]
fn test_jsk_mk_196_read_method_return_error_cause_write_to_device_return_error() {
    let mut device = setup(READ_DATA_OK, WRITE_DATA_ERROR);

    match device.read() {
        Ok(()) => panic!(),
        Err(e) => assert_eq!(e.kind, UartErrorKind::WriteInsuffisantBytes),
    };
}

#[test]
fn test_jsk_mk_196_read_method_return_error_cause_read_to_device_return_error() {
    let mut device = setup(READ_DATA_ERROR, WRITE_DATA_OK);

    match device.read() {
        Ok(()) => panic!(),
        Err(e) => assert_eq!(e.kind, UartErrorKind::ReadInsuffisantBytes),
    };
}

#[test]
fn test_jsk_mk_196_read_method_return_error_cause_read_to_device_return_wrong_size() {
    let mut device = setup(READ_DATA_WRONG_SIZE, WRITE_DATA_OK);

    match device.read() {
        Ok(()) => panic!(),
        Err(e) => assert_eq!(e.kind, UartErrorKind::ReadInsuffisantBytes),
    };
}

#[test]
fn test_jsk_mk_196_change_bitrate_method_return_true() {
    let mut device = setup(READ_DATA_OK, WRITE_DATA_OK);

    assert!(device.change_bitrate(ChangeBitrate::B9600).is_ok());

    assert_eq!(device.get_uart().segment_write_len, SEGMENT_WRITE_CHANGE_BIT_RATE);
    assert_eq!(
        device.get_uart().segment_write,
        [0x00, 0x10, 0x00, 0x04, 0x00, 0x01, 0x02, 0x01, 0x06, 0x2b, 0xd6]
    );
}

#[test]
fn test_crc() {
    assert!(jsy_mk_194::is_crc_ok(&READ_DATA_OK));
    assert!(jsy_mk_194::is_crc_ok(&READ_DATA_OK_2));
}

#[test]
fn test_jsk_mk_196_read_method_return_error_cause_read_to_device_return_bad_crc() {
    let mut device = setup(READ_DATA_BAD_CRC, WRITE_DATA_OK);

    match device.read() {
        Ok(()) => panic!(),
        Err(e) => assert_eq!(e.kind, UartErrorKind::BadCrc),
    };
}

#[test]
fn test_jsk_mk_196_read_method_return_ok_when_read_to_device_return_bad_crc() {
    let uart = UartTestImpl {
        segment_write: WRITE_DATA_OK,
        segment_read: READ_DATA_BAD_CRC,
        segment_write_len: 0,
    };

    let delay = DelayTestImpl {};

    let mut device = JsyMk194::new_without_crc_check(uart, delay);

    if device.read().is_err() {
        panic!();
    }
}

#[test]
fn test_read_bad_crc_preserves_previous_state() {
    let mut device = setup(READ_DATA_OK, WRITE_DATA_OK);

    assert!(device.read().is_ok());
    let voltage_before = device.channel1.voltage();
    let power_before = device.channel1.power();
    let frequency_before = device.frequency();

    device.uart.segment_read = READ_DATA_BAD_CRC;
    match device.read() {
        Ok(()) => panic!(),
        Err(e) => assert_eq!(e.kind, UartErrorKind::BadCrc),
    };

    assert_eq!(device.channel1.voltage(), voltage_before);
    assert_eq!(device.channel1.power(), power_before);
    assert_eq!(device.frequency(), frequency_before);
    assert_eq!(device.channel2.voltage(), voltage_before);
}

#[test]
fn test_read_wrong_size_reports_actual_count() {
    let mut device = setup(READ_DATA_WRONG_SIZE, WRITE_DATA_OK);

    match device.read() {
        Ok(()) => panic!(),
        Err(e) => {
            assert_eq!(e.kind, UartErrorKind::ReadInsuffisantBytes);
            assert_eq!(e.expected_len, READ_DATA_SIZE);
            assert_eq!(e.actual_len, 1);
        }
    };
}

#[test]
fn test_read_twice_same_frame_identical_state() {
    let mut device = setup(READ_DATA_OK, WRITE_DATA_OK);

    assert!(device.read().is_ok());
    let first: [i64; 13] = [
        device.channel1.voltage() as i64,
        device.channel1.current() as i64,
        device.channel1.power(),
        device.channel1.positive_energy() as i64,
        device.channel1.negative_energy() as i64,
        device.channel1.factor() as i64,
        device.channel2.voltage() as i64,
        device.channel2.current() as i64,
        device.channel2.power(),
        device.channel2.positive_energy() as i64,
        device.channel2.negative_energy() as i64,
        device.channel2.factor() as i64,
        device.frequency() as i64,
    ];

    assert!(device.read().is_ok());
    let second: [i64; 13] = [
        device.channel1.voltage() as i64,
        device.channel1.current() as i64,
        device.channel1.power(),
        device.channel1.positive_energy() as i64,
        device.channel1.negative_energy() as i64,
        device.channel1.factor() as i64,
        device.channel2.voltage() as i64,
        device.channel2.current() as i64,
        device.channel2.power(),
        device.channel2.positive_energy() as i64,
        device.channel2.negative_energy() as i64,
        device.channel2.factor() as i64,
        device.frequency() as i64,
    ];

    assert_eq!(first, second);
}

#[test]
fn test_change_bitrate_write_error_is_wrapped() {
    let mut device = setup(READ_DATA_OK, WRITE_DATA_ERROR);

    match device.change_bitrate(ChangeBitrate::B19200) {
        Ok(()) => panic!(),
        Err(e) => assert_eq!(e.parent.kind, UartErrorKind::WriteInsuffisantBytes),
    };
}

#[test]
fn test_accessors_before_first_read_return_zero() {
    let device = setup(READ_DATA_OK, WRITE_DATA_OK);

    assert_eq!(device.channel1.voltage(), 0);
    assert_eq!(device.channel1.current(), 0);
    assert_eq!(device.channel1.power(), 0);
    assert_eq!(device.channel1.positive_energy(), 0);
    assert_eq!(device.channel1.negative_energy(), 0);
    assert_eq!(device.channel1.factor(), 0);
    assert_eq!(device.channel2.voltage(), 0);
    assert_eq!(device.channel2.power(), 0);
    assert_eq!(device.frequency(), 0);
}
