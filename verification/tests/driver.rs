use lis302dl::{Action, Config, DataRate, Event, Lis302Dl, PowerMode, Scale};

/// A device on the far side of the bus: it holds register contents, follows
/// the chip-select line and keeps a record of what it was asked.
struct Device {
    registers: [u8; 128],
    selected: bool,
    exchanges_in_frame: usize,
    trace: Vec<Action>,
    fail_everything: bool,
}

impl Device {
    fn new() -> Device {
        let mut registers = [0u8; 128];
        registers[0x0F] = 0x3B;
        Device {
            registers,
            selected: false,
            exchanges_in_frame: 0,
            trace: Vec::new(),
            fail_everything: false,
        }
    }

    fn with_sample(x: u8, y: u8, z: u8) -> Device {
        let mut device = Device::new();
        device.registers[0x29] = x;
        device.registers[0x2B] = y;
        device.registers[0x2D] = z;
        device
    }

    fn perform(&mut self, action: Action) -> Event {
        self.trace.push(action);
        match action {
            Action::SelectLow => {
                assert!(!self.selected, "chip-select driven low twice");
                self.selected = true;
                self.exchanges_in_frame = 0;
            }
            Action::SelectHigh => {
                assert!(self.selected, "chip-select driven high while high");
                assert_eq!(self.exchanges_in_frame, 1);
                self.selected = false;
            }
            Action::Transfer { first, second } => {
                assert!(self.selected, "exchange while the device is not selected");
                self.exchanges_in_frame += 1;
                assert_eq!(first & 0x80, 0x80);
                assert_eq!(second, 0x00);
                if !self.fail_everything {
                    let value = self.registers[usize::from(first & 0x7F)];
                    return Event::Received { first: 0xFF, second: value };
                }
            }
            Action::Write { first, second } => {
                assert!(self.selected, "exchange while the device is not selected");
                self.exchanges_in_frame += 1;
                assert_eq!(first & 0x80, 0x00);
                if !self.fail_everything {
                    self.registers[usize::from(first)] = second;
                }
            }
        }
        if self.fail_everything {
            Event::Failed
        } else {
            Event::Done
        }
    }
}

fn run(driver: &mut Lis302Dl, device: &mut Device) -> usize {
    let mut steps = 0;
    while let Some(action) = driver.next_action() {
        let event = device.perform(action);
        driver.handle(event);
        steps += 1;
        assert!(steps <= 9, "the driver does not come to rest");
    }
    assert!(!device.selected, "the driver rests with the device selected");
    steps
}

fn brought_up(config: Config, device: &mut Device) -> Lis302Dl {
    let mut driver = Lis302Dl::new(config);
    run(&mut driver, device);
    device.trace.clear();
    driver
}

fn take_sample(driver: &mut Lis302Dl, device: &mut Device) -> (i8, i8, i8) {
    assert_eq!(driver.accel_raw(), None);
    run(driver, device);
    match driver.accel_raw() {
        Some(sample) => sample,
        None => panic!("no sample waits after the reads"),
    }
}

#[test]
fn new_driver_sets_out_to_bring_the_device_up() {
    let driver = Lis302Dl::new(Config::default());
    assert!(!driver.is_ready());
    assert_eq!(driver.next_action(), Some(Action::SelectLow));
    assert_eq!(driver.device_id(), None);
    assert!(!driver.is_identified());
    assert!(!driver.has_faulted());
    assert_eq!(driver.config(), Config::default());
}

#[test]
fn bring_up_with_default_config_reads_id_and_writes_0xc7() {
    let mut device = Device::new();
    let mut driver = Lis302Dl::new(Config::default());
    let steps = run(&mut driver, &mut device);
    assert_eq!(steps, 6);
    assert_eq!(
        device.trace,
        vec![
            Action::SelectLow,
            Action::Transfer { first: 0x8F, second: 0x00 },
            Action::SelectHigh,
            Action::SelectLow,
            Action::Write { first: 0x20, second: 0xC7 },
            Action::SelectHigh,
        ]
    );
    assert_eq!(device.registers[0x20], 0xC7);
    assert!(driver.is_ready());
    assert_eq!(driver.device_id(), Some(0x3B));
    assert!(driver.is_identified());
    assert!(!driver.has_faulted());
}

#[test]
fn bring_up_writes_the_control_byte_of_every_configuration() {
    for power_mode in [PowerMode::Active, PowerMode::PowerDown] {
        for scale in [Scale::PlusMinus2G, Scale::PlusMinus8G] {
            for data_rate in [DataRate::Rate100Hz, DataRate::Rate400Hz] {
                let config = Config { power_mode, scale, data_rate };
                let mut device = Device::new();
                let mut driver = Lis302Dl::new(config);
                run(&mut driver, &mut device);
                assert_eq!(device.registers[0x20], config.control_byte());
                assert_eq!(
                    device.trace[4],
                    Action::Write { first: 0x20, second: config.control_byte() }
                );
                assert_eq!(driver.config(), config);
            }
        }
    }
}

#[test]
fn unexpected_device_id_does_not_stop_the_bring_up() {
    let mut device = Device::new();
    device.registers[0x0F] = 0x3A;
    let mut driver = Lis302Dl::new(Config::default());
    let steps = run(&mut driver, &mut device);
    assert_eq!(steps, 6);
    assert!(driver.is_ready());
    assert_eq!(driver.device_id(), Some(0x3A));
    assert!(!driver.is_identified());
    assert_eq!(device.registers[0x20], 0xC7);
    device.registers[0x29] = 0x05;
    device.registers[0x2B] = 0xFB;
    device.registers[0x2D] = 0x40;
    assert_eq!(take_sample(&mut driver, &mut device), (5, -5, 64));
}

#[test]
fn raw_sample_is_the_signed_reading_of_the_three_bytes() {
    let mut device = Device::with_sample(0x10, 0xF0, 0x00);
    let mut driver = brought_up(Config::default(), &mut device);
    let (x, y, z) = take_sample(&mut driver, &mut device);
    assert_eq!((x, y, z), (16, -16, 0));
    let scale: f32 = 4.6 / 256.0;
    assert!((f32::from(x) * scale - 0.2875).abs() < 1e-6);
    assert!((f32::from(y) * scale + 0.2875).abs() < 1e-6);
    assert_eq!(f32::from(z) * scale, 0.0);
}

#[test]
fn sampling_reads_x_then_y_then_z() {
    let mut device = Device::with_sample(1, 2, 3);
    let mut driver = brought_up(Config::default(), &mut device);
    assert_eq!(take_sample(&mut driver, &mut device), (1, 2, 3));
    assert_eq!(
        device.trace,
        vec![
            Action::SelectLow,
            Action::Transfer { first: 0xA9, second: 0x00 },
            Action::SelectHigh,
            Action::SelectLow,
            Action::Transfer { first: 0xAB, second: 0x00 },
            Action::SelectHigh,
            Action::SelectLow,
            Action::Transfer { first: 0xAD, second: 0x00 },
            Action::SelectHigh,
        ]
    );
}

#[test]
fn extreme_raw_values() {
    let mut device = Device::with_sample(0x80, 0x7F, 0xFF);
    let mut driver = brought_up(Config::default(), &mut device);
    assert_eq!(take_sample(&mut driver, &mut device), (-128, 127, -1));
}

#[test]
fn each_request_takes_a_fresh_sample() {
    let mut device = Device::with_sample(1, 2, 3);
    let mut driver = brought_up(Config::default(), &mut device);
    assert_eq!(take_sample(&mut driver, &mut device), (1, 2, 3));
    device.registers[0x29] = 0xFE;
    device.registers[0x2B] = 0x00;
    device.registers[0x2D] = 0x64;
    assert_eq!(take_sample(&mut driver, &mut device), (-2, 0, 100));
    assert_eq!(device.trace.len(), 18);
}

#[test]
fn sample_is_handed_out_once() {
    let mut device = Device::with_sample(7, 8, 9);
    let mut driver = brought_up(Config::default(), &mut device);
    assert_eq!(driver.accel_raw(), None);
    run(&mut driver, &mut device);
    assert!(driver.is_ready());
    assert_eq!(driver.accel_raw(), Some((7, 8, 9)));
    assert!(driver.is_ready());
    assert_eq!(driver.accel_raw(), None);
    assert!(!driver.is_ready());
}

#[test]
fn no_sample_is_begun_during_the_bring_up() {
    let mut device = Device::with_sample(7, 8, 9);
    let mut driver = Lis302Dl::new(Config::default());
    assert_eq!(driver.accel_raw(), None);
    let event = device.perform(Action::SelectLow);
    assert_eq!(driver.next_action(), Some(Action::SelectLow));
    driver.handle(event);
    assert_eq!(driver.accel_raw(), None);
    assert_eq!(driver.next_action(), Some(Action::Transfer { first: 0x8F, second: 0x00 }));
    let steps = run(&mut driver, &mut device);
    assert_eq!(steps, 5);
    assert_eq!(device.trace.len(), 6);
}

#[test]
fn no_sample_waits_before_the_last_chip_select() {
    let mut device = Device::with_sample(7, 8, 9);
    let mut driver = brought_up(Config::default(), &mut device);
    assert_eq!(driver.accel_raw(), None);
    for _ in 0..8 {
        let action = driver.next_action().unwrap();
        let event = device.perform(action);
        driver.handle(event);
        assert_eq!(driver.accel_raw(), None);
    }
    assert_eq!(driver.next_action(), Some(Action::SelectHigh));
    driver.handle(device.perform(Action::SelectHigh));
    assert_eq!(driver.accel_raw(), Some((7, 8, 9)));
}

#[test]
fn chip_select_frames_every_exchange() {
    let mut device = Device::with_sample(1, 2, 3);
    let mut driver = Lis302Dl::new(Config::default());
    run(&mut driver, &mut device);
    take_sample(&mut driver, &mut device);
    take_sample(&mut driver, &mut device);
    assert_eq!(device.trace.len(), 24);
    for (i, action) in device.trace.iter().enumerate() {
        match i % 3 {
            0 => assert_eq!(*action, Action::SelectLow),
            1 => assert!(matches!(action, Action::Transfer { .. } | Action::Write { .. })),
            _ => assert_eq!(*action, Action::SelectHigh),
        }
    }
}

#[test]
fn driver_at_rest_ignores_events() {
    let mut device = Device::with_sample(1, 2, 3);
    let mut driver = brought_up(Config::default(), &mut device);
    driver.handle(Event::Failed);
    driver.handle(Event::Received { first: 0, second: 0x55 });
    assert!(driver.is_ready());
    assert!(!driver.has_faulted());
    assert_eq!(driver.device_id(), Some(0x3B));
    assert_eq!(driver.next_action(), None);
    assert_eq!(take_sample(&mut driver, &mut device), (1, 2, 3));
}

#[test]
fn failures_are_noted_and_do_not_stop_the_driver() {
    let mut device = Device::with_sample(1, 2, 3);
    device.fail_everything = true;
    let mut driver = Lis302Dl::new(Config::default());
    let steps = run(&mut driver, &mut device);
    assert_eq!(steps, 6);
    assert!(driver.is_ready());
    assert!(driver.has_faulted());
    assert_eq!(driver.device_id(), Some(0x00));
    assert!(!driver.is_identified());
    assert_eq!(take_sample(&mut driver, &mut device), (0, 0, 0));
    assert_eq!(
        device.trace[3..6],
        [Action::SelectLow, Action::Write { first: 0x20, second: 0xC7 }, Action::SelectHigh]
    );
}

#[test]
fn one_failure_is_remembered() {
    let mut device = Device::with_sample(1, 2, 3);
    let mut driver = brought_up(Config::default(), &mut device);
    assert!(!driver.has_faulted());
    assert_eq!(driver.accel_raw(), None);
    device.perform(Action::SelectLow);
    driver.handle(Event::Failed);
    assert!(driver.has_faulted());
    run(&mut driver, &mut device);
    assert!(driver.has_faulted());
    assert_eq!(driver.accel_raw(), Some((1, 2, 3)));
}

#[test]
fn sample_rate_follows_the_configured_data_rate() {
    let slow = Config {
        power_mode: PowerMode::Active,
        scale: Scale::PlusMinus2G,
        data_rate: DataRate::Rate100Hz,
    };
    assert_eq!(Lis302Dl::new(slow).sample_rate(), 100);
    assert_eq!(Lis302Dl::new(Config::default()).sample_rate(), 400);
}

#[test]
fn control_register_write_carries_the_configuration() {
    let config = Config {
        power_mode: PowerMode::PowerDown,
        scale: Scale::PlusMinus8G,
        data_rate: DataRate::Rate100Hz,
    };
    let driver = Lis302Dl::new(config);
    let mut transaction = driver.set_control_register_1();
    transaction.handle(Event::Done);
    assert_eq!(transaction.next_action(), Some(Action::Write { first: 0x20, second: 0x27 }));
}
