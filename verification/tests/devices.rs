use nes_rust::apu::envelope::Envelope;
use nes_rust::apu::pulse::PulseGenerator;
use nes_rust::apu::triangle::TriangleGenerator;
use nes_rust::i_nes::INes;
use nes_rust::input::{Buttons, Controller, Input};
use nes_rust::mapper::Mapper;

#[test]
fn pressing_and_releasing_buttons_toggles_fields() {
    let mut controller = Controller::default();
    assert_eq!(controller.buttons.bits(), 0b0000_0000);

    controller.press(Buttons(Buttons::A));
    controller.press(Buttons(Buttons::B));
    controller.press(Buttons(Buttons::SELECT));
    controller.press(Buttons(Buttons::START));
    assert_eq!(controller.buttons.bits(), 0b1111_0000);

    controller.release(Buttons(Buttons::A));
    assert_eq!(controller.buttons.bits(), 0b0111_0000);

    controller.press(Buttons(Buttons::UP));
    assert_eq!(controller.buttons.bits(), 0b0111_1000);

    controller.press(Buttons(Buttons::DOWN));
    controller.press(Buttons(Buttons::LEFT));
    controller.press(Buttons(Buttons::RIGHT));
    assert_eq!(controller.buttons.bits(), 0b0111_1111);

    controller.release(Buttons(Buttons::UP));
    controller.release(Buttons(Buttons::DOWN));
    controller.release(Buttons(Buttons::LEFT));
    controller.release(Buttons(Buttons::RIGHT));
    assert_eq!(controller.buttons.bits(), 0b0111_0000);
}

#[test]
fn when_strobe_is_toggled_off_button_status_is_reported() {
    let mut controller = Controller {
        buttons: Buttons::from_bits_truncate(0b1001_0110),
        ..Controller::default()
    };

    controller.write(1);
    controller.write(0);

    // Read bit-by-bit
    assert_eq!(controller.read(), 0b1);
    assert_eq!(controller.read(), 0b0);
    assert_eq!(controller.read(), 0b0);
    assert_eq!(controller.read(), 0b1);
    assert_eq!(controller.read(), 0b0);
    assert_eq!(controller.read(), 0b1);
    assert_eq!(controller.read(), 0b1);
    assert_eq!(controller.read(), 0b0);

    controller.write(1);
    controller.write(0);

    // Read bit-by-bit
    assert_eq!(controller.read(), 0b1);
    assert_eq!(controller.read(), 0b0);
    assert_eq!(controller.read(), 0b0);
    assert_eq!(controller.read(), 0b1);
    assert_eq!(controller.read(), 0b0);
    assert_eq!(controller.read(), 0b1);
    assert_eq!(controller.read(), 0b1);
    assert_eq!(controller.read(), 0b0);
}

#[test]
fn while_strobe_is_on_always_report_state_of_button_a() {
    let mut controller = Controller::default();

    controller.write(1);
    assert_eq!(controller.read(), 0);
    assert_eq!(controller.read(), 0);

    controller.press(Buttons(Buttons::A));
    assert_eq!(controller.read(), 1);
    assert_eq!(controller.read(), 1);

    controller.release(Buttons(Buttons::A));
    assert_eq!(controller.read(), 0);
    assert_eq!(controller.read(), 0);

    controller.press(Buttons(Buttons::A));
    controller.write(0);
    assert_eq!(controller.read(), 1);
    assert_eq!(controller.read(), 0);
}

#[test]
fn after_reading_status_subsequent_reads_return_zero() {
    let mut controller = Controller {
        buttons: Buttons::from_bits_truncate(0b1001_0110),
        ..Controller::default()
    };

    controller.write(1);
    controller.write(0);

    for _ in 0..8 {
        controller.read();
    }

    for _ in 0..100 {
        assert_eq!(controller.read(), 0);
    }
}

#[test]
fn i_nes_can_read_prg_rom_data_from_ines_file() {
    const SIZE: u8 = 10;
    let header: [u8; 16] = [
        0x4E, 0x45, 0x53, 0x1A, SIZE, 1, 0, 0, 0, 0, 0, 0, 0, 0, 0, 0,
    ];

    // 160kb of prg data
    let mut prg_rom_data = vec![0; 163_840];

    for (i, item) in prg_rom_data.iter_mut().enumerate() {
        *item = i as u8;
    }

    let chr_rom_data = vec![0; 8_1920];
    let mut bytes = header.to_vec();
    bytes.extend_from_slice(&prg_rom_data);
    bytes.extend_from_slice(&chr_rom_data);

    let ines = INes::read(&bytes).unwrap();

    assert_eq!(ines.prg_rom.len(), 163_840);
    assert_eq!(Vec::from(ines.prg_rom), prg_rom_data);
}

#[test]
fn can_read_chr_rom_data_from_ines_file() {
    const SIZE: u8 = 10;
    let header: [u8; 16] = [
        0x4E, 0x45, 0x53, 0x1A, 1, SIZE, 0, 0, 0, 0, 0, 0, 0, 0, 0, 0,
    ];

    let prg_rom_data = vec![0; 16_384];

    // 80kb of chr data
    let mut chr_rom_data = vec![0; 81_920];

    for (i, item) in chr_rom_data.iter_mut().enumerate() {
        *item = i as u8;
    }
    let mut bytes = header.to_vec();
    bytes.extend_from_slice(&prg_rom_data);
    bytes.extend_from_slice(&chr_rom_data);

    let ines = INes::read(&bytes).unwrap();

    assert_eq!(ines.chr_rom.len(), 81_920);
    assert_eq!(Vec::from(ines.chr_rom), chr_rom_data);
}

#[test]
fn i_nes_can_read_mapper_from_ines_file() {
    // this maps to mapper 19
    let low: u8 = 0b0011_0000;
    let high: u8 = 0b0001_0000;

    let header: [u8; 16] = [
        0x4E, 0x45, 0x53, 0x1A, 2, 1, low, high, 0, 0, 0, 0, 0, 0, 0, 0,
    ];

    let mut bytes = header.to_vec();
    bytes.resize(16 + 2 * 16_384 + 8_192, 0);

    let ines = INes::read(&bytes).unwrap();

    assert_eq!(ines.mapper, Mapper::Namco129);
}

#[test]
fn ines_can_read_mapper_from_ines_file() {
    // this maps to mapper 19
    let low: u8 = 0b0011_0000;
    let high: u8 = 0b0001_0000;

    let header: [u8; 16] = [0x4E, 0x45, 0x53, 0x1A, 2, 1, low, high, 0, 0, 0, 0, 0, 0, 0, 0];

    let mut bytes = header.to_vec();
    bytes.resize(16 + 2 * 16_384 + 8_192, 0);

    let ines = INes::read(&bytes).unwrap();

    assert_eq!(ines.mapper, Mapper::Namco129);
}

#[test]
fn apu_test_pulse_generator_produces_rectangle_wave() {
    let mut pulse = PulseGenerator {
        enabled: true,
        timer_initial: 8,
        timer: 8,
        sequencer: 0,
        length_counter: 5,
        length_counter_halt: false,
        // Set duty to 25% and volume goes up to 11
        duty_cycle: 1,
        envelope: Envelope {
            constant_volume: true,
            looping: false,
            start: false,
            divider: 0,
            decay_level: 0,
            volume: 11,
        },
    };

    // Get two periods of the waveform
    let wave: Vec<u8> = std::iter::repeat_with(|| pulse.tick())
        .take(9 * 16)
        .collect();

    // Each part of wave is repeated `timer + 1 = 9` times
    assert_eq!(
        wave,
        [
            vec![0; 9],
            vec![11; 2 * 9],
            vec![0; 6 * 9],
            vec![11; 2 * 9],
            vec![0; 5 * 9]
        ]
        .concat()
    );
}

#[test]
fn pulse_test_pulse_generator_produces_rectangle_wave() {
    let mut pulse = PulseGenerator {
        enabled: true,
        timer_initial: 8,
        timer: 8,
        sequencer: 0,
        length_counter: 5,
        length_counter_halt: false,
        // Set duty to 25% and volume goes up to 11
        duty_cycle: 1,
        envelope: Envelope {
            constant_volume: true,
            looping: false,
            start: false,
            divider: 0,
            decay_level: 0,
            volume: 11,
        },
    };

    // Get two periods of the waveform
    let wave: Vec<u8> = std::iter::repeat_with(|| pulse.tick())
        .take(9 * 16)
        .collect();

    // Each part of wave is repeated `timer + 1 = 9` times
    assert_eq!(
        wave,
        [
            vec![0; 9],
            vec![11; 2 * 9],
            vec![0; 6 * 9],
            vec![11; 2 * 9],
            vec![0; 5 * 9]
        ]
        .concat()
    );
}

#[test]
fn test_triangle_generator_produces_triangle_wave() {
    let mut triangle = TriangleGenerator {
        enabled: true,
        timer_initial: 8,
        timer: 8,
        sequencer: 0,
        length_counter: 5,
        length_counter_halt: false,
        linear_counter: 255,
        linear_counter_reload: 255,
        linear_counter_reload_flag: false,
        linear_counter_control: false,
    };

    // Get two periods of the waveform
    let wave: Vec<u8> = std::iter::repeat_with(|| triangle.tick())
        .take(9 * 64)
        .collect();

    // Each part of wave is repeated `timer + 1 = 9` times
    assert_eq!(
        wave,
        [
            vec![15; 9],
            vec![14; 9],
            vec![13; 9],
            vec![12; 9],
            vec![11; 9],
            vec![10; 9],
            vec![9; 9],
            vec![8; 9],
            vec![7; 9],
            vec![6; 9],
            vec![5; 9],
            vec![4; 9],
            vec![3; 9],
            vec![2; 9],
            vec![1; 9],
            vec![0; 9],
            vec![0; 9],
            vec![1; 9],
            vec![2; 9],
            vec![3; 9],
            vec![4; 9],
            vec![5; 9],
            vec![6; 9],
            vec![7; 9],
            vec![8; 9],
            vec![9; 9],
            vec![10; 9],
            vec![11; 9],
            vec![12; 9],
            vec![13; 9],
            vec![14; 9],
            vec![15; 9]
        ]
        .concat()
        .repeat(2)
    );
}
