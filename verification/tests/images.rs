use ais_image::config::{Config, AIS_NAND_FILE, AIS_UART_FILE, READELF, U_BOOT};
use ais_image::error::AisError;
use ais_image::hexnum::hex;
use ais_image::image::{assemble, build_images, ImageWriter, Stage};
use ais_image::parser::{parse_table, SectionMatcher};
use ais_image::command::{FUNCTION_EXECUTE, MAGIC};
use ais_image::preamble::{nand_preamble, uart_preamble, NAND_PREAMBLE, UART_PREAMBLE};
use ais_image::section::{SectionName, SectionRecord};

fn record(name: SectionName, address: u32, file_offset: u32, size: u32) -> SectionRecord {
    SectionRecord { name, address, file_offset, size }
}

fn sample_binary(len: usize) -> Vec<u8> {
    (0..len).map(|i| (i * 7 % 256) as u8).collect()
}

fn words(list: &[u32]) -> Vec<u8> {
    list.iter().flat_map(|word| word.to_le_bytes()).collect()
}

#[test]
fn nand_preamble_holds_the_board_words() {
    let expected = [
        hex("41504954"),
        hex("5853590d"),
        hex("00020000"),
        hex("00180001"),
        hex("00000205"),
        hex("5853590d"),
        hex("00080003"),
        hex("20020001"),
        hex("00000002"),
        hex("000000c4"),
        hex("02074622"),
        hex("129129c8"),
        hex("380f7000"),
        hex("0000040d"),
        hex("00000500"),
        hex("5853590d"),
        hex("00050005"),
        hex("00000000"),
        hex("081221ac"),
        hex("00000000"),
        hex("00000000"),
        hex("00000002"),
    ];
    assert_eq!(NAND_PREAMBLE, expected);
    assert_eq!(nand_preamble(), expected);
}

#[test]
fn uart_preamble_holds_the_board_words() {
    let expected = [
        hex("41504954"),
        hex("5853590d"),
        hex("00030006"),
        hex("00180001"),
        hex("00000b05"),
        hex("00010064"),
        hex("5853590d"),
        hex("00080003"),
        hex("18010101"),
        hex("00000002"),
        hex("00000003"),
        hex("06074622"),
        hex("20da3291"),
        hex("42948941"),
        hex("00000492"),
        hex("00000500"),
    ];
    assert_eq!(UART_PREAMBLE, expected);
    assert_eq!(uart_preamble(), expected);
}

#[test]
fn preambles_open_with_the_magic_word() {
    assert_eq!(MAGIC, 0x4150_4954);
    assert_eq!(FUNCTION_EXECUTE, 0x5853_590d);
    assert_eq!(NAND_PREAMBLE[0], MAGIC);
    assert_eq!(UART_PREAMBLE[0], MAGIC);
    assert_eq!(NAND_PREAMBLE[1], FUNCTION_EXECUTE);
    assert_eq!(UART_PREAMBLE[1], FUNCTION_EXECUTE);
}

#[test]
fn default_config_names_the_tool_the_files_and_the_tables() {
    let config = Config::default();
    assert_eq!(config.tool_command, "arm-linux-readelf -S");
    assert_eq!(config.input_path, "u-boot");
    assert_eq!(config.nand_output_path, "u-boot_nand.ais");
    assert_eq!(config.uart_output_path, "u-boot_uart.ais");
    assert_eq!(config.nand_preamble, NAND_PREAMBLE);
    assert_eq!(config.uart_preamble, UART_PREAMBLE);
    assert_eq!(READELF, "arm-linux-readelf -S");
    assert_eq!(U_BOOT, "u-boot");
    assert_eq!(AIS_NAND_FILE, "u-boot_nand.ais");
    assert_eq!(AIS_UART_FILE, "u-boot_uart.ais");
}

#[test]
fn image_of_one_text_section() {
    let table = vec![".text PROGBITS 00008000 00001000 00000010".to_string()];
    let records = parse_table(&table).unwrap();
    assert_eq!(records, [record(SectionName::Text, 0x8000, 0x1000, 0x10)]);
    let binary = sample_binary(0x1200);
    let images = build_images(&Config::default(), &records, &binary).unwrap();

    let mut body = words(&[0x5853_5901, 0x0000_8000, 0x10]);
    body.extend_from_slice(&binary[0x1000..0x1010]);
    body.extend(words(&[0x5853_5906, 0x0000_8000]));

    let mut nand = words(&NAND_PREAMBLE);
    nand.extend_from_slice(&body);
    let mut uart = words(&UART_PREAMBLE);
    uart.extend_from_slice(&body);
    assert_eq!(images.nand, nand);
    assert_eq!(images.uart, uart);
    assert_eq!(images.nand.len(), 22 * 4 + 12 + 16 + 8);
    assert_eq!(images.uart.len(), 16 * 4 + 12 + 16 + 8);
}

#[test]
fn image_without_sections_is_preamble_and_jump_to_zero() {
    let binary = sample_binary(32);
    let images = build_images(&Config::default(), &[], &binary).unwrap();
    let mut nand = words(&NAND_PREAMBLE);
    nand.extend(words(&[0x5853_5906, 0]));
    let mut uart = words(&UART_PREAMBLE);
    uart.extend(words(&[0x5853_5906, 0]));
    assert_eq!(images.nand, nand);
    assert_eq!(images.uart, uart);
    assert_eq!(assemble(&[], &[], &[]), Ok(vec![0x06, 0x59, 0x53, 0x58, 0, 0, 0, 0]));
}

#[test]
fn image_of_a_table_without_recognised_lines() {
    let table = vec!["Section Headers:".to_string(), "  [ 7] .bss NOBITS 1 2 3 ".to_string()];
    let records = parse_table(&table).unwrap();
    let image = assemble(&[0xaabb_ccdd], &records, &[1, 2, 3]).unwrap();
    assert_eq!(image, [0xdd, 0xcc, 0xbb, 0xaa, 0x06, 0x59, 0x53, 0x58, 0, 0, 0, 0]);
}

#[test]
fn image_holds_the_sections_in_table_order() {
    let binary = sample_binary(64);
    let records = [
        record(SectionName::Text, 0x100, 0, 5),
        record(SectionName::Rodata, 0x200, 8, 0),
        record(SectionName::Data, 0x300, 60, 4),
        record(SectionName::UBootCmd, 0x400, 10, 2),
    ];
    let image = assemble(&[0x4150_4954, 0x11], &records, &binary).unwrap();
    let mut expected = words(&[0x4150_4954, 0x11]);
    expected.extend(words(&[0x5853_5901, 0x100, 8]));
    expected.extend_from_slice(&binary[0..5]);
    expected.extend_from_slice(&[0, 0, 0]);
    expected.extend(words(&[0x5853_5901, 0x200, 0]));
    expected.extend(words(&[0x5853_5901, 0x300, 4]));
    expected.extend_from_slice(&binary[60..64]);
    expected.extend(words(&[0x5853_5901, 0x400, 4]));
    expected.extend_from_slice(&binary[10..12]);
    expected.extend_from_slice(&[0, 0]);
    expected.extend(words(&[0x5853_5906, 0x100]));
    assert_eq!(image, expected);
}

#[test]
fn image_jumps_to_the_last_text_section() {
    let binary = sample_binary(16);
    let records = [
        record(SectionName::Text, 0x1111, 0, 4),
        record(SectionName::Text, 0x2222, 4, 4),
        record(SectionName::Data, 0x3333, 8, 4),
    ];
    let image = assemble(&[], &records, &binary).unwrap();
    assert_eq!(&image[image.len() - 8..], words(&[0x5853_5906, 0x2222]));
    let image = assemble(&[], &records[2..], &binary).unwrap();
    assert_eq!(&image[image.len() - 8..], words(&[0x5853_5906, 0]));
}

#[test]
fn images_differ_in_their_preambles_only() {
    let binary = sample_binary(200);
    let records = [
        record(SectionName::Text, 0xc108_0000, 3, 41),
        record(SectionName::Rodata, 0xc108_1000, 50, 7),
        record(SectionName::Data, 0xc108_2000, 199, 1),
    ];
    let images = build_images(&Config::default(), &records, &binary).unwrap();
    assert_eq!(&images.nand[..NAND_PREAMBLE.len() * 4], words(&NAND_PREAMBLE));
    assert_eq!(&images.uart[..UART_PREAMBLE.len() * 4], words(&UART_PREAMBLE));
    assert_eq!(&images.nand[NAND_PREAMBLE.len() * 4..], &images.uart[UART_PREAMBLE.len() * 4..]);
    assert_eq!(&images.nand[NAND_PREAMBLE.len() * 4..], assemble(&[], &records, &binary).unwrap());
}

#[test]
fn images_use_the_preambles_of_the_config() {
    let config = Config {
        tool_command: "readelf -S".to_string(),
        input_path: "firmware.elf".to_string(),
        nand_output_path: "nand.ais".to_string(),
        uart_output_path: "uart.ais".to_string(),
        nand_preamble: vec![1, 2],
        uart_preamble: vec![3],
    };
    let images = build_images(&config, &[record(SectionName::Data, 9, 0, 1)], &[0x77]).unwrap();
    let body = [0x01, 0x59, 0x53, 0x58, 9, 0, 0, 0, 4, 0, 0, 0, 0x77, 0, 0, 0, 0x06, 0x59, 0x53, 0x58, 0, 0, 0, 0];
    let mut nand = vec![1, 0, 0, 0, 2, 0, 0, 0];
    nand.extend_from_slice(&body);
    let mut uart = vec![3, 0, 0, 0];
    uart.extend_from_slice(&body);
    assert_eq!(images.nand, nand);
    assert_eq!(images.uart, uart);
}

#[test]
fn section_beyond_the_binary_aborts_the_images() {
    let binary = sample_binary(0x100);
    let records = [
        record(SectionName::Text, 0x8000, 0, 0x80),
        record(SectionName::Data, 0x9000, 0x80, 0x81),
        record(SectionName::Rodata, 0xa000, 0, 0x10),
    ];
    assert_eq!(build_images(&Config::default(), &records, &binary), Err(AisError::TruncatedInput));
    assert_eq!(assemble(&NAND_PREAMBLE, &records, &binary), Err(AisError::TruncatedInput));
    assert_eq!(assemble(&UART_PREAMBLE, &records[1..2], &binary), Err(AisError::TruncatedInput));
    assert!(assemble(&UART_PREAMBLE, &records[..1], &binary).is_ok());
}

#[test]
fn truncated_binary_aborts_the_image_of_one_text_section() {
    let table = vec![".text PROGBITS 00008000 00001000 00000010".to_string()];
    let records = parse_table(&table).unwrap();
    let binary = sample_binary(0x100f);
    assert_eq!(build_images(&Config::default(), &records, &binary), Err(AisError::TruncatedInput));
    let binary = sample_binary(0x1010);
    assert!(build_images(&Config::default(), &records, &binary).is_ok());
}

#[test]
fn writer_goes_through_its_stages() {
    let binary = sample_binary(16);
    let mut writer = ImageWriter::new();
    assert_eq!(writer.current_stage(), Stage::Start);
    writer.write_preamble(&[0x4150_4954]);
    assert_eq!(writer.current_stage(), Stage::PreambleWritten);
    assert_eq!(writer.write_section(&record(SectionName::Text, 0x40, 2, 3), &binary), Ok(()));
    assert_eq!(writer.current_stage(), Stage::SectionWritten);
    assert_eq!(writer.write_section(&record(SectionName::Data, 0x80, 0, 0), &binary), Ok(()));
    assert_eq!(writer.current_stage(), Stage::SectionWritten);
    writer.finish();
    assert_eq!(writer.current_stage(), Stage::Terminated);
    let mut expected = words(&[0x4150_4954, 0x5853_5901, 0x40, 4]);
    expected.extend_from_slice(&[binary[2], binary[3], binary[4], 0]);
    expected.extend(words(&[0x5853_5901, 0x80, 0, 0x5853_5906, 0x40]));
    assert_eq!(writer.into_bytes(), expected);
}

#[test]
fn writer_without_sections_closes_with_entry_zero() {
    let mut writer = ImageWriter::new();
    writer.write_preamble(&[]);
    assert_eq!(writer.current_stage(), Stage::PreambleWritten);
    writer.finish();
    assert_eq!(writer.current_stage(), Stage::Terminated);
    assert_eq!(writer.into_bytes(), words(&[0x5853_5906, 0]));
}

#[test]
fn writer_is_unchanged_by_a_section_beyond_the_binary() {
    let binary = sample_binary(8);
    let mut writer = ImageWriter::new();
    writer.write_preamble(&[5]);
    assert_eq!(
        writer.write_section(&record(SectionName::Text, 0x40, 6, 3), &binary),
        Err(AisError::TruncatedInput)
    );
    assert_eq!(writer.current_stage(), Stage::PreambleWritten);
    assert_eq!(writer.write_section(&record(SectionName::Data, 0x50, 6, 2), &binary), Ok(()));
    assert_eq!(
        writer.write_section(&record(SectionName::Text, 0x60, 8, 1), &binary),
        Err(AisError::TruncatedInput)
    );
    assert_eq!(writer.current_stage(), Stage::SectionWritten);
    writer.finish();
    let mut expected = words(&[5, 0x5853_5901, 0x50, 4]);
    expected.extend_from_slice(&[binary[6], binary[7], 0, 0]);
    expected.extend(words(&[0x5853_5906, 0]));
    assert_eq!(writer.into_bytes(), expected);
}

#[test]
fn writer_and_assemble_give_the_same_image() {
    let binary = sample_binary(100);
    let records = [
        record(SectionName::Rodata, 0x10, 90, 10),
        record(SectionName::Text, 0x20, 0, 33),
        record(SectionName::UBootCmd, 0x30, 40, 6),
    ];
    let mut writer = ImageWriter::new();
    writer.write_preamble(&UART_PREAMBLE);
    for section in &records {
        writer.write_section(section, &binary).unwrap();
    }
    writer.finish();
    assert_eq!(Ok(writer.into_bytes()), assemble(&UART_PREAMBLE, &records, &binary));
}

#[test]
fn images_are_a_whole_number_of_words() {
    let binary = sample_binary(64);
    for size in 0u32..20 {
        let records = [
            record(SectionName::Data, 0x10, 3, size),
            record(SectionName::Text, 0x20, 40, 20 - size),
        ];
        let image = assemble(&UART_PREAMBLE, &records, &binary).unwrap();
        assert_eq!(image.len() % 4, 0);
        let blocks = (size + 3) / 4 * 4 + (20 - size + 3) / 4 * 4 + 24;
        assert_eq!(image.len() as u32, 4 * 16 + blocks + 8);
    }
}

#[test]
fn section_too_large_for_a_command_word_aborts_the_images_beyond_the_binary() {
    let binary = sample_binary(4);
    let records = [
        record(SectionName::Text, 0x8000, 0, 4),
        record(SectionName::Data, 0x9000, 0, 0xFFFF_FFFF),
    ];
    assert_eq!(build_images(&Config::default(), &records, &binary), Err(AisError::TruncatedInput));
    assert_eq!(assemble(&NAND_PREAMBLE, &records, &binary), Err(AisError::TruncatedInput));
    assert_eq!(
        assemble(&[], &[record(SectionName::Data, 0, 0xFFFF_FFFF, 2)], &binary),
        Err(AisError::TruncatedInput)
    );
    let mut writer = ImageWriter::new();
    writer.write_preamble(&[]);
    assert_eq!(writer.write_section(&records[1], &binary), Err(AisError::TruncatedInput));
    assert_eq!(writer.current_stage(), Stage::PreambleWritten);
    writer.finish();
    assert_eq!(writer.into_bytes(), words(&[0x5853_5906, 0]));
}

#[test]
fn tables_that_differ_in_lines_without_a_section_give_the_same_images() {
    let matcher = SectionMatcher::new().ok().unwrap();
    let binary = sample_binary(0x40);
    let plain: Vec<String> = [".data PROGBITS 9000 20 7", ".text PROGBITS 8000 0 1d"]
        .iter()
        .map(|line| line.to_string())
        .collect();
    let noisy: Vec<String> = [
        "There are 9 section headers, starting at offset 0x5a3c0:",
        "",
        "  [ 0]                   NULL            00000000 000000 000000 00      0   0  0",
        ".data PROGBITS 9000 20 7",
        "  [ 7] .bss              NOBITS          c10ca4cc 0524cc 0351f0 00  WA  0   0  4",
        "  [ 9] .debug_info       PROGBITS        00000000 0524cc 01f2aa 00      0   0  1",
        ".text PROGBITS",
        ".text PROGBITS 8000 0 1d",
        "Key to Flags:",
    ]
    .iter()
    .map(|line| line.to_string())
    .collect();
    let config = Config::default();
    let from_plain = build_images(&config, &matcher.parse_table(&plain).unwrap(), &binary).unwrap();
    let from_noisy = build_images(&config, &matcher.parse_table(&noisy).unwrap(), &binary).unwrap();
    assert_eq!(from_plain, from_noisy);
    assert_eq!(&from_plain.nand[from_plain.nand.len() - 8..], words(&[0x5853_5906, 0x8000]));
}
