use efi_core::console::{chunk_for_output, crlf_encode, output_string, text_units, OUTPUT_BUFFER_UNITS};
use efi_core::table::{EfiSystemTable, SystemTableRegistry};

fn registered() -> SystemTableRegistry {
    let mut reg = SystemTableRegistry::new();
    reg.register_system_table(EfiSystemTable { address: 0x1000 }).unwrap();
    reg
}

fn payload_concat(chunks: &[Vec<u16>]) -> Vec<u16> {
    let mut all = Vec::new();
    for c in chunks {
        assert_eq!(*c.last().unwrap(), 0, "every chunk is null-terminated");
        all.extend_from_slice(&c[..c.len() - 1]);
    }
    all
}

#[test]
fn line_feed_gains_a_carriage_return() {
    let units = text_units("A\nB");
    assert_eq!(units, vec![65, 10, 66]);
    let expanded = crlf_encode(&units);
    assert_eq!(expanded, vec![65, 13, 10, 66]);
}

#[test]
fn expansion_handles_edges() {
    assert_eq!(crlf_encode(&[]), Vec::<u16>::new());
    assert_eq!(crlf_encode(&[10]), vec![13, 10]);
    assert_eq!(crlf_encode(&[10, 10]), vec![13, 10, 13, 10]);
    assert_eq!(crlf_encode(&[13]), vec![13]);
}

#[test]
fn characters_narrow_one_unit_each() {
    let units = text_units("Hi");
    assert_eq!(units, vec![72, 105]);
    // A character beyond the fixed width passes through the narrowing
    // conversion rather than a replacement policy.
    let wide = text_units("\u{10348}");
    assert_eq!(wide, vec![0x10348u32 as u16]);
}

#[test]
fn short_text_flushes_once() {
    let units = text_units("ok");
    let chunks = chunk_for_output(&units);
    assert_eq!(chunks.len(), 1);
    assert_eq!(chunks[0], vec![111, 107, 0]);
}

#[test]
fn long_text_flushes_more_than_once_and_loses_nothing() {
    let text: String = core::iter::repeat('x').take(75).collect();
    let units = text_units(&text);
    let chunks = chunk_for_output(&units);
    assert!(chunks.len() > 1, "an over-capacity text needs several flushes");
    for (j, c) in chunks.iter().enumerate() {
        assert!(c.len() >= 2 && c.len() <= OUTPUT_BUFFER_UNITS);
        assert_eq!(*c.last().unwrap(), 0);
        if j + 1 < chunks.len() {
            assert!(c.len() >= OUTPUT_BUFFER_UNITS - 1, "early flushes happen nearly full");
        }
    }
    assert_eq!(payload_concat(&chunks), crlf_encode(&units));
}

#[test]
fn flush_boundary_does_not_split_a_line_ending() {
    // 29 units, then a line feed: the carriage return and the line feed
    // are pushed together, so the first flush carries all 31 units.
    let mut text = String::new();
    for _ in 0..29 {
        text.push('a');
    }
    text.push('\n');
    text.push('z');
    let units = text_units(&text);
    let chunks = chunk_for_output(&units);
    assert_eq!(chunks.len(), 2);
    assert_eq!(chunks[0].len(), 32);
    assert_eq!(chunks[0][29], 13);
    assert_eq!(chunks[0][30], 10);
    assert_eq!(chunks[0][31], 0);
    assert_eq!(chunks[1], vec![122, 0]);
    assert_eq!(payload_concat(&chunks), crlf_encode(&units));
}

#[test]
fn output_is_dropped_while_unregistered() {
    let reg = SystemTableRegistry::new();
    let chunks = output_string(&reg, "lost diagnostics\n");
    assert!(chunks.is_empty());
}

#[test]
fn output_is_encoded_once_registered() {
    let reg = registered();
    let chunks = output_string(&reg, "A\nB");
    assert_eq!(chunks.len(), 1);
    assert_eq!(chunks[0], vec![65, 13, 10, 66, 0]);
}
