use keybridge::chord::{chord_slots, Phase};
use keybridge::transcoder::Transcoder;

fn indices(symbol: u16) -> Vec<u8> {
    chord_slots(symbol).to_vec()
}

fn has_repeat(symbol: u16) -> bool {
    let k = chord_slots(symbol);
    k[0] == k[1] || k[0] == k[2] || k[0] == k[3] || k[1] == k[2] || k[1] == k[3] || k[2] == k[3]
}

/// The closed form of the symbols whose chord holds a key twice.
fn table_says_repeat(symbol: u16) -> bool {
    let s = symbol as i32;
    let d = [s % 18, (s / 18) % 17, (s / 306) % 16, (s / 4896) % 15];
    let third = {
        let (p, q) = (d[0] - d[2], d[1] - d[2]);
        (p == 1 && q <= 0) || (q == 1 && p <= 0)
    };
    let fourth = {
        let (p, q, r) = (d[0] - d[3], d[1] - d[3], d[2] - d[3]);
        if p <= 0 {
            (r == 1 && q != 2) || (q == 1 && r >= 3)
        } else if p == 1 {
            (q <= 0 && r >= 2) || (q >= 1 && r <= 0)
        } else if p == 2 {
            (q <= 0 && r <= 1) || (q == 1 && r <= 0)
        } else {
            (q <= 0 && r == 1) || (q == 1 && r <= 0)
        }
    };
    third || fourth
}

#[test]
fn ignores_reports_of_wrong_length() {
    let mut t = Transcoder::new();
    assert!(t.transcode(vec![]).is_empty());
    assert!(t.transcode(vec![0; 7]).is_empty());
    assert!(t.transcode(vec![2; 9]).is_empty());
    // the ignored reports left no trace: the modifier still counts as changed
    let out = t.transcode(vec![2, 0, 0, 0, 0, 0, 0, 0]);
    assert_eq!(out, vec![vec![0x00, 0x00, 0x06, 0x04, 0x05, 0x06, 0x00, 0x00]]);
}

#[test]
fn first_report_of_zeros_yields_nothing() {
    let mut t = Transcoder::new();
    assert!(t.transcode(vec![0; 8]).is_empty());
}

#[test]
fn chord_indices_of_known_symbols() {
    assert_eq!(indices(0x0000), vec![0, 1, 2, 3]);
    assert_eq!(indices(0x0204), vec![12, 11, 1, 0]);
    assert_eq!(indices(0x0104), vec![8, 15, 0, 1]);
    assert_eq!(indices(0x0002), vec![2, 0, 1, 2]);
    assert_eq!(indices(0x0012), vec![0, 2, 2, 3]);
    assert_eq!(indices(0xffff), vec![15, 2, 7, 15]);
    // digits 1, 0, 1, 1
    assert_eq!(indices(1 + 306 + 4896), vec![1, 0, 3, 4]);
}

#[test]
fn chord_indices_stay_inside_the_alphabet() {
    for symbol in 0..=0xffffu16 {
        for index in chord_slots(symbol) {
            assert!(index < 18);
        }
    }
}

#[test]
fn different_symbols_have_different_chords() {
    let mut seen = std::collections::HashSet::new();
    for symbol in 0..=0xffffu16 {
        assert!(seen.insert(chord_slots(symbol)));
    }
    assert_eq!(seen.len(), 0x10000);
}

#[test]
fn repeated_keys_are_where_the_table_says() {
    let mut repeats = 0;
    for symbol in 0..=0xffffu16 {
        assert_eq!(has_repeat(symbol), table_says_repeat(symbol), "symbol {:#06x}", symbol);
        if has_repeat(symbol) {
            repeats += 1;
        }
    }
    assert_eq!(repeats, 9073);
    assert!(has_repeat(0x0002));
    assert!(!has_repeat(0x0000));
    assert!(!has_repeat(0x0204));
}

#[test]
fn encode_bits_alternates_between_the_alphabets() {
    let mut t = Transcoder::new();
    let in_a = |report: &Vec<u8>| report[2..6].iter().all(|k| (0x04..=0x15).contains(k));
    let in_b = |report: &Vec<u8>| report[2..6].iter().all(|k| (0x16..=0x27).contains(k));
    for round in 0..50u16 {
        let first = t.encode_bits(round * 7);
        let second = t.encode_bits(round * 7);
        assert_eq!(first.len(), 8);
        assert!(in_a(&first) && !in_b(&first));
        assert!(in_b(&second) && !in_a(&second));
        assert_ne!(first, second);
        for report in [&first, &second] {
            assert_eq!(report[0], 0);
            assert_eq!(report[1], 0);
            assert_eq!(report[6], 0);
            assert_eq!(report[7], 0);
        }
    }
}

#[test]
fn encode_bits_gives_the_chord_of_each_alphabet() {
    let mut t = Transcoder::new();
    assert_eq!(t.encode_bits(0x0204), vec![0x00, 0x00, 0x10, 0x0f, 0x05, 0x04, 0x00, 0x00]);
    assert_eq!(t.encode_bits(0x0204), vec![0x00, 0x00, 0x22, 0x21, 0x17, 0x16, 0x00, 0x00]);
    assert_eq!(t.encode_bits(0x0000), vec![0x00, 0x00, 0x04, 0x05, 0x06, 0x07, 0x00, 0x00]);
    assert_eq!(t.encode_bits(0x0104), vec![0x00, 0x00, 0x1e, 0x25, 0x16, 0x17, 0x00, 0x00]);
}

#[test]
fn phase_flips_by_value() {
    assert_eq!(Phase::A.flip(), Phase::B);
    assert_eq!(Phase::B.flip(), Phase::A);
    assert_eq!(Phase::A.first_key(), 0x04);
    assert_eq!(Phase::B.first_key(), 0x16);
}

/// Shift and `a` go down, then both go up. The reports hold empty key slots,
/// and an empty slot has the value zero, which lies in the roll-over range:
/// each transition yields its modifier symbol and nothing else.
#[test]
fn shift_a_down_and_up_with_empty_slots() {
    let mut t = Transcoder::new();
    assert!(t.transcode(vec![0, 0, 0, 0, 0, 0, 0, 0]).is_empty());
    let down = t.transcode(vec![0x02, 0, 0x04, 0, 0, 0, 0, 0]);
    // modifier symbol 0x0002 in alphabet A
    assert_eq!(down, vec![vec![0x00, 0x00, 0x06, 0x04, 0x05, 0x06, 0x00, 0x00]]);
    let up = t.transcode(vec![0, 0, 0, 0, 0, 0, 0, 0]);
    // modifier symbol 0x0000 in alphabet B
    assert_eq!(up, vec![vec![0x00, 0x00, 0x16, 0x17, 0x18, 0x19, 0x00, 0x00]]);
    assert_ne!(down[0], up[0]);
}

/// The same keys with all six slots taken: the modifier symbol comes first,
/// then the release, then the press, and the alphabets alternate across calls.
#[test]
fn full_reports_yield_modifier_release_press() {
    let mut t = Transcoder::new();
    let first = t.transcode(vec![0, 0, 4, 5, 6, 7, 8, 9]);
    assert_eq!(
        first,
        vec![
            vec![0x00, 0x00, 0x10, 0x0f, 0x05, 0x04, 0x00, 0x00], // press 0x04, A
            vec![0x00, 0x00, 0x23, 0x21, 0x17, 0x16, 0x00, 0x00], // press 0x05, B
            vec![0x00, 0x00, 0x12, 0x0f, 0x05, 0x04, 0x00, 0x00], // press 0x06, A
            vec![0x00, 0x00, 0x25, 0x21, 0x17, 0x16, 0x00, 0x00], // press 0x07, B
            vec![0x00, 0x00, 0x14, 0x0f, 0x05, 0x04, 0x00, 0x00], // press 0x08, A
            vec![0x00, 0x00, 0x27, 0x21, 0x17, 0x16, 0x00, 0x00], // press 0x09, B
        ]
    );
    let second = t.transcode(vec![2, 0, 4, 5, 6, 7, 8, 10]);
    assert_eq!(
        second,
        vec![
            vec![0x00, 0x00, 0x06, 0x04, 0x05, 0x06, 0x00, 0x00], // modifier 0x02, A
            vec![0x00, 0x00, 0x23, 0x25, 0x16, 0x17, 0x00, 0x00], // release 0x09, B
            vec![0x00, 0x00, 0x04, 0x11, 0x06, 0x06, 0x00, 0x00], // press 0x0a, A
        ]
    );
    // a key that only changes its slot is neither released nor pressed
    let third = t.transcode(vec![2, 0, 10, 11, 4, 5, 6, 7]);
    assert_eq!(
        third,
        vec![
            vec![0x00, 0x00, 0x22, 0x25, 0x16, 0x17, 0x00, 0x00], // release 0x08, B
            vec![0x00, 0x00, 0x05, 0x11, 0x06, 0x04, 0x00, 0x00], // press 0x0b, A
        ]
    );
}

#[test]
fn rollover_suppresses_keys_but_not_the_modifier() {
    for rollover in 0..=3u8 {
        for slot in 2..8usize {
            let mut t = Transcoder::new();
            assert_eq!(t.transcode(vec![0, 0, 4, 5, 6, 7, 8, 9]).len(), 6);
            let mut report = vec![1, 0, 10, 11, 12, 13, 14, 15];
            report[slot] = rollover;
            // alphabet A again after six chords
            let out = t.transcode(report.clone());
            assert_eq!(out, vec![vec![0x00, 0x00, 0x05, 0x04, 0x05, 0x06, 0x00, 0x00]]);
            // the same report once more: nothing changed, nothing comes out
            assert!(t.transcode(report).is_empty());
        }
    }
}

#[test]
fn rollover_report_becomes_the_previous_report() {
    let mut t = Transcoder::new();
    assert_eq!(t.transcode(vec![0, 0, 4, 5, 6, 7, 8, 9]).len(), 6);
    assert!(t.transcode(vec![0, 0, 0, 0, 0, 0, 0, 0]).is_empty());
    // all six keys count as new again, none as released
    let out = t.transcode(vec![0, 0, 4, 5, 6, 7, 8, 9]);
    assert_eq!(out.len(), 6);
    assert_eq!(out[0], vec![0x00, 0x00, 0x10, 0x0f, 0x05, 0x04, 0x00, 0x00]);
    // a roll-over value that is not zero counts as a key of the previous
    // report: it is released six times before the six keys are pressed
    assert!(t.transcode(vec![0, 0, 1, 1, 1, 1, 1, 1]).is_empty());
    let out = t.transcode(vec![0, 0, 4, 5, 6, 7, 8, 9]);
    assert_eq!(out.len(), 12);
    // release symbol 0x0101 has the digits 5, 14, 0, 0 and the indices 5, 15, 0, 1
    assert_eq!(out[0], vec![0x00, 0x00, 0x09, 0x13, 0x04, 0x05, 0x00, 0x00]);
    assert_eq!(out[6], vec![0x00, 0x00, 0x10, 0x0f, 0x05, 0x04, 0x00, 0x00]);
}

#[test]
fn value_four_is_no_rollover() {
    let mut t = Transcoder::new();
    let out = t.transcode(vec![0, 0, 4, 4, 4, 4, 4, 4]);
    // the key stands in six slots and is pressed six times
    assert_eq!(out.len(), 6);
}

/// The symbols of a transition, written down a second time for comparison.
fn expected_symbols(prev: &[u8], new: &[u8]) -> Vec<u16> {
    let mut symbols = Vec::new();
    if prev[0] != new[0] {
        symbols.push(new[0] as u16);
    }
    if new[2..].iter().any(|&k| k <= 3) {
        return symbols;
    }
    for &key in &prev[2..] {
        if key != 0 && !new[2..].contains(&key) {
            symbols.push(0x100 | key as u16);
        }
    }
    for &key in &new[2..] {
        if key != 0 && !prev[2..].contains(&key) {
            symbols.push(0x200 | key as u16);
        }
    }
    symbols
}

#[test]
fn many_transitions_yield_the_expected_symbols() {
    // every chord is told apart by its four indices
    let mut symbol_of = std::collections::HashMap::new();
    for symbol in 0..0x300u16 {
        symbol_of.insert(chord_slots(symbol), symbol);
    }
    let mut t = Transcoder::new();
    let mut prev = vec![0u8; 8];
    let mut chords_so_far = 0usize;
    let mut seed = 0x2545_f491u32;
    let mut next = move || {
        seed ^= seed << 13;
        seed ^= seed >> 17;
        seed ^= seed << 5;
        seed
    };
    for round in 0..4000 {
        let mut report = vec![0u8; 8];
        report[0] = (next() % 4) as u8;
        report[1] = (next() % 2) as u8;
        for slot in 2..8 {
            // mostly keys, now and then a roll-over value
            report[slot] = if next() % 40 == 0 { (next() % 4) as u8 } else { 4 + (next() % 12) as u8 };
        }
        if round % 50 == 49 {
            report.truncate((next() % 8) as usize);
        }
        let out = t.transcode(report.clone());
        if report.len() != 8 {
            assert!(out.is_empty());
            continue;
        }
        let symbols: Vec<u16> = out
            .iter()
            .enumerate()
            .map(|(i, chord)| {
                assert_eq!(chord.len(), 8);
                let base = if (chords_so_far + i) % 2 == 0 { 0x04 } else { 0x16 };
                let slots = [chord[2] - base, chord[3] - base, chord[4] - base, chord[5] - base];
                assert_eq!((chord[0], chord[1], chord[6], chord[7]), (0, 0, 0, 0));
                symbol_of[&slots]
            })
            .collect();
        assert_eq!(symbols, expected_symbols(&prev, &report));
        // releases stand before presses, the modifier symbol before both
        assert!(symbols.windows(2).all(|w| w[0] >> 8 <= w[1] >> 8));
        chords_so_far += out.len();
        prev = report;
    }
    assert!(chords_so_far > 1000);
}
