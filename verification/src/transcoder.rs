//! The transcoder: the difference between two boot-keyboard reports becomes a
//! sequence of symbols, and every symbol becomes one chord report.

use crate::chord::{chord_report, chord_slots, Phase};
use vstd::prelude::*;

verus! {

/// Length of a boot-keyboard report: modifier byte, reserved byte, six keys.
pub const REPORT_LEN: usize = 8;

/// The six key slots of a report.
pub open spec fn key_slots(report: Seq<u8>) -> Seq<u8> {
    report.subrange(2, 8)
}

/// A key slot of the report holds a value of the roll-over range `0x00..=0x03`.
pub open spec fn has_rollover(report: Seq<u8>) -> bool {
    exists|i: int| 2 <= i < 8 && #[trigger] report[i] <= 3
}

/// The test a key passes when it is a key at all and `keys` does not hold it.
pub open spec fn is_gone(keys: Seq<u8>) -> spec_fn(u8) -> bool {
    |key: u8| key != 0 && !keys.contains(key)
}

/// The keys of `from` that `to` no longer holds, in the slot order of `from`.
pub open spec fn vanished(from: Seq<u8>, to: Seq<u8>) -> Seq<u8> {
    key_slots(from).filter(is_gone(key_slots(to)))
}

/// The symbol that announces a new modifier byte.
pub open spec fn modifier_symbol(modifier: u8) -> u16 {
    modifier as u16
}

/// The symbol that announces the release of a key.
pub open spec fn release_symbol(key: u8) -> u16 {
    (0x100 + key) as u16
}

/// The symbol that announces the press of a key.
pub open spec fn press_symbol(key: u8) -> u16 {
    (0x200 + key) as u16
}

/// The symbol announces a modifier byte.
pub open spec fn is_modifier_symbol(symbol: u16) -> bool {
    symbol < 0x100
}

/// The symbol announces a release.
pub open spec fn is_release_symbol(symbol: u16) -> bool {
    0x100 <= symbol < 0x200
}

/// The symbol announces a press.
pub open spec fn is_press_symbol(symbol: u16) -> bool {
    0x200 <= symbol < 0x300
}

/// The modifier symbol of a transition: one if the modifier byte changed.
pub open spec fn modifier_symbols(prev: Seq<u8>, new: Seq<u8>) -> Seq<u16> {
    if prev[0] != new[0] {
        seq![modifier_symbol(new[0])]
    } else {
        Seq::empty()
    }
}

/// One release symbol for each key that vanished, in the old report's order.
pub open spec fn release_symbols(prev: Seq<u8>, new: Seq<u8>) -> Seq<u16> {
    vanished(prev, new).map_values(|key: u8| release_symbol(key))
}

/// One press symbol for each key that appeared, in the new report's order.
pub open spec fn press_symbols(prev: Seq<u8>, new: Seq<u8>) -> Seq<u16> {
    vanished(new, prev).map_values(|key: u8| press_symbol(key))
}

/// The symbols of the transition from `prev` to `new`: the modifier symbol,
/// then the releases, then the presses. A report with a roll-over value in a
/// key slot yields no release and no press.
pub open spec fn transition_symbols(prev: Seq<u8>, new: Seq<u8>) -> Seq<u16> {
    if has_rollover(new) {
        modifier_symbols(prev, new)
    } else {
        modifier_symbols(prev, new) + release_symbols(prev, new) + press_symbols(prev, new)
    }
}

/// The chord reports of a run of symbols whose first chord uses `phase`.
pub open spec fn chords(symbols: Seq<u16>, phase: Phase) -> Seq<Seq<u8>> {
    Seq::new(symbols.len(), |i: int| chord_report(symbols[i], phase.after(i as nat)))
}

/// The contents of a list of reports.
pub open spec fn reports_of(reports: Seq<Vec<u8>>) -> Seq<Seq<u8>> {
    reports.map_values(|report: Vec<u8>| report@)
}

/// What a transcoder remembers between two reports.
pub ghost struct TranscoderState {
    /// The last report that was accepted.
    pub previous: Seq<u8>,
    /// The alphabet of the next chord.
    pub phase: Phase,
}

/// One call of the transcoder: the state after it and the chords it yields. A
/// report that is not eight bytes long changes nothing and yields nothing.
pub open spec fn step(state: TranscoderState, report: Seq<u8>) -> (TranscoderState, Seq<Seq<u8>>) {
    if report.len() != 8 {
        (state, Seq::empty())
    } else {
        let symbols = transition_symbols(state.previous, report);
        (
            TranscoderState { previous: report, phase: state.phase.after(symbols.len()) },
            chords(symbols, state.phase),
        )
    }
}

/// All the chords that a series of reports yields, in order.
pub open spec fn run(state: TranscoderState, reports: Seq<Seq<u8>>) -> Seq<Seq<u8>>
    decreases reports.len(),
{
    if reports.len() == 0 {
        Seq::empty()
    } else {
        let (next, out) = step(state, reports.first());
        out + run(next, reports.drop_first())
    }
}

/// The four keys of a report all belong to the alphabet `phase`.
pub open spec fn in_alphabet(report: Seq<u8>, phase: Phase) -> bool {
    forall|i: int| 2 <= i < 6 ==> phase.base() <= #[trigger] report[i] < phase.base() + 18
}

/// Turns keyboard reports into chord reports.
pub struct Transcoder {
    phase: Phase,
    prev: [u8; 8],
}

impl View for Transcoder {
    type V = TranscoderState;

    closed spec fn view(&self) -> TranscoderState {
        TranscoderState { previous: self.prev@, phase: self.phase }
    }
}

impl Transcoder {
    /// A transcoder that has seen no key yet and starts with alphabet A.
    pub fn new() -> (t: Transcoder)
        ensures
            t@.previous == Seq::new(8, |i: int| 0u8),
            t@.phase == Phase::A,
    {
        let t = Transcoder { phase: Phase::A, prev: [0u8; 8] };
        assert(t.prev@ =~= Seq::new(8, |i: int| 0u8));
        t
    }

    /// Takes the next report from the keyboard and returns the chords that
    /// tell what changed since the last one.
    pub fn transcode(&mut self, data: Vec<u8>) -> (result: Vec<Vec<u8>>)
        ensures
            (final(self)@, reports_of(result@)) == step(old(self)@, data@),
            final(self)@.previous.len() == 8,
    {
        let mut result: Vec<Vec<u8>> = Vec::new();
        if data.len() != REPORT_LEN {
            assert(reports_of(result@) =~= Seq::empty());
            return result;
        }
        let prev = self.prev;
        let ghost phase0 = self.phase;
        let ghost mut emitted: Seq<u16> = Seq::empty();
        self.prev = [data[0], data[1], data[2], data[3], data[4], data[5], data[6], data[7]];
        assert(self.prev@ =~= data@);

        if prev[0] != data[0] {
            let report = self.encode_bits(data[0] as u16);
            result.push(report);
            proof {
                emitted = emitted.push(modifier_symbol(data[0]));
            }
        }
        assert(emitted =~= modifier_symbols(prev@, data@));

        if holds_rollover(&data) {
            proof {
                lemma_reports_are_chords(result@, emitted, phase0);
            }
            return result;
        }
        let ghost gone = is_gone(key_slots(data@));
        let ghost released = |key: u8| release_symbol(key);
        let mut i: usize = 2;
        while i < 8
            invariant
                2 <= i <= 8,
                data@.len() == 8,
                self.prev@ == data@,
                gone == is_gone(key_slots(data@)),
                released == (|key: u8| release_symbol(key)),
                emitted == modifier_symbols(prev@, data@) + key_slots(prev@).take(i - 2).filter(
                    gone,
                ).map_values(released),
                self.phase == phase0.after(emitted.len()),
                result@.len() == emitted.len(),
                forall|k: int|
                    0 <= k < emitted.len() ==> (#[trigger] result@[k])@ == chord_report(
                        emitted[k],
                        phase0.after(k as nat),
                    ),
            decreases 8 - i,
        {
            let key = prev[i];
            let ghost before = key_slots(prev@).take(i - 2);
            proof {
                assert(key_slots(prev@).take(i - 1) =~= before.push(key));
                before.lemma_filter_push(key, gone);
            }
            if key != 0 && !holds_key(&data, key) {
                let report = self.encode_bits(0x100 + key as u16);
                result.push(report);
                proof {
                    assert(before.push(key).filter(gone).map_values(released) =~= before.filter(
                        gone,
                    ).map_values(released).push(release_symbol(key)));
                    emitted = emitted.push(release_symbol(key));
                }
            }
            i = i + 1;
            assert(emitted =~= modifier_symbols(prev@, data@) + key_slots(prev@).take(
                i - 2,
            ).filter(gone).map_values(released));
        }
        assert(key_slots(prev@).take(6) =~= key_slots(prev@));
        assert(emitted =~= modifier_symbols(prev@, data@) + release_symbols(prev@, data@));

        let ghost absent = is_gone(key_slots(prev@));
        let ghost pressed = |key: u8| press_symbol(key);
        let mut i: usize = 2;
        while i < 8
            invariant
                2 <= i <= 8,
                data@.len() == 8,
                self.prev@ == data@,
                absent == is_gone(key_slots(prev@)),
                pressed == (|key: u8| press_symbol(key)),
                emitted == modifier_symbols(prev@, data@) + release_symbols(prev@, data@)
                    + key_slots(data@).take(i - 2).filter(absent).map_values(pressed),
                self.phase == phase0.after(emitted.len()),
                result@.len() == emitted.len(),
                forall|k: int|
                    0 <= k < emitted.len() ==> (#[trigger] result@[k])@ == chord_report(
                        emitted[k],
                        phase0.after(k as nat),
                    ),
            decreases 8 - i,
        {
            let key = data[i];
            let ghost before = key_slots(data@).take(i - 2);
            proof {
                assert(key_slots(data@).take(i - 1) =~= before.push(key));
                before.lemma_filter_push(key, absent);
            }
            if key != 0 && !holds_key_of(&prev, key) {
                let report = self.encode_bits(0x200 + key as u16);
                result.push(report);
                proof {
                    assert(before.push(key).filter(absent).map_values(pressed) =~= before.filter(
                        absent,
                    ).map_values(pressed).push(press_symbol(key)));
                    emitted = emitted.push(press_symbol(key));
                }
            }
            i = i + 1;
            assert(emitted =~= modifier_symbols(prev@, data@) + release_symbols(prev@, data@)
                + key_slots(data@).take(i - 2).filter(absent).map_values(pressed));
        }
        assert(key_slots(data@).take(6) =~= key_slots(data@));
        assert(emitted =~= transition_symbols(prev@, data@));
        proof {
            lemma_reports_are_chords(result@, emitted, phase0);
        }
        result
    }

    /// Renders one symbol as a chord of the current alphabet and moves on to
    /// the other alphabet.
    pub fn encode_bits(&mut self, bits: u16) -> (report: Vec<u8>)
        ensures
            report@ == chord_report(bits, old(self)@.phase),
            final(self)@.phase == old(self)@.phase.flipped(),
            final(self)@.previous == old(self)@.previous,
    {
        let phase = self.phase;
        self.phase = phase.flip();
        let base = phase.first_key();
        let slots = chord_slots(bits);
        let mut report: Vec<u8> = Vec::new();
        report.push(0);
        report.push(0);
        let mut i: usize = 0;
        while i < 4
            invariant
                i <= 4,
                base == phase.base(),
                report@.len() == i + 2,
                report@[0] == 0,
                report@[1] == 0,
                forall|k: int| 0 <= k < 4 ==> 0 <= #[trigger] slots[k] < 18,
                forall|k: int| 0 <= k < i ==> #[trigger] report@[k + 2] == base + slots[k],
            decreases 4 - i,
        {
            report.push(base + slots[i]);
            i = i + 1;
        }
        report.push(0);
        report.push(0);
        assert(report@[0int + 2] == base + slots[0]);
        assert(report@[1int + 2] == base + slots[1]);
        assert(report@[2int + 2] == base + slots[2]);
        assert(report@[3int + 2] == base + slots[3]);
        assert(report@ =~= chord_report(bits, phase));
        report
    }
}

/// Tells whether a key slot of `report` holds a roll-over value.
fn holds_rollover(report: &Vec<u8>) -> (r: bool)
    requires
        report@.len() == 8,
    ensures
        r == has_rollover(report@),
{
    let mut i: usize = 2;
    while i < 8
        invariant
            2 <= i <= 8,
            report@.len() == 8,
            forall|k: int| 2 <= k < i ==> report@[k] > 3,
        decreases 8 - i,
    {
        if report[i] <= 3 {
            return true;
        }
        i = i + 1;
    }
    false
}

/// Tells whether a key slot of `report` holds `key`.
fn holds_key(report: &Vec<u8>, key: u8) -> (r: bool)
    requires
        report@.len() == 8,
    ensures
        r == key_slots(report@).contains(key),
{
    let mut i: usize = 2;
    while i < 8
        invariant
            2 <= i <= 8,
            report@.len() == 8,
            forall|k: int| 2 <= k < i ==> report@[k] != key,
        decreases 8 - i,
    {
        if report[i] == key {
            assert(key_slots(report@)[i - 2] == key);
            return true;
        }
        i = i + 1;
    }
    assert forall|k: int| 0 <= k < 6 implies key_slots(report@)[k] != key by {
        assert(key_slots(report@)[k] == report@[k + 2]);
    }
    false
}

/// Tells whether a key slot of the stored report holds `key`.
fn holds_key_of(report: &[u8; 8], key: u8) -> (r: bool)
    ensures
        r == key_slots(report@).contains(key),
{
    let mut i: usize = 2;
    while i < 8
        invariant
            2 <= i <= 8,
            forall|k: int| 2 <= k < i ==> report@[k] != key,
        decreases 8 - i,
    {
        if report[i] == key {
            assert(key_slots(report@)[i - 2] == key);
            return true;
        }
        i = i + 1;
    }
    assert forall|k: int| 0 <= k < 6 implies key_slots(report@)[k] != key by {
        assert(key_slots(report@)[k] == report@[k + 2]);
    }
    false
}

proof fn lemma_reports_are_chords(reports: Seq<Vec<u8>>, symbols: Seq<u16>, phase: Phase)
    requires
        reports.len() == symbols.len(),
        forall|k: int|
            0 <= k < symbols.len() ==> (#[trigger] reports[k])@ == chord_report(
                symbols[k],
                phase.after(k as nat),
            ),
    ensures
        reports_of(reports) == chords(symbols, phase),
{
    assert(reports_of(reports) =~= chords(symbols, phase));
}

} // verus!
