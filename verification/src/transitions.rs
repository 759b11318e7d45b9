//! What holds of the symbols of every transition, and of the chords of every
//! series of reports.

use crate::chord::{
    chord_index, chord_report, lemma_chord_index_in_alphabet, lemma_keys_distinct, repeats_a_key,
    Phase,
};
use crate::transcoder::{
    has_rollover, in_alphabet, is_modifier_symbol, is_press_symbol, is_release_symbol,
    key_slots, modifier_symbols, press_symbols, release_symbols, run, step, transition_symbols,
    vanished, TranscoderState,
};
use vstd::prelude::*;

verus! {

/// The test that picks the modifier symbols out of a run of symbols.
pub open spec fn modifier_test() -> spec_fn(u16) -> bool {
    |symbol: u16| is_modifier_symbol(symbol)
}

/// The test that picks the release symbols out of a run of symbols.
pub open spec fn release_test() -> spec_fn(u16) -> bool {
    |symbol: u16| is_release_symbol(symbol)
}

/// The test that picks the press symbols out of a run of symbols.
pub open spec fn press_test() -> spec_fn(u16) -> bool {
    |symbol: u16| is_press_symbol(symbol)
}

proof fn lemma_filter_keeps_all<A>(s: Seq<A>, pred: spec_fn(A) -> bool)
    requires
        forall|i: int| 0 <= i < s.len() ==> pred(#[trigger] s[i]),
    ensures
        s.filter(pred) == s,
    decreases s.len(),
{
    reveal(Seq::filter);
    if s.len() > 0 {
        lemma_filter_keeps_all(s.drop_last(), pred);
        assert(s.drop_last().push(s.last()) =~= s);
    } else {
        assert(s.filter(pred) =~= s);
    }
}

proof fn lemma_filter_drops_all<A>(s: Seq<A>, pred: spec_fn(A) -> bool)
    requires
        forall|i: int| 0 <= i < s.len() ==> !pred(#[trigger] s[i]),
    ensures
        s.filter(pred) == Seq::<A>::empty(),
    decreases s.len(),
{
    reveal(Seq::filter);
    if s.len() > 0 {
        lemma_filter_drops_all(s.drop_last(), pred);
    } else {
        assert(s.filter(pred) =~= Seq::<A>::empty());
    }
}

proof fn lemma_filter_no_duplicates<A>(s: Seq<A>, pred: spec_fn(A) -> bool)
    requires
        s.no_duplicates(),
    ensures
        s.filter(pred).no_duplicates(),
    decreases s.len(),
{
    reveal(Seq::filter);
    if s.len() > 0 {
        let front = s.drop_last();
        lemma_filter_no_duplicates(front, pred);
        let kept = front.filter(pred);
        assert forall|i: int| 0 <= i < kept.len() implies kept[i] != s.last() by {
            assert(kept.contains(kept[i]));
            front.lemma_filter_contains_rev(pred, kept[i]);
            let j = choose|j: int| 0 <= j < front.len() && front[j] == kept[i];
            assert(s[j] == kept[i]);
        }
    }
}

/// A key is among the vanished keys exactly when it is a key, the old report
/// holds it and the new one does not. Where the old report holds no key
/// twice, no key vanishes twice.
pub proof fn lemma_vanished_keys(from: Seq<u8>, to: Seq<u8>, key: u8)
    requires
        from.len() == 8,
        to.len() == 8,
    ensures
        vanished(from, to).contains(key) <==> key != 0 && key_slots(from).contains(key)
            && !key_slots(to).contains(key),
        key_slots(from).no_duplicates() ==> vanished(from, to).no_duplicates(),
{
    let slots = key_slots(from);
    let gone = crate::transcoder::is_gone(key_slots(to));
    if vanished(from, to).contains(key) {
        let i = choose|i: int| 0 <= i < vanished(from, to).len() && vanished(from, to)[i] == key;
        slots.lemma_filter_pred(gone, i);
        slots.lemma_filter_contains_rev(gone, key);
    }
    if key != 0 && slots.contains(key) && !key_slots(to).contains(key) {
        let i = choose|i: int| 0 <= i < slots.len() && slots[i] == key;
        assert(gone(slots[i]));
        slots.lemma_filter_contains(gone, i);
    }
    if slots.no_duplicates() {
        lemma_filter_no_duplicates(slots, gone);
    }
}

/// Where the new report shows no roll-over, the symbols of a transition are:
/// one modifier symbol if the modifier byte changed and none if it did not;
/// one release symbol for each key that vanished; one press symbol for each
/// key that appeared; and every release stands before every press.
pub proof fn lemma_transition_shape(prev: Seq<u8>, new: Seq<u8>)
    requires
        prev.len() == 8,
        new.len() == 8,
        !has_rollover(new),
    ensures
        ({
            let symbols = transition_symbols(prev, new);
            &&& symbols.filter(modifier_test()) == modifier_symbols(prev, new)
            &&& symbols.filter(modifier_test()).len() == (if prev[0] != new[0] {
                1nat
            } else {
                0nat
            })
            &&& symbols.filter(release_test()) == release_symbols(prev, new)
            &&& symbols.filter(release_test()).len() == vanished(prev, new).len()
            &&& symbols.filter(press_test()) == press_symbols(prev, new)
            &&& symbols.filter(press_test()).len() == vanished(new, prev).len()
            &&& symbols.len() == symbols.filter(modifier_test()).len() + symbols.filter(
                release_test(),
            ).len() + symbols.filter(press_test()).len()
            &&& forall|i: int, j: int|
                0 <= i < symbols.len() && 0 <= j < symbols.len() && is_release_symbol(symbols[i])
                    && is_press_symbol(symbols[j]) ==> i < j
        }),
{
    let m = modifier_symbols(prev, new);
    let r = release_symbols(prev, new);
    let p = press_symbols(prev, new);
    let symbols = transition_symbols(prev, new);
    assert(symbols == m + r + p);
    assert forall|i: int| 0 <= i < m.len() implies is_modifier_symbol(#[trigger] m[i]) by {}
    assert forall|i: int| 0 <= i < r.len() implies is_release_symbol(#[trigger] r[i]) by {}
    assert forall|i: int| 0 <= i < p.len() implies is_press_symbol(#[trigger] p[i]) by {}

    Seq::filter_distributes_over_add(m + r, p, modifier_test());
    Seq::filter_distributes_over_add(m, r, modifier_test());
    lemma_filter_keeps_all(m, modifier_test());
    lemma_filter_drops_all(r, modifier_test());
    lemma_filter_drops_all(p, modifier_test());
    assert(symbols.filter(modifier_test()) =~= m);

    Seq::filter_distributes_over_add(m + r, p, release_test());
    Seq::filter_distributes_over_add(m, r, release_test());
    lemma_filter_drops_all(m, release_test());
    lemma_filter_keeps_all(r, release_test());
    lemma_filter_drops_all(p, release_test());
    assert(symbols.filter(release_test()) =~= r);

    Seq::filter_distributes_over_add(m + r, p, press_test());
    Seq::filter_distributes_over_add(m, r, press_test());
    lemma_filter_drops_all(m, press_test());
    lemma_filter_drops_all(r, press_test());
    lemma_filter_keeps_all(p, press_test());
    assert(symbols.filter(press_test()) =~= p);
}

/// A roll-over value in a key slot of the new report suppresses every release
/// and every press of the transition, and leaves the modifier symbol as it is.
pub proof fn lemma_rollover_suppresses_keys(prev: Seq<u8>, new: Seq<u8>, slot: int)
    requires
        prev.len() == 8,
        new.len() == 8,
        2 <= slot < 8,
        new[slot] <= 3,
    ensures
        has_rollover(new),
        transition_symbols(prev, new) == modifier_symbols(prev, new),
        transition_symbols(prev, new).len() == (if prev[0] != new[0] {
            1nat
        } else {
            0nat
        }),
        forall|i: int|
            0 <= i < transition_symbols(prev, new).len() ==> is_modifier_symbol(
                #[trigger] transition_symbols(prev, new)[i],
            ),
{
}

/// Every chord holds keys of one alphabet only, and the two alphabets share
/// no key.
pub proof fn lemma_chord_in_alphabet(symbol: u16, phase: Phase)
    ensures
        chord_report(symbol, phase).len() == 8,
        in_alphabet(chord_report(symbol, phase), phase),
        !in_alphabet(chord_report(symbol, phase), phase.flipped()),
{
    lemma_chord_index_in_alphabet(symbol as int, 0);
    lemma_chord_index_in_alphabet(symbol as int, 1);
    lemma_chord_index_in_alphabet(symbol as int, 2);
    lemma_chord_index_in_alphabet(symbol as int, 3);
    let report = chord_report(symbol, phase);
    assert(report[2] == phase.base() + chord_index(symbol as int, 0));
    if in_alphabet(report, phase.flipped()) {
        assert(phase.flipped().base() <= report[2] < phase.flipped().base() + 18);
    }
}

/// In either alphabet the chord of a symbol holds four different keys,
/// wherever the symbol is not one of those that repeat a key.
pub proof fn lemma_chord_keys_distinct(symbol: u16, phase: Phase)
    requires
        !repeats_a_key(symbol as int),
    ensures
        forall|i: int, j: int|
            2 <= i < j < 6 ==> chord_report(symbol, phase)[i] != chord_report(symbol, phase)[j],
{
    lemma_keys_distinct(symbol as int);
    lemma_chord_index_in_alphabet(symbol as int, 0);
    lemma_chord_index_in_alphabet(symbol as int, 1);
    lemma_chord_index_in_alphabet(symbol as int, 2);
    lemma_chord_index_in_alphabet(symbol as int, 3);
    let report = chord_report(symbol, phase);
    assert forall|i: int, j: int| 2 <= i < j < 6 implies report[i] != report[j] by {
        assert(report[i] == phase.base() + chord_index(symbol as int, i - 2));
        assert(report[j] == phase.base() + chord_index(symbol as int, j - 2));
        assert(chord_index(symbol as int, i - 2) != chord_index(symbol as int, j - 2));
    }
}

/// Over any series of reports the alphabets alternate strictly: the chord
/// number `k` of the whole output, counted from the state the series began
/// in, uses the alphabet reached after `k` flips.
pub proof fn lemma_alphabets_alternate(state: TranscoderState, reports: Seq<Seq<u8>>, k: int)
    requires
        0 <= k < run(state, reports).len(),
    ensures
        in_alphabet(run(state, reports)[k], state.phase.after(k as nat)),
        !in_alphabet(run(state, reports)[k], state.phase.after(k as nat).flipped()),
    decreases reports.len(),
{
    let (next, out) = step(state, reports.first());
    if k < out.len() {
        let symbols = transition_symbols(state.previous, reports.first());
        assert(out[k] == chord_report(symbols[k], state.phase.after(k as nat)));
        lemma_chord_in_alphabet(symbols[k], state.phase.after(k as nat));
    } else {
        lemma_alphabets_alternate(next, reports.drop_first(), k - out.len());
        assert(next.phase.after((k - out.len()) as nat) == state.phase.after(k as nat));
    }
}

/// Two chords that follow one another are never equal, whatever symbols they
/// carry and whichever calls produced them.
pub proof fn lemma_consecutive_chords_differ(
    state: TranscoderState,
    reports: Seq<Seq<u8>>,
    k: int,
)
    requires
        0 <= k,
        k + 1 < run(state, reports).len(),
    ensures
        run(state, reports)[k] != run(state, reports)[k + 1],
{
    lemma_alphabets_alternate(state, reports, k);
    lemma_alphabets_alternate(state, reports, k + 1);
}

} // verus!
