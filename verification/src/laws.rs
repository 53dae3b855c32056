//! Properties of the validation pipeline that hold for every input, stated
//! and proved once and for all.

use crate::constants::{MIN_COMBO_WINDOW, MIN_DEBOUNCE_TIME};
use crate::parse::{
    beat_input, char_ascii, combo_in_range, config_err, debounce_in_range, global_err,
    global_result, lemma_beats_err_at, rhythm_beats, rhythm_doc_err,
};
use crate::types::{BeatDelay, BongoConfig, ErrView, FreestyleConfig, GlobalConfig};
use vstd::prelude::*;

verus! {

/// Every debounce value within its range is accepted, is carried into the
/// resolved settings unchanged, and leaves the combo window at its default
/// when none is supplied.
pub proof fn lemma_debounce_in_range_accepted(debounce: u16)
    requires
        debounce_in_range(debounce),
    ensures
        ({
            let config = GlobalConfig { debounce: Some(debounce), combo_window: None };
            &&& global_err(config) is None
            &&& global_result(config).debounce == debounce
            &&& global_result(config).combo_window == MIN_COMBO_WINDOW
        }),
{
}

/// Every debounce value outside its range is rejected as exactly
/// `InvalidDebounceTime` carrying that value, whatever else the block holds.
pub proof fn lemma_debounce_out_of_range_rejected(config: GlobalConfig, debounce: u16)
    requires
        config.debounce == Some(debounce),
        !debounce_in_range(debounce),
    ensures
        global_err(config) == Some(ErrView::InvalidDebounceTime(debounce)),
{
}

/// Every combo window within its range is accepted, is carried into the
/// resolved settings unchanged, and leaves the debounce time at its default
/// when none is supplied.
pub proof fn lemma_combo_window_in_range_accepted(combo_window: u16)
    requires
        combo_in_range(combo_window),
    ensures
        ({
            let config = GlobalConfig { debounce: None, combo_window: Some(combo_window) };
            &&& global_err(config) is None
            &&& global_result(config).combo_window == combo_window
            &&& global_result(config).debounce == MIN_DEBOUNCE_TIME
        }),
{
}

/// Every combo window outside its range is rejected as exactly
/// `InvalidComboWindow` carrying that value, provided the debounce time
/// itself passes (an out-of-range debounce is reported first).
pub proof fn lemma_combo_window_out_of_range_rejected(config: GlobalConfig, combo_window: u16)
    requires
        config.combo_window == Some(combo_window),
        !combo_in_range(combo_window),
        match config.debounce {
            Some(t) => debounce_in_range(t),
            None => true,
        },
    ensures
        global_err(config) == Some(ErrView::InvalidComboWindow(combo_window)),
{
}

/// A document without a `freestyle` key is valid whenever its `[global]`
/// block is; `parse` then owes success, and its contract resolves the
/// freestyle settings to the "no rhythms" value.
pub proof fn lemma_absent_freestyle_valid(config: BongoConfig)
    requires
        config.freestyle is None,
        global_err(config.global) is None,
    ensures
        config_err(config) is None,
{
}

/// A rhythm whose beat count is not one more than its delay count always
/// fails; once the character and non-emptiness checks pass, it fails as
/// `TooFewDelays` when beats are fewer than delays plus one, and as
/// `TooManyDelays` when greater.
pub proof fn lemma_beat_delay_count_mismatch(r: FreestyleConfig)
    requires
        r.beats@.len() != r.delays@.len() + 1,
    ensures
        rhythm_doc_err(r) is Some,
        char_ascii(r.character) && r.beats@.len() > 0 && r.beats@.len() < r.delays@.len() + 1
            ==> rhythm_doc_err(r) == Some(ErrView::TooFewDelays(r.character)),
        char_ascii(r.character) && r.beats@.len() > r.delays@.len() + 1 ==> rhythm_doc_err(r)
            == Some(ErrView::TooManyDelays(r.character)),
{
}

/// A rhythm whose first unrecognized beat token stands at position `k` fails
/// as exactly `InvalidBeat` carrying that token, however valid the remaining
/// beats and the delays are.
pub proof fn lemma_unrecognized_beat_rejected(r: FreestyleConfig, k: int)
    requires
        char_ascii(r.character),
        r.beats@.len() == r.delays@.len() + 1,
        0 <= k < r.beats@.len(),
        beat_input(r.beats@[k]@) is None,
        forall|j: int| 0 <= j < k ==> beat_input(#[trigger] r.beats@[j]@) is Some,
    ensures
        rhythm_doc_err(r) == Some(ErrView::InvalidBeat(r.beats@[k]@, r.character)),
{
    lemma_beats_err_at(r.beats@, r.character, k);
}

/// Round trip of the beat/delay pairing: for every valid rhythm document,
/// the resolved beat sequence has exactly as many pairs as the document has
/// beats, each beat keeps its position and is paired with the delay at the
/// same position, and only the last pair lacks a delay.
pub proof fn lemma_rhythm_pairing_round_trip(r: FreestyleConfig)
    requires
        rhythm_doc_err(r) is None,
    ensures
        rhythm_beats(r).len() == r.beats@.len(),
        r.beats@.len() == r.delays@.len() + 1,
        forall|i: int|
            0 <= i < r.delays@.len() ==> (#[trigger] rhythm_beats(r)[i]).1 == Some(
                BeatDelay(r.delays@[i]),
            ),
        rhythm_beats(r)[r.beats@.len() - 1].1 is None,
        forall|i: int|
            0 <= i < r.beats@.len() ==> (#[trigger] rhythm_beats(r)[i]).0 == beat_input(
                r.beats@[i]@,
            )->0,
{
}

/// An out-of-range debounce time invalidates the whole document as exactly
/// `InvalidDebounceTime`, whatever the rest of the document holds.
pub proof fn lemma_global_error_preempts(config: BongoConfig, debounce: u16)
    requires
        config.global.debounce == Some(debounce),
        !debounce_in_range(debounce),
    ensures
        config_err(config) == Some(ErrView::InvalidDebounceTime(debounce)),
{
}

} // verus!
