//! The validation pipeline: from a raw [`BongoConfig`] document to resolved
//! [`BongoSettings`], or the first [`MappingsParseError`] encountered.
//!
//! Checks run in a fixed order and stop at the first failure: the `[global]`
//! block first, then each rhythm in document order; within one rhythm the
//! binding character, then non-emptiness, then the beat/delay count
//! relationship, then each beat token, then each delay value.

use crate::constants::{MAX_COMBO_WINDOW, MAX_DEBOUNCE_TIME, MIN_COMBO_WINDOW, MIN_DEBOUNCE_TIME};
use crate::types::{
    BeatDelay, BongoConfig, BongoInput, BongoSettings, ErrView, FreestyleConfig, FreestyleRhythm,
    FreestyleSettings, GlobalConfig, GlobalSettings, MappingsParseError,
};
use vstd::prelude::*;

verus! {

/// Whether a debounce time (or a delay, which shares the bounds) is accepted.
pub open spec fn debounce_in_range(t: u16) -> bool {
    MIN_DEBOUNCE_TIME <= t <= MAX_DEBOUNCE_TIME
}

/// Whether a combo window is accepted.
pub open spec fn combo_in_range(w: u16) -> bool {
    MIN_COMBO_WINDOW <= w <= MAX_COMBO_WINDOW
}

/// The error the `combo_window` field alone gives rise to, if any.
pub open spec fn combo_err(config: GlobalConfig) -> Option<ErrView> {
    match config.combo_window {
        Some(w) => if combo_in_range(w) {
            None
        } else {
            Some(ErrView::InvalidComboWindow(w))
        },
        None => None,
    }
}

/// The first error of the `[global]` block, if any: an out-of-range
/// `debounce` is reported before an out-of-range `combo_window`.
pub open spec fn global_err(config: GlobalConfig) -> Option<ErrView> {
    match config.debounce {
        Some(t) => if debounce_in_range(t) {
            combo_err(config)
        } else {
            Some(ErrView::InvalidDebounceTime(t))
        },
        None => combo_err(config),
    }
}

/// The resolved global settings of a valid `[global]` block: supplied values
/// carried over, absent ones defaulted to their minimum.
pub open spec fn global_result(config: GlobalConfig) -> GlobalSettings {
    GlobalSettings {
        debounce: match config.debounce {
            Some(t) => t,
            None => MIN_DEBOUNCE_TIME,
        },
        combo_window: match config.combo_window {
            Some(w) => w,
            None => MIN_COMBO_WINDOW,
        },
    }
}

/// Well-formedness of resolved global settings: both timings lie within
/// their ranges.
pub open spec fn global_settings_wf(s: GlobalSettings) -> bool {
    debounce_in_range(s.debounce) && combo_in_range(s.combo_window)
}

/// Resolves the `[global]` block: both timings must lie in range when
/// supplied, and default to their minimum when absent.
pub fn parse_global(config: &GlobalConfig) -> (r: Result<GlobalSettings, MappingsParseError>)
    ensures
        match r {
            Ok(s) => global_err(*config) is None && s == global_result(*config)
                && global_settings_wf(s),
            Err(e) => global_err(*config) == Some(e@),
        },
{
    let mut settings = GlobalSettings::default();

    if let Some(debounce) = config.debounce {
        if debounce < MIN_DEBOUNCE_TIME || debounce > MAX_DEBOUNCE_TIME {
            return Err(MappingsParseError::InvalidDebounceTime(debounce));
        }
        settings.debounce = debounce;
    }

    if let Some(combo_window) = config.combo_window {
        if combo_window < MIN_COMBO_WINDOW || combo_window > MAX_COMBO_WINDOW {
            return Err(MappingsParseError::InvalidComboWindow(combo_window));
        }
        settings.combo_window = combo_window;
    }

    Ok(settings)
}

/// Whether a rhythm may be bound to this character.
pub open spec fn char_ascii(c: char) -> bool {
    (c as u32) < 128
}

/// The input an exact, case-sensitive beat token names, or `None` for any
/// other token.
pub open spec fn beat_input(tok: Seq<char>) -> Option<BongoInput> {
    if tok == "BLB"@ {
        Some(BongoInput::BackLeftBongo)
    } else if tok == "FLB"@ {
        Some(BongoInput::FrontLeftBongo)
    } else if tok == "BRB"@ {
        Some(BongoInput::BackRightBongo)
    } else if tok == "FRB"@ {
        Some(BongoInput::FrontRightBongo)
    } else if tok == "SPB"@ {
        Some(BongoInput::StartPauseButton)
    } else if tok == "MIC"@ {
        Some(BongoInput::ClapMicrophone)
    } else {
        None
    }
}

/// The error the first unrecognized beat token gives rise to, if any.
pub open spec fn beats_err(beats: Seq<String>, character: char) -> Option<ErrView>
    decreases beats.len(),
{
    if beats.len() == 0 {
        None
    } else if beat_input(beats[0]@) is None {
        Some(ErrView::InvalidBeat(beats[0]@, character))
    } else {
        beats_err(beats.drop_first(), character)
    }
}

/// The error the first out-of-range delay gives rise to, if any.
pub open spec fn delays_err(delays: Seq<u16>, character: char) -> Option<ErrView>
    decreases delays.len(),
{
    if delays.len() == 0 {
        None
    } else if !debounce_in_range(delays[0]) {
        Some(ErrView::InvalidDelay(delays[0], character))
    } else {
        delays_err(delays.drop_first(), character)
    }
}

/// The first error of one rhythm document, if any, in checking order: the
/// binding character, then non-emptiness, then the beat/delay count
/// relationship, then each beat token, then each delay value.
pub open spec fn rhythm_doc_err(r: FreestyleConfig) -> Option<ErrView> {
    if !char_ascii(r.character) {
        Some(ErrView::InvalidCharacter(r.character))
    } else if r.beats@.len() == 0 {
        Some(ErrView::EmptyRhythm(r.character))
    } else if r.beats@.len() < r.delays@.len() + 1 {
        Some(ErrView::TooFewDelays(r.character))
    } else if r.beats@.len() > r.delays@.len() + 1 {
        Some(ErrView::TooManyDelays(r.character))
    } else if beats_err(r.beats@, r.character) is Some {
        beats_err(r.beats@, r.character)
    } else {
        delays_err(r.delays@, r.character)
    }
}

/// The beat sequence a valid rhythm document resolves to: `beats[i]` mapped
/// to its input and paired with `delays[i]`, except the last beat, which no
/// delay follows.
pub open spec fn rhythm_beats(r: FreestyleConfig) -> Seq<(BongoInput, Option<BeatDelay>)> {
    Seq::new(
        r.beats@.len(),
        |i: int|
            (
                beat_input(r.beats@[i]@)->0,
                if i + 1 < r.beats@.len() {
                    Some(BeatDelay(r.delays@[i]))
                } else {
                    None
                },
            ),
    )
}

/// The error of the first invalid rhythm document, if any.
pub open spec fn freestyle_err(config: Seq<FreestyleConfig>) -> Option<ErrView>
    decreases config.len(),
{
    if config.len() == 0 {
        None
    } else if rhythm_doc_err(config[0]) is Some {
        rhythm_doc_err(config[0])
    } else {
        freestyle_err(config.drop_first())
    }
}

/// `beats_err` is `None` exactly when every beat token is recognized.
pub proof fn lemma_beats_err_none(beats: Seq<String>, character: char)
    ensures
        beats_err(beats, character) is None <==> (forall|i: int|
            0 <= i < beats.len() ==> beat_input(#[trigger] beats[i]@) is Some),
    decreases beats.len(),
{
    if beats.len() > 0 {
        lemma_beats_err_none(beats.drop_first(), character);
        if beats_err(beats, character) is None {
            assert forall|i: int| 0 <= i < beats.len() implies beat_input(
                #[trigger] beats[i]@,
            ) is Some by {
                if i > 0 {
                    assert(beats[i] == beats.drop_first()[i - 1]);
                }
            }
        }
        if forall|i: int| 0 <= i < beats.len() ==> beat_input(#[trigger] beats[i]@) is Some {
            assert forall|i: int| 0 <= i < beats.drop_first().len() implies beat_input(
                #[trigger] beats.drop_first()[i]@,
            ) is Some by {
                assert(beats.drop_first()[i] == beats[i + 1]);
            }
        }
    }
}

/// When the first `k` beat tokens are recognized and the one at `k` is not,
/// `beats_err` names exactly that token.
pub proof fn lemma_beats_err_at(beats: Seq<String>, character: char, k: int)
    requires
        0 <= k < beats.len(),
        forall|j: int| 0 <= j < k ==> beat_input(#[trigger] beats[j]@) is Some,
        beat_input(beats[k]@) is None,
    ensures
        beats_err(beats, character) == Some(ErrView::InvalidBeat(beats[k]@, character)),
    decreases beats.len(),
{
    if k > 0 {
        assert(forall|i: int|
            0 <= i < beats.drop_first().len() ==> #[trigger] beats.drop_first()[i] == beats[i + 1]);
        lemma_beats_err_at(beats.drop_first(), character, k - 1);
    }
}

/// `delays_err` is `None` exactly when every delay lies in range.
pub proof fn lemma_delays_err_none(delays: Seq<u16>, character: char)
    ensures
        delays_err(delays, character) is None <==> (forall|i: int|
            0 <= i < delays.len() ==> debounce_in_range(#[trigger] delays[i])),
    decreases delays.len(),
{
    if delays.len() > 0 {
        lemma_delays_err_none(delays.drop_first(), character);
        if delays_err(delays, character) is None {
            assert forall|i: int| 0 <= i < delays.len() implies debounce_in_range(
                #[trigger] delays[i],
            ) by {
                if i > 0 {
                    assert(delays[i] == delays.drop_first()[i - 1]);
                }
            }
        }
        if forall|i: int| 0 <= i < delays.len() ==> debounce_in_range(#[trigger] delays[i]) {
            assert forall|i: int| 0 <= i < delays.drop_first().len() implies debounce_in_range(
                #[trigger] delays.drop_first()[i],
            ) by {
                assert(delays.drop_first()[i] == delays[i + 1]);
            }
        }
    }
}

/// When the first `k` delays lie in range and the one at `k` does not,
/// `delays_err` names exactly that delay.
pub proof fn lemma_delays_err_at(delays: Seq<u16>, character: char, k: int)
    requires
        0 <= k < delays.len(),
        forall|j: int| 0 <= j < k ==> debounce_in_range(#[trigger] delays[j]),
        !debounce_in_range(delays[k]),
    ensures
        delays_err(delays, character) == Some(ErrView::InvalidDelay(delays[k], character)),
    decreases delays.len(),
{
    if k > 0 {
        lemma_delays_err_at(delays.drop_first(), character, k - 1);
    }
}

/// `freestyle_err` is `None` exactly when every rhythm document is valid.
pub proof fn lemma_freestyle_err_none(config: Seq<FreestyleConfig>)
    ensures
        freestyle_err(config) is None <==> (forall|i: int|
            0 <= i < config.len() ==> rhythm_doc_err(#[trigger] config[i]) is None),
    decreases config.len(),
{
    if config.len() > 0 {
        lemma_freestyle_err_none(config.drop_first());
        if freestyle_err(config) is None {
            assert forall|i: int| 0 <= i < config.len() implies rhythm_doc_err(
                #[trigger] config[i],
            ) is None by {
                if i > 0 {
                    assert(config[i] == config.drop_first()[i - 1]);
                }
            }
        }
        if forall|i: int| 0 <= i < config.len() ==> rhythm_doc_err(#[trigger] config[i]) is None {
            assert forall|i: int| 0 <= i < config.drop_first().len() implies rhythm_doc_err(
                #[trigger] config.drop_first()[i],
            ) is None by {
                assert(config.drop_first()[i] == config[i + 1]);
            }
        }
    }
}

/// When the first `k` rhythm documents are valid and the one at `k` is not,
/// `freestyle_err` reports exactly that rhythm's error.
pub proof fn lemma_freestyle_err_at(config: Seq<FreestyleConfig>, k: int)
    requires
        0 <= k < config.len(),
        forall|j: int| 0 <= j < k ==> rhythm_doc_err(#[trigger] config[j]) is None,
        rhythm_doc_err(config[k]) is Some,
    ensures
        freestyle_err(config) == rhythm_doc_err(config[k]),
    decreases config.len(),
{
    if k > 0 {
        lemma_freestyle_err_at(config.drop_first(), k - 1);
    }
}

/// Well-formedness of one resolved rhythm: an ASCII binding character, at
/// least one beat, every beat but the last followed by an in-range delay,
/// and the last followed by none.
pub open spec fn rhythm_wf(r: FreestyleRhythm) -> bool {
    &&& char_ascii(r.character)
    &&& r.beats@.len() > 0
    &&& forall|i: int|
        0 <= i < r.beats@.len() ==> ((#[trigger] r.beats@[i]).1 is Some <==> i + 1
            < r.beats@.len())
    &&& forall|i: int|
        0 <= i && i + 1 < r.beats@.len() ==> debounce_in_range(((#[trigger] r.beats@[i]).1->0).0)
}

/// Well-formedness of whole settings: the global timings and every rhythm.
pub open spec fn settings_wf(s: BongoSettings) -> bool {
    &&& global_settings_wf(s.global)
    &&& match s.freestyle.0 {
        Some(rhythms) => forall|i: int|
            0 <= i < rhythms@.len() ==> rhythm_wf(#[trigger] rhythms@[i]),
        None => true,
    }
}

/// Maps one beat token to the input it names, by the exact, case-sensitive
/// token table; any other token is rejected.
pub fn beat_token_input(beat: &String) -> (r: Option<BongoInput>)
    ensures
        r == beat_input(beat@),
{
    if beat.eq(&"BLB".to_owned()) {
        Some(BongoInput::BackLeftBongo)
    } else if beat.eq(&"FLB".to_owned()) {
        Some(BongoInput::FrontLeftBongo)
    } else if beat.eq(&"BRB".to_owned()) {
        Some(BongoInput::BackRightBongo)
    } else if beat.eq(&"FRB".to_owned()) {
        Some(BongoInput::FrontRightBongo)
    } else if beat.eq(&"SPB".to_owned()) {
        Some(BongoInput::StartPauseButton)
    } else if beat.eq(&"MIC".to_owned()) {
        Some(BongoInput::ClapMicrophone)
    } else {
        None
    }
}

/// Validates one rhythm document and resolves its beat/delay pairing.
#[verifier::loop_isolation(false)]
fn parse_rhythm(rhythm: &FreestyleConfig) -> (r: Result<FreestyleRhythm, MappingsParseError>)
    ensures
        match r {
            Ok(out) => rhythm_doc_err(*rhythm) is None && out.character == rhythm.character
                && out.beats@ == rhythm_beats(*rhythm) && rhythm_wf(out),
            Err(e) => rhythm_doc_err(*rhythm) == Some(e@),
        },
{
    let character = rhythm.character;
    if (character as u32) >= 128 {
        return Err(MappingsParseError::InvalidCharacter(character));
    }

    if rhythm.beats.len() == 0 {
        return Err(MappingsParseError::EmptyRhythm(character));
    }

    if rhythm.beats.len() <= rhythm.delays.len() {
        return Err(MappingsParseError::TooFewDelays { character });
    }

    if rhythm.beats.len() - 1 > rhythm.delays.len() {
        return Err(MappingsParseError::TooManyDelays { character });
    }

    let mut inputs: Vec<BongoInput> = Vec::new();
    let mut i: usize = 0;
    while i < rhythm.beats.len()
        invariant
            i <= rhythm.beats@.len(),
            inputs@.len() == i,
            forall|j: int| 0 <= j < i ==> beat_input(#[trigger] rhythm.beats@[j]@) is Some,
            forall|j: int| 0 <= j < i ==> #[trigger] inputs@[j] == beat_input(rhythm.beats@[j]@)->0,
        decreases rhythm.beats@.len() - i,
    {
        match beat_token_input(&rhythm.beats[i]) {
            Some(input) => inputs.push(input),
            None => {
                proof {
                    lemma_beats_err_at(rhythm.beats@, character, i as int);
                }
                return Err(
                    MappingsParseError::InvalidBeat { beat: rhythm.beats[i].clone(), character },
                );
            },
        }
        i += 1;
    }
    proof {
        lemma_beats_err_none(rhythm.beats@, character);
    }

    let mut k: usize = 0;
    while k < rhythm.delays.len()
        invariant
            k <= rhythm.delays@.len(),
            forall|j: int| 0 <= j < k ==> debounce_in_range(#[trigger] rhythm.delays@[j]),
        decreases rhythm.delays@.len() - k,
    {
        let delay = rhythm.delays[k];
        if delay < MIN_DEBOUNCE_TIME || delay > MAX_DEBOUNCE_TIME {
            proof {
                lemma_delays_err_at(rhythm.delays@, character, k as int);
            }
            return Err(MappingsParseError::InvalidDelay { delay, character });
        }
        k += 1;
    }
    proof {
        lemma_delays_err_none(rhythm.delays@, character);
    }

    let mut beats: Vec<(BongoInput, Option<BeatDelay>)> = Vec::new();
    let mut b: usize = 0;
    while b < inputs.len()
        invariant
            b <= inputs@.len(),
            beats@.len() == b,
            forall|j: int| 0 <= j < b ==> #[trigger] beats@[j] == rhythm_beats(*rhythm)[j],
        decreases inputs@.len() - b,
    {
        let delay = if b + 1 < inputs.len() {
            Some(BeatDelay(rhythm.delays[b]))
        } else {
            None
        };
        beats.push((inputs[b], delay));
        b += 1;
    }
    assert(beats@ =~= rhythm_beats(*rhythm));
    proof {
        assert forall|i: int| 0 <= i < beats@.len() implies ((#[trigger] beats@[i]).1 is Some
            <==> i + 1 < beats@.len()) by {
            assert(beats@[i] == rhythm_beats(*rhythm)[i]);
        }
        assert forall|i: int| 0 <= i && i + 1 < beats@.len() implies debounce_in_range(
            ((#[trigger] beats@[i]).1->0).0,
        ) by {
            assert(beats@[i] == rhythm_beats(*rhythm)[i]);
            assert(debounce_in_range(rhythm.delays@[i]));
        }
    }

    Ok(FreestyleRhythm { character, beats })
}

/// Validates a sequence of rhythm documents in document order, stopping at
/// the first invalid one.
#[verifier::loop_isolation(false)]
pub fn parse_freestyle(config: Vec<FreestyleConfig>) -> (r: Result<
    FreestyleSettings,
    MappingsParseError,
>)
    ensures
        match r {
            Ok(s) => {
                &&& freestyle_err(config@) is None
                &&& s.0 matches Some(rhythms) && rhythms@.len() == config@.len() && (forall|i: int|
                    0 <= i < config@.len()
                        ==> (#[trigger] rhythms@[i]).character == config@[i].character
                        && rhythms@[i].beats@ == rhythm_beats(config@[i])
                        && rhythm_wf(rhythms@[i]))
            },
            Err(e) => freestyle_err(config@) == Some(e@),
        },
{
    let mut freestyle: Vec<FreestyleRhythm> = Vec::new();
    let mut idx: usize = 0;
    while idx < config.len()
        invariant
            idx <= config@.len(),
            freestyle@.len() == idx,
            forall|j: int| 0 <= j < idx ==> rhythm_doc_err(#[trigger] config@[j]) is None,
            forall|j: int|
                0 <= j < idx ==> (#[trigger] freestyle@[j]).character == config@[j].character
                    && freestyle@[j].beats@ == rhythm_beats(config@[j]) && rhythm_wf(
                    freestyle@[j],
                ),
        decreases config@.len() - idx,
    {
        match parse_rhythm(&config[idx]) {
            Ok(rhythm) => freestyle.push(rhythm),
            Err(e) => {
                proof {
                    lemma_freestyle_err_at(config@, idx as int);
                }
                return Err(e);
            },
        }
        idx += 1;
    }
    proof {
        lemma_freestyle_err_none(config@);
    }
    Ok(FreestyleSettings(Some(freestyle)))
}

/// The first error of a whole document, if any: the `[global]` block is
/// checked before the freestyle rhythms, and an absent `freestyle` key is
/// valid.
pub open spec fn config_err(config: BongoConfig) -> Option<ErrView> {
    if global_err(config.global) is Some {
        global_err(config.global)
    } else {
        match config.freestyle {
            Some(rhythms) => freestyle_err(rhythms@),
            None => None,
        }
    }
}

/// Validates a whole raw document and resolves it to settings: the
/// `[global]` block first, then every freestyle rhythm in document order,
/// stopping at the first failure.
pub fn parse(config: BongoConfig) -> (r: Result<BongoSettings, MappingsParseError>)
    ensures
        match r {
            Ok(s) => {
                &&& config_err(config) is None
                &&& settings_wf(s)
                &&& s.global == global_result(config.global)
                &&& match config.freestyle {
                    Some(rhythm_docs) => s.freestyle.0 matches Some(rhythms) && rhythms@.len()
                        == rhythm_docs@.len() && (forall|i: int|
                        0 <= i < rhythm_docs@.len()
                            ==> (#[trigger] rhythms@[i]).character == rhythm_docs@[i].character
                            && rhythms@[i].beats@ == rhythm_beats(rhythm_docs@[i])),
                    None => s.freestyle.0 is None,
                }
            },
            Err(e) => config_err(config) == Some(e@),
        },
{
    let global = match parse_global(&config.global) {
        Ok(g) => g,
        Err(e) => return Err(e),
    };

    let freestyle = match config.freestyle {
        Some(docs) => match parse_freestyle(docs) {
            Ok(s) => s,
            Err(e) => return Err(e),
        },
        None => FreestyleSettings(None),
    };

    Ok(BongoSettings { global, freestyle })
}

/// The recovery rule of the apply flow: a valid document's settings are used
/// as they are, and any failure falls back to the default settings.
pub fn settings_or_default(parsed: Result<BongoSettings, MappingsParseError>) -> (s:
    BongoSettings)
    ensures
        match parsed {
            Ok(settings) => s == settings,
            Err(_) => s.global == GlobalSettings::default_spec() && s.freestyle.0 is None,
        },
{
    match parsed {
        Ok(settings) => settings,
        Err(_) => BongoSettings::default(),
    }
}

} // verus!
