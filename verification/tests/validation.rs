use bongo_mappings::constants::{
    MAX_COMBO_WINDOW, MAX_DEBOUNCE_TIME, MIN_COMBO_WINDOW, MIN_DEBOUNCE_TIME,
};
use bongo_mappings::parse::{parse, parse_freestyle, parse_global, settings_or_default};
use bongo_mappings::types::{
    BeatDelay, BongoConfig, BongoInput, FreestyleConfig, GlobalConfig, GlobalSettings,
    MappingsParseError,
};

#[test]
fn test_parse_global_valid() {
    let test_cases = [
        GlobalConfig {
            debounce: None,
            combo_window: None,
        },
        GlobalConfig {
            debounce: Some(MIN_DEBOUNCE_TIME),
            combo_window: None,
        },
        GlobalConfig {
            debounce: Some(MAX_DEBOUNCE_TIME),
            combo_window: None,
        },
        GlobalConfig {
            debounce: None,
            combo_window: Some(MIN_COMBO_WINDOW),
        },
        GlobalConfig {
            debounce: None,
            combo_window: Some(MAX_DEBOUNCE_TIME),
        },
    ];

    for test_case in test_cases.iter() {
        let settings = parse_global(test_case);

        assert!(settings.is_ok());
    }
}

#[test]
fn test_parse_global_invalid() {
    let test_cases = [
        GlobalConfig {
            debounce: Some(MIN_DEBOUNCE_TIME - 1),
            combo_window: None,
        },
        GlobalConfig {
            debounce: Some(MAX_DEBOUNCE_TIME + 1),
            combo_window: None,
        },
        GlobalConfig {
            debounce: None,
            combo_window: Some(MIN_COMBO_WINDOW - 1),
        },
        GlobalConfig {
            debounce: None,
            combo_window: Some(MAX_COMBO_WINDOW + 1),
        },
    ];

    for test_case in test_cases.iter() {
        let settings = parse_global(test_case);

        assert!(settings.is_err());
    }
}

#[test]
fn test_parse_freestyle_valid() {
    let test_cases = [
        Vec::new(),
        vec![FreestyleConfig {
            character: '$',
            beats: vec!["MIC".to_string()],
            delays: vec![],
        }],
    ];

    for test_case in test_cases.iter() {
        let settings = parse_freestyle(test_case.to_vec());

        assert!(settings.is_ok());
    }
}

#[test]
fn in_range_debounce_is_echoed_and_combo_stays_default() {
    for debounce in [MIN_DEBOUNCE_TIME, 200, MAX_DEBOUNCE_TIME] {
        let settings = parse_global(&GlobalConfig {
            debounce: Some(debounce),
            combo_window: None,
        })
        .unwrap();
        assert_eq!(
            settings,
            GlobalSettings {
                debounce,
                combo_window: MIN_COMBO_WINDOW
            }
        );
    }
}

#[test]
fn out_of_range_debounce_is_named_in_the_error() {
    for debounce in [0, MIN_DEBOUNCE_TIME - 1, MAX_DEBOUNCE_TIME + 1, u16::MAX] {
        let result = parse_global(&GlobalConfig {
            debounce: Some(debounce),
            combo_window: None,
        });
        assert_eq!(result, Err(MappingsParseError::InvalidDebounceTime(debounce)));
    }
}

#[test]
fn in_range_combo_window_is_echoed_and_debounce_stays_default() {
    for combo_window in [MIN_COMBO_WINDOW, 2500, MAX_COMBO_WINDOW] {
        let settings = parse_global(&GlobalConfig {
            debounce: None,
            combo_window: Some(combo_window),
        })
        .unwrap();
        assert_eq!(
            settings,
            GlobalSettings {
                debounce: MIN_DEBOUNCE_TIME,
                combo_window
            }
        );
    }
}

#[test]
fn out_of_range_combo_window_is_named_in_the_error() {
    for combo_window in [0, MIN_COMBO_WINDOW - 1, MAX_COMBO_WINDOW + 1, u16::MAX] {
        let result = parse_global(&GlobalConfig {
            debounce: None,
            combo_window: Some(combo_window),
        });
        assert_eq!(result, Err(MappingsParseError::InvalidComboWindow(combo_window)));
    }
}

#[test]
fn absent_freestyle_parses_to_no_rhythms() {
    let settings = parse(BongoConfig {
        global: GlobalConfig {
            debounce: None,
            combo_window: None,
        },
        freestyle: None,
    })
    .unwrap();
    assert!(settings.freestyle.0.is_none());
    assert_eq!(settings.global.debounce, MIN_DEBOUNCE_TIME);
    assert_eq!(settings.global.combo_window, MIN_COMBO_WINDOW);
}

#[test]
fn single_beat_rhythm_has_one_input_and_no_trailing_delay() {
    let settings = parse_freestyle(vec![FreestyleConfig {
        character: '$',
        beats: vec!["MIC".to_string()],
        delays: vec![],
    }])
    .unwrap();
    let rhythms = settings.0.unwrap();
    assert_eq!(rhythms.len(), 1);
    assert_eq!(rhythms[0].character, '$');
    assert_eq!(rhythms[0].beats, vec![(BongoInput::ClapMicrophone, None)]);
}

#[test]
fn every_beat_token_maps_to_its_input() {
    let tokens = ["BLB", "FLB", "BRB", "FRB", "SPB", "MIC"];
    let inputs = [
        BongoInput::BackLeftBongo,
        BongoInput::FrontLeftBongo,
        BongoInput::BackRightBongo,
        BongoInput::FrontRightBongo,
        BongoInput::StartPauseButton,
        BongoInput::ClapMicrophone,
    ];
    let settings = parse_freestyle(vec![FreestyleConfig {
        character: 'k',
        beats: tokens.iter().map(|t| t.to_string()).collect(),
        delays: vec![100; 5],
    }])
    .unwrap();
    let rhythms = settings.0.unwrap();
    assert_eq!(rhythms[0].beats.len(), 6);
    for (i, pair) in rhythms[0].beats.iter().enumerate() {
        assert_eq!(pair.0, inputs[i]);
        if i + 1 < 6 {
            assert_eq!(pair.1, Some(BeatDelay(100)));
        } else {
            assert_eq!(pair.1, None);
        }
    }
}

#[test]
fn fewer_beats_than_delays_plus_one_fails_as_too_few_delays() {
    let result = parse_freestyle(vec![FreestyleConfig {
        character: 'a',
        beats: vec!["BLB".to_string()],
        delays: vec![100, 100],
    }]);
    assert_eq!(result, Err(MappingsParseError::TooFewDelays { character: 'a' }));
}

#[test]
fn more_beats_than_delays_plus_one_fails_as_too_many_delays() {
    let result = parse_freestyle(vec![FreestyleConfig {
        character: 'a',
        beats: vec!["BLB".to_string(), "MIC".to_string(), "SPB".to_string()],
        delays: vec![100],
    }]);
    assert_eq!(result, Err(MappingsParseError::TooManyDelays { character: 'a' }));
}

#[test]
fn unrecognized_beat_token_is_named_in_the_error() {
    let result = parse_freestyle(vec![FreestyleConfig {
        character: 'x',
        beats: vec!["BLB".to_string(), "XYZ".to_string(), "MIC".to_string()],
        delays: vec![100, 100],
    }]);
    assert_eq!(
        result,
        Err(MappingsParseError::InvalidBeat {
            beat: "XYZ".to_string(),
            character: 'x',
        })
    );
}

#[test]
fn lowercase_token_is_not_recognized() {
    let result = parse_freestyle(vec![FreestyleConfig {
        character: 'x',
        beats: vec!["mic".to_string()],
        delays: vec![],
    }]);
    assert_eq!(
        result,
        Err(MappingsParseError::InvalidBeat {
            beat: "mic".to_string(),
            character: 'x',
        })
    );
}

#[test]
fn non_ascii_character_is_rejected_before_anything_else() {
    let result = parse_freestyle(vec![FreestyleConfig {
        character: '\u{00e9}',
        beats: vec![],
        delays: vec![100],
    }]);
    assert_eq!(result, Err(MappingsParseError::InvalidCharacter('\u{00e9}')));
}

#[test]
fn rhythm_without_beats_is_rejected_as_empty() {
    let result = parse_freestyle(vec![FreestyleConfig {
        character: 'e',
        beats: vec![],
        delays: vec![],
    }]);
    assert_eq!(result, Err(MappingsParseError::EmptyRhythm('e')));
}

#[test]
fn out_of_range_delay_is_named_in_the_error() {
    let result = parse_freestyle(vec![FreestyleConfig {
        character: 'd',
        beats: vec!["BLB".to_string(), "MIC".to_string()],
        delays: vec![MAX_DEBOUNCE_TIME + 1],
    }]);
    assert_eq!(
        result,
        Err(MappingsParseError::InvalidDelay {
            delay: MAX_DEBOUNCE_TIME + 1,
            character: 'd',
        })
    );
}

#[test]
fn first_invalid_rhythm_wins_in_document_order() {
    let result = parse_freestyle(vec![
        FreestyleConfig {
            character: 'a',
            beats: vec!["BLB".to_string()],
            delays: vec![],
        },
        FreestyleConfig {
            character: 'b',
            beats: vec![],
            delays: vec![],
        },
        FreestyleConfig {
            character: 'c',
            beats: vec!["XYZ".to_string()],
            delays: vec![],
        },
    ]);
    assert_eq!(result, Err(MappingsParseError::EmptyRhythm('b')));
}

#[test]
fn valid_document_resolves_end_to_end() {
    let settings = parse(BongoConfig {
        global: GlobalConfig {
            debounce: Some(200),
            combo_window: None,
        },
        freestyle: Some(vec![FreestyleConfig {
            character: '$',
            beats: vec!["BLB".to_string(), "MIC".to_string()],
            delays: vec![150],
        }]),
    })
    .unwrap();

    assert_eq!(
        settings.global,
        GlobalSettings {
            debounce: 200,
            combo_window: MIN_COMBO_WINDOW
        }
    );
    let rhythms = settings.freestyle.0.unwrap();
    assert_eq!(rhythms.len(), 1);
    assert_eq!(rhythms[0].character, '$');
    assert_eq!(
        rhythms[0].beats,
        vec![
            (BongoInput::BackLeftBongo, Some(BeatDelay(150))),
            (BongoInput::ClapMicrophone, None),
        ]
    );
}

#[test]
fn out_of_range_debounce_fails_the_whole_document() {
    let result = parse(BongoConfig {
        global: GlobalConfig {
            debounce: Some(5),
            combo_window: None,
        },
        freestyle: Some(vec![FreestyleConfig {
            character: '$',
            beats: vec!["BLB".to_string(), "MIC".to_string()],
            delays: vec![150],
        }]),
    });
    assert_eq!(result, Err(MappingsParseError::InvalidDebounceTime(5)));
}

#[test]
fn empty_freestyle_list_parses_to_zero_rhythms() {
    let settings = parse_freestyle(Vec::new()).unwrap();
    assert_eq!(settings.0.unwrap().len(), 0);
}

#[test]
fn apply_flow_falls_back_to_defaults_on_any_failure() {
    let fallback = settings_or_default(Err(MappingsParseError::InvalidToml));
    assert_eq!(
        fallback.global,
        GlobalSettings {
            debounce: MIN_DEBOUNCE_TIME,
            combo_window: MIN_COMBO_WINDOW
        }
    );
    assert!(fallback.freestyle.0.is_none());

    let parsed = parse(BongoConfig {
        global: GlobalConfig {
            debounce: Some(400),
            combo_window: Some(900),
        },
        freestyle: None,
    })
    .unwrap();
    let kept = settings_or_default(parse(BongoConfig {
        global: GlobalConfig {
            debounce: Some(400),
            combo_window: Some(900),
        },
        freestyle: None,
    }));
    assert_eq!(kept, parsed);
    assert_eq!(kept.global.debounce, 400);
    assert_eq!(kept.global.combo_window, 900);
}
