use halo2_regex::regex::{lookup_satisfied, AssignedRegexResult, RegexCheckConfig, WitnessError};
use halo2_regex::table::{TableLoadError, TransitionRow, TransitionTableConfig};

// Checks a regex of string len
const STRING_LEN: usize = 22;

/// The transition records of the DFA for `email was meant for @[A-Za-z0-9_]+`,
/// with the fixture's state labeling: state `i + 1` before consuming
/// character `i` of the prefix, and the accept state looping on word
/// characters.
fn pattern_records() -> Vec<TransitionRow> {
    let prefix = "email was meant for @".as_bytes();
    let mut records = Vec::new();
    for (i, &c) in prefix.iter().enumerate() {
        records.push(TransitionRow {
            prev_state: (i + 1) as u64,
            next_state: (i + 2) as u64,
            character: c as u64,
        });
    }
    let accept = (prefix.len() + 1) as u64;
    let mut word_chars: Vec<u8> = Vec::new();
    for c in b'a'..=b'z' {
        word_chars.push(c);
    }
    for c in b'A'..=b'Z' {
        word_chars.push(c);
    }
    for c in b'0'..=b'9' {
        word_chars.push(c);
    }
    word_chars.push(b'_');
    for c in word_chars {
        records.push(TransitionRow {
            prev_state: accept,
            next_state: accept,
            character: c as u64,
        });
    }
    records
}

fn loaded_config() -> RegexCheckConfig {
    let mut config = RegexCheckConfig::configure();
    config.load(&pattern_records()).unwrap();
    config
}

#[test]
fn test_regex_pass() {
    let characters: Vec<u8> = "email was meant for @y".chars().map(|c| c as u8).collect();

    // Make a vector of the numbers 1...22
    let states = (1..=STRING_LEN as u64).collect::<Vec<u64>>();
    assert_eq!(characters.len(), STRING_LEN);
    assert_eq!(states.len(), STRING_LEN);

    // Successful cases
    let config = loaded_config();
    let result = config.assign_values(&characters, &states).unwrap();
    assert!(config.check_satisfied(&result));
}

#[test]
fn test_regex_fail() {
    let characters: Vec<u8> = "email isnt meant for u".chars().map(|c| c as u8).collect();

    // Make a vector of the numbers 1...22
    let states = (1..=STRING_LEN as u64).collect::<Vec<u64>>();

    assert_eq!(characters.len(), STRING_LEN);
    assert_eq!(states.len(), STRING_LEN);

    let config = loaded_config();
    let result = config.assign_values(&characters, &states).unwrap();
    match config.check_satisfied(&result) {
        false => {
            println!("Error successfully achieved!");
        }
        _ => assert_eq!(1, 0),
    }
}

#[test]
fn test_fail_first_divergence_row() {
    // "email isnt meant for u" diverges from the required prefix at row 6:
    // rows 0..6 still follow the table, row 6 is the first whose triple is
    // absent.
    let characters: Vec<u8> = "email isnt meant for u".chars().map(|c| c as u8).collect();
    let states = (1..=STRING_LEN as u64).collect::<Vec<u64>>();

    let mut table = TransitionTableConfig::configure();
    table.load(&pattern_records()).unwrap();
    for i in 0..6usize {
        assert!(table.contains(
            states[i],
            states[i + 1],
            characters[i] as u64
        ));
    }
    assert!(!table.contains(states[6], states[7], characters[6] as u64));
}

#[test]
fn test_load_appends_sentinel() {
    let records = pattern_records();
    assert!(!records
        .iter()
        .any(|r| r.prev_state == 0 && r.next_state == 0 && r.character == 0));
    let mut table = TransitionTableConfig::configure();
    table.load(&records).unwrap();
    assert!(table.contains(0, 0, 0));
}

#[test]
fn test_load_keeps_records_and_nothing_else() {
    let records = vec![
        TransitionRow { prev_state: 1, next_state: 2, character: 97 },
        TransitionRow { prev_state: 2, next_state: 2, character: 98 },
    ];
    let mut table = TransitionTableConfig::configure();
    table.load(&records).unwrap();
    assert!(table.contains(1, 2, 97));
    assert!(table.contains(2, 2, 98));
    assert!(table.contains(0, 0, 0));
    // membership is exact: a one-state or one-character difference misses
    assert!(!table.contains(1, 2, 98));
    assert!(!table.contains(1, 3, 97));
    assert!(!table.contains(3, 2, 97));
}

#[test]
fn test_load_rejects_oversized_character() {
    let records = vec![
        TransitionRow { prev_state: 1, next_state: 2, character: 97 },
        TransitionRow { prev_state: 2, next_state: 3, character: 256 },
    ];
    let mut table = TransitionTableConfig::configure();
    assert_eq!(table.load(&records), Err(TableLoadError::CharacterOutOfRange));
}

#[test]
fn test_assign_values_length_mismatch() {
    let config = loaded_config();
    let characters: Vec<u8> = vec![97, 98, 99];
    let states: Vec<u64> = vec![1, 2];
    assert!(matches!(
        config.assign_values(&characters, &states),
        Err(WitnessError::LengthMismatch)
    ));
}

#[test]
fn test_assign_values_columns() {
    let config = loaded_config();
    let characters: Vec<u8> = vec![101, 109, 97];
    let states: Vec<u64> = vec![1, 2, 3];
    let result = config.assign_values(&characters, &states).unwrap();
    assert_eq!(result.characters, vec![101u64, 109, 97]);
    assert_eq!(result.states, vec![1u64, 2, 3]);
}

#[test]
fn test_one_state_difference_rejected() {
    let characters: Vec<u8> = "email was meant for @y".chars().map(|c| c as u8).collect();
    let mut states = (1..=STRING_LEN as u64).collect::<Vec<u64>>();
    let config = loaded_config();

    let good = config.assign_values(&characters, &states).unwrap();
    assert!(config.check_satisfied(&good));

    // one state changed on an activated row invalidates that row
    states[10] = 99;
    let bad = config.assign_values(&characters, &states).unwrap();
    assert!(!config.check_satisfied(&bad));
}

#[test]
fn test_one_character_difference_rejected() {
    let mut characters: Vec<u8> = "email was meant for @y".chars().map(|c| c as u8).collect();
    let states = (1..=STRING_LEN as u64).collect::<Vec<u64>>();
    let config = loaded_config();

    characters[3] = b'x';
    let bad = config.assign_values(&characters, &states).unwrap();
    assert!(!config.check_satisfied(&bad));
}

#[test]
fn test_load_twice_identical_acceptance() {
    // two independently constructed circuit instances, loaded from the same
    // records, accept and reject exactly the same witnesses
    let accepted: Vec<u8> = "email was meant for @y".chars().map(|c| c as u8).collect();
    let rejected: Vec<u8> = "email isnt meant for u".chars().map(|c| c as u8).collect();
    let states = (1..=STRING_LEN as u64).collect::<Vec<u64>>();

    let config_a = loaded_config();
    let config_b = loaded_config();

    let good_a = config_a.assign_values(&accepted, &states).unwrap();
    let good_b = config_b.assign_values(&accepted, &states).unwrap();
    assert_eq!(config_a.check_satisfied(&good_a), config_b.check_satisfied(&good_b));
    assert!(config_a.check_satisfied(&good_a));

    let bad_a = config_a.assign_values(&rejected, &states).unwrap();
    let bad_b = config_b.assign_values(&rejected, &states).unwrap();
    assert_eq!(config_a.check_satisfied(&bad_a), config_b.check_satisfied(&bad_b));
    assert!(!config_a.check_satisfied(&bad_a));
}

#[test]
fn test_final_row_never_activated() {
    // the final row has no successor, so its character is never looked up:
    // a trace wrong only there is still accepted
    let mut characters: Vec<u8> = "email was meant for @y".chars().map(|c| c as u8).collect();
    let states = (1..=STRING_LEN as u64).collect::<Vec<u64>>();
    let config = loaded_config();

    characters[STRING_LEN - 1] = b'!';
    let result = config.assign_values(&characters, &states).unwrap();
    assert!(config.check_satisfied(&result));
}

#[test]
fn test_missing_sentinel_fails_inactive_rows() {
    // a table without the (0, 0, 0) sentinel makes every inactive row's
    // masked lookup miss, so even a trace whose activated rows are all
    // valid is rejected
    let mut rows = vec![
        TransitionRow { prev_state: 1, next_state: 2, character: 97 },
        TransitionRow { prev_state: 2, next_state: 3, character: 98 },
    ];
    let result = AssignedRegexResult {
        characters: vec![97, 98, 0],
        states: vec![1, 2, 3],
    };
    assert!(!lookup_satisfied(&rows, &result));

    rows.push(TransitionRow { prev_state: 0, next_state: 0, character: 0 });
    assert!(lookup_satisfied(&rows, &result));
}

#[test]
fn test_empty_trace_accepted() {
    let config = loaded_config();
    let result = config.assign_values(&Vec::new(), &Vec::new()).unwrap();
    assert!(config.check_satisfied(&result));
}

#[test]
fn test_single_row_trace_needs_only_sentinel() {
    // a one-row trace has no activated row at all; any character and state
    // pass once the sentinel is in the table
    let config = loaded_config();
    let result = config.assign_values(&vec![244], &vec![77]).unwrap();
    assert!(config.check_satisfied(&result));
}
