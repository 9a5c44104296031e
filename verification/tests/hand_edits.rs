use renarrator::config::{AppConfig, SoundOption, TriggerRule};
use renarrator::hand_edits::configuration_to_save;
use renarrator::volume::Volume;

fn vol(value: f32) -> Volume {
    Volume { bits: value.to_bits() }
}

fn config() -> AppConfig {
    AppConfig {
        master_volume: vol(0.5),
        allow_overlap: true,
        auto_start: false,
        mic_output_device: None,
        triggers: vec![TriggerRule {
            id: "a".into(),
            name: "A".into(),
            words: vec!["word".into()],
            sounds: vec![SoundOption { path: "a.mp3".into(), volume: vol(1.0), weight: 1 }],
            play_to_mic: false,
            play_for_self: true,
        }],
    }
}

#[test]
fn untouched_file_changes_nothing() {
    let mut wanted = config();
    wanted.allow_overlap = false;
    wanted.triggers.clear();
    assert_eq!(configuration_to_save(&config(), Some(&config()), &wanted), wanted);
    assert_eq!(configuration_to_save(&config(), None, &wanted), wanted);
}

#[test]
fn hand_edits_are_applied() {
    let mut file = config();
    file.master_volume = vol(0.25);
    file.mic_output_device = Some("Cable".into());
    file.auto_start = true;
    file.triggers[0].words.push("another".into());
    assert_eq!(configuration_to_save(&config(), Some(&file), &config()), file);
}

#[test]
fn each_difference_between_rules_counts() {
    let changes: [fn(&mut TriggerRule); 9] = [
        |rule| rule.id.push('x'),
        |rule| rule.name.push('x'),
        |rule| rule.words[0].push('x'),
        |rule| rule.words.clear(),
        |rule| rule.sounds[0].path.push('x'),
        |rule| rule.sounds[0].volume = vol(0.75),
        |rule| rule.sounds[0].weight = 2,
        |rule| rule.play_to_mic = true,
        |rule| rule.play_for_self = false,
    ];
    let mut file = config();
    file.triggers.clear();
    for change in changes {
        let mut wanted = config();
        change(&mut wanted.triggers[0]);
        assert_eq!(configuration_to_save(&config(), Some(&file), &wanted), wanted);
    }
    assert!(configuration_to_save(&config(), Some(&file), &config()).triggers.is_empty());
}

#[test]
fn change_in_the_settings_wins_over_one_in_the_file() {
    let mut file = config();
    file.master_volume = vol(0.25);
    file.allow_overlap = false;
    let mut wanted = config();
    wanted.master_volume = vol(0.75);
    let saved = configuration_to_save(&config(), Some(&file), &wanted);
    assert_eq!(saved.master_volume, vol(0.75));
    assert!(!saved.allow_overlap);
}

#[test]
fn invalid_file_has_no_say() {
    let mut file = config();
    file.allow_overlap = false;
    file.master_volume = vol(3.0);
    assert_eq!(configuration_to_save(&config(), Some(&file), &config()), config());
}
