use renarrator::config::{default_true, AppConfig, SoundOption, TriggerRule};
use renarrator::validation::{validate, ConfigError, Violation};
use renarrator::volume::Volume;

fn vol(value: f32) -> Volume {
    Volume { bits: value.to_bits() }
}

fn sample() -> AppConfig {
    AppConfig {
        master_volume: vol(0.7),
        allow_overlap: false,
        auto_start: true,
        mic_output_device: None,
        triggers: vec![TriggerRule {
            id: "t1".into(),
            name: "Банан".into(),
            words: vec!["банан".into(), "banan".into()],
            sounds: vec![SoundOption {
                path: "C:\\sounds\\boom.mp3".into(),
                volume: vol(0.9),
                weight: 60,
            }],
            play_to_mic: false,
            play_for_self: true,
        }],
    }
}

fn nothing_found() -> Vec<String> {
    Vec::new()
}

#[test]
fn validation_rejects_bad_master_volume() {
    let mut cfg = sample();
    cfg.master_volume = vol(1.5);
    assert!(matches!(
        validate(&cfg, &nothing_found()),
        Err(ConfigError::Validation(_))
    ));
}

#[test]
fn validation_rejects_bad_sound_volume() {
    let mut cfg = sample();
    cfg.triggers[0].sounds[0].volume = vol(-0.2);
    assert!(matches!(
        validate(&cfg, &nothing_found()),
        Err(ConfigError::Validation(_))
    ));
}

#[test]
fn validation_warns_about_missing_file() {
    let cfg = sample();
    let warnings = validate(&cfg, &nothing_found()).unwrap();
    assert!(warnings.iter().any(|w| w.contains("файл не найден")));
}

#[test]
fn validation_rejects_empty_trigger_id() {
    let mut cfg = sample();
    cfg.triggers[0].id = "  ".into();
    assert!(matches!(
        validate(&cfg, &nothing_found()),
        Err(ConfigError::Validation(_))
    ));
}

#[test]
fn default_config_is_valid() {
    let warnings = validate(&AppConfig::default(), &nothing_found()).unwrap();
    assert!(warnings.is_empty());
}

#[test]
fn default_config_has_its_documented_values() {
    let cfg = AppConfig::default();
    assert_eq!(cfg.master_volume, vol(0.8));
    assert!(cfg.allow_overlap);
    assert!(!cfg.auto_start);
    assert_eq!(cfg.mic_output_device, None);
    assert!(cfg.triggers.is_empty());
    assert!(default_true());
}

#[test]
fn found_file_gives_no_warning() {
    let cfg = sample();
    let found = vec!["C:\\sounds\\boom.mp3".to_string()];
    assert_eq!(validate(&cfg, &found).unwrap(), Vec::<String>::new());
}

#[test]
fn each_warning_has_its_text_and_order() {
    let mut cfg = sample();
    cfg.triggers[0].words.clear();
    cfg.triggers[0].sounds[0].weight = 0;
    cfg.triggers.push(TriggerRule {
        id: "t2".into(),
        name: "пустой".into(),
        words: vec!["слово".into()],
        sounds: Vec::new(),
        play_to_mic: true,
        play_for_self: false,
    });
    assert_eq!(
        validate(&cfg, &nothing_found()).unwrap(),
        [
            "триггер 'Банан' не имеет слов — не сработает",
            "у триггера 'Банан' все веса равны 0 — будет выбираться первый звук",
            "файл не найден: C:\\sounds\\boom.mp3",
            "триггер 'пустой' не имеет звуков",
        ]
    );
}

#[test]
fn each_violation_has_its_variant_and_text() {
    let mut cfg = sample();
    cfg.master_volume = vol(1.5);
    let error = validate(&cfg, &nothing_found()).unwrap_err();
    assert_eq!(
        error,
        ConfigError::Validation(Violation::MasterVolume { volume: vol(1.5) })
    );
    assert_eq!(
        error.message("1.5"),
        "ошибка валидации конфигурации: master_volume должен быть в диапазоне 0.0..=1.0, получено 1.5"
    );

    let mut cfg = sample();
    cfg.triggers[0].id = "\u{2003}\t".into();
    let error = validate(&cfg, &nothing_found()).unwrap_err();
    assert_eq!(error, ConfigError::Validation(Violation::EmptyTriggerId));
    assert_eq!(
        error.message(""),
        "ошибка валидации конфигурации: у триггера пустой id"
    );

    let mut cfg = sample();
    cfg.triggers[0].sounds[0].volume = vol(-0.2);
    match validate(&cfg, &nothing_found()) {
        Err(ConfigError::Validation(violation)) => {
            assert_eq!(violation.volume(), Some(vol(-0.2)));
            assert_eq!(
                violation.message("-0.2"),
                "громкость звука 'C:\\sounds\\boom.mp3' вне диапазона 0.0..=1.0: -0.2"
            );
        }
        other => panic!("unexpected {other:?}"),
    }

    let mut cfg = sample();
    cfg.triggers[0].sounds[0].path = " \n".into();
    match validate(&cfg, &nothing_found()) {
        Err(ConfigError::Validation(violation)) => {
            assert_eq!(violation.volume(), None);
            assert_eq!(
                violation.message(""),
                "пустой путь звука в триггере 'Банан'"
            );
        }
        other => panic!("unexpected {other:?}"),
    }
}

#[test]
fn volume_is_checked_before_path_and_first_rule_first() {
    let mut cfg = sample();
    cfg.triggers[0].sounds[0].path = "".into();
    cfg.triggers[0].sounds[0].volume = vol(f32::NAN);
    cfg.triggers.insert(0, sample().triggers.remove(0));
    let error = validate(&cfg, &nothing_found()).unwrap_err();
    assert!(matches!(
        error,
        ConfigError::Validation(Violation::SoundVolume { .. })
    ));
    cfg.triggers[0].id = "".into();
    let error = validate(&cfg, &nothing_found()).unwrap_err();
    assert_eq!(error, ConfigError::Validation(Violation::EmptyTriggerId));
}

#[test]
fn loading_errors_have_their_texts() {
    assert_eq!(
        ConfigError::Io("нет доступа".into()).message(""),
        "ошибка ввода-вывода: нет доступа"
    );
    assert_eq!(
        ConfigError::Json("EOF".into()).message(""),
        "ошибка разбора JSON: EOF"
    );
}
