use renarrator::audio_engine::AudioCommand;
use renarrator::config::{AppConfig, SoundOption, TriggerRule};
use renarrator::trigger_engine::{
    finish_save, preview, reload_of, routing_of, trigger_words, TriggerEngine,
};
use renarrator::volume::Volume;

fn vol(value: f32) -> Volume {
    Volume { bits: value.to_bits() }
}

fn rule(id: &str, words: &[&str], path: &str) -> TriggerRule {
    TriggerRule {
        id: id.to_string(),
        name: id.to_uppercase(),
        words: words.iter().map(|w| w.to_string()).collect(),
        sounds: vec![SoundOption { path: path.to_string(), volume: vol(1.0), weight: 1 }],
        play_to_mic: true,
        play_for_self: false,
    }
}

fn config() -> AppConfig {
    AppConfig {
        master_volume: vol(0.4),
        allow_overlap: false,
        auto_start: false,
        mic_output_device: Some("CABLE Input".to_string()),
        triggers: vec![
            rule("a", &["banana"], "first.mp3"),
            rule("b", &["banana apple", "123"], "b.mp3"),
            rule("a", &[], "second.mp3"),
        ],
    }
}

#[test]
fn matcher_gets_ids_with_their_words() {
    let expected = vec![
        ("a".to_string(), vec!["banana".to_string()]),
        ("b".to_string(), vec!["banana apple".to_string(), "123".to_string()]),
        ("a".to_string(), vec![]),
    ];
    assert_eq!(trigger_words(&config().triggers), expected);
    assert_eq!(TriggerEngine::new(&config()).words(), expected);
}

#[test]
fn first_rule_with_the_id_answers() {
    let engine = TriggerEngine::new(&config());
    match engine.matched(&"a".to_string()) {
        Some(AudioCommand::PlayTrigger {
            sounds,
            master_volume,
            allow_overlap,
            play_to_mic,
            play_for_self,
        }) => {
            assert_eq!(sounds[0].path, "first.mp3");
            assert_eq!(master_volume, vol(0.4));
            assert!(!allow_overlap && play_to_mic && !play_for_self);
        }
        other => panic!("unexpected {other:?}"),
    }
    assert!(engine.matched(&"c".to_string()).is_none());
    let found = engine.rule(&"a".to_string()).unwrap();
    assert_eq!((found.id.as_str(), found.sounds[0].path.as_str()), ("a", "first.mp3"));
    assert!(engine.rule(&"c".to_string()).is_none());
}

#[test]
fn reload_takes_effect_at_once() {
    let mut engine = TriggerEngine::new(&config());
    let mut changed = config();
    changed.triggers.remove(1);
    changed.master_volume = vol(0.9);
    changed.allow_overlap = true;
    engine.reload(reload_of(&changed));
    assert!(engine.matched(&"b".to_string()).is_none());
    assert!(matches!(
        engine.matched(&"a".to_string()),
        Some(AudioCommand::PlayTrigger { master_volume, allow_overlap: true, .. })
            if master_volume == vol(0.9)
    ));
    assert_eq!(engine.words().len(), 2);
}

#[test]
fn mix_runs_from_the_default_microphone() {
    assert!(matches!(
        routing_of(&config()),
        AudioCommand::SetDefaultMicRouting { output_device: Some(cable) } if cable == "CABLE Input"
    ));
}

#[test]
fn preview_uses_the_master_volume() {
    assert!(matches!(
        preview(&config(), "x.wav".to_string(), vol(0.5)),
        AudioCommand::TestSound { path, volume, master_volume }
            if path == "x.wav" && volume == vol(0.5) && master_volume == vol(0.4)
    ));
}

#[test]
fn saving_tells_both_engines() {
    let saved = finish_save(&config(), vec!["w".to_string()], None);
    assert_eq!(saved.warnings, ["w"]);
    assert!(matches!(
        saved.routing,
        AudioCommand::SetDefaultMicRouting { output_device: Some(cable) } if cable == "CABLE Input"
    ));
    assert_eq!(saved.reload.triggers, config().triggers);
    let saved = finish_save(&config(), Vec::new(), Some("нет прав".to_string()));
    assert_eq!(saved.warnings, ["автозагрузка: нет прав"]);
}
