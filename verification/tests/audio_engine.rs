use rand::rngs::SmallRng;
use rand::SeedableRng;
use renarrator::audio_engine::{AudioCommand, AudioEngine, EngineAction, Microphone, Output};
use renarrator::config::SoundOption;
use renarrator::volume::Volume;
use renarrator::weighted::RollSource;

type Engine = AudioEngine<u32, &'static str, &'static str>;

fn vol(value: f32) -> Volume {
    Volume { bits: value.to_bits() }
}

fn rng() -> SmallRng {
    SmallRng::seed_from_u64(5)
}

fn trigger(allow_overlap: bool, play_to_mic: bool, play_for_self: bool) -> AudioCommand {
    AudioCommand::PlayTrigger {
        sounds: vec![
            SoundOption { path: "mute.mp3".into(), volume: vol(0.1), weight: 0 },
            SoundOption { path: "boom.mp3".into(), volume: vol(0.5), weight: 9 },
        ],
        master_volume: vol(0.8),
        allow_overlap,
        play_to_mic,
        play_for_self,
    }
}

fn routing(input: Option<&str>, output: Option<&str>) -> AudioCommand {
    AudioCommand::SetMicRouting {
        input_device: input.map(str::to_string),
        output_device: output.map(str::to_string),
    }
}

fn with_mix() -> Engine {
    let mut engine = Engine::new();
    let actions = engine.handle(routing(Some("Mic"), Some("CABLE Input")), &mut rng());
    assert!(matches!(&actions[..], [EngineAction::OpenSink { name }] if name == "CABLE Input"));
    match engine.sink_opened(Some("sink")) {
        Some(EngineAction::OpenCapture { microphone }) => {
            assert_eq!(microphone, Microphone::Named { name: "Mic".into() })
        }
        other => panic!("unexpected {other:?}"),
    }
    engine.capture_opened(Some(("stream", 1000)));
    engine
}

fn is_boom(action: &EngineAction<u32>, on: Output) -> bool {
    match action {
        EngineAction::Play { output, path, volume, master_volume } => {
            *output == on && path == "boom.mp3" && *volume == vol(0.5) && *master_volume == vol(0.8)
        }
        _ => false,
    }
}

#[test]
fn exclusive_trigger_stops_what_plays() {
    let mut engine = with_mix();
    for player in [1, 2] {
        engine.player_started(Output::Local, player);
    }
    engine.player_started(Output::Mic, 3);
    let actions = engine.handle(trigger(false, true, true), &mut rng());
    assert_eq!(actions.len(), 4);
    assert!(matches!(&actions[0], EngineAction::Stop { players } if *players == [1, 2]));
    assert!(matches!(&actions[1], EngineAction::Stop { players } if *players == [3]));
    assert!(is_boom(&actions[2], Output::Local));
    assert!(is_boom(&actions[3], Output::Mic));
    engine.player_started(Output::Local, 4);
    engine.player_started(Output::Mic, 5);
    assert_eq!(*engine.players(Output::Local), [4]);
    assert_eq!(*engine.players(Output::Mic), [5]);
}

#[test]
fn overlapping_trigger_joins_what_plays() {
    let mut engine = Engine::new();
    engine.player_started(Output::Local, 1);
    let actions = engine.handle(trigger(true, false, true), &mut rng());
    assert_eq!(actions.len(), 1);
    assert!(is_boom(&actions[0], Output::Local));
    engine.player_started(Output::Local, 2);
    assert_eq!(*engine.players(Output::Local), [1, 2]);
}

#[test]
fn exclusive_sound_for_one_output_silences_the_other() {
    for (play_to_mic, play_for_self, output) in
        [(false, true, Output::Local), (true, false, Output::Mic)]
    {
        let mut engine = with_mix();
        engine.player_started(Output::Local, 1);
        engine.player_started(Output::Mic, 2);
        let actions = engine.handle(trigger(false, play_to_mic, play_for_self), &mut rng());
        assert_eq!(actions.len(), 3);
        assert!(matches!(&actions[0], EngineAction::Stop { players } if *players == [1]));
        assert!(matches!(&actions[1], EngineAction::Stop { players } if *players == [2]));
        assert!(is_boom(&actions[2], output));
        assert!(engine.players(Output::Local).is_empty());
        assert!(engine.players(Output::Mic).is_empty());
        engine.player_started(output, 3);
        assert_eq!(*engine.players(output), [3]);
    }
}

#[test]
fn sound_that_is_not_heard_interrupts_nothing() {
    let mut engine = Engine::new();
    engine.player_started(Output::Local, 1);
    let actions = engine.handle(trigger(false, true, false), &mut rng());
    assert!(matches!(&actions[..], [EngineAction::ReportNoMicDevice]));
    let actions = engine.handle(trigger(false, false, false), &mut rng());
    assert!(actions.is_empty());
    assert_eq!(*engine.players(Output::Local), [1]);
}

#[test]
fn missing_mix_and_missing_sounds_are_reported() {
    let mut engine = Engine::new();
    let actions = engine.handle(trigger(true, true, false), &mut rng());
    assert!(matches!(&actions[..], [EngineAction::ReportNoMicDevice]));
    let empty = AudioCommand::PlayTrigger {
        sounds: Vec::new(),
        master_volume: vol(1.0),
        allow_overlap: false,
        play_to_mic: true,
        play_for_self: true,
    };
    engine.player_started(Output::Local, 1);
    let actions = engine.handle(empty, &mut rng());
    assert!(matches!(&actions[..], [EngineAction::ReportNoSounds]));
    assert_eq!(*engine.players(Output::Local), [1]);
}

#[test]
fn chosen_sound_decides_the_actions() {
    let sound = SoundOption { path: "a.ogg".into(), volume: vol(0.25), weight: 1 };
    let mut engine = Engine::new();
    let actions = engine.play_trigger(Some(&sound), vol(1.0), true, false, true);
    assert!(matches!(
        &actions[..],
        [EngineAction::Play { output: Output::Local, path, .. }] if path == "a.ogg"
    ));
    let actions = engine.play_trigger(None, vol(1.0), true, true, true);
    assert!(matches!(&actions[..], [EngineAction::ReportNoSounds]));
}

#[test]
fn preview_interrupts_nothing() {
    let mut engine = Engine::new();
    engine.player_started(Output::Local, 1);
    let preview = AudioCommand::TestSound {
        path: "test.wav".into(),
        volume: vol(0.3),
        master_volume: vol(0.6),
    };
    let actions = engine.handle(preview, &mut rng());
    assert!(matches!(
        &actions[..],
        [EngineAction::Play { output: Output::Local, path, volume, master_volume }]
            if path == "test.wav" && *volume == vol(0.3) && *master_volume == vol(0.6)
    ));
    assert_eq!(*engine.players(Output::Local), [1]);
}

#[test]
fn stop_all_silences_both_outputs_and_keeps_the_mix() {
    let mut engine = with_mix();
    engine.player_started(Output::Local, 1);
    engine.player_started(Output::Mic, 2);
    let actions = engine.handle(AudioCommand::StopAll, &mut rng());
    assert!(matches!(&actions[0], EngineAction::Stop { players } if *players == [1]));
    assert!(matches!(&actions[1], EngineAction::Stop { players } if *players == [2]));
    assert!(engine.players(Output::Local).is_empty());
    assert!(engine.players(Output::Mic).is_empty());
    assert_eq!(engine.mic_sink(), Some(&"sink"));
}

#[test]
fn same_routing_again_does_nothing() {
    let mut engine = with_mix();
    engine.player_started(Output::Mic, 1);
    let actions = engine.handle(routing(Some("Mic"), Some("CABLE Input")), &mut rng());
    assert!(actions.is_empty());
    assert_eq!(*engine.players(Output::Mic), [1]);
    assert_eq!(engine.mic_sink(), Some(&"sink"));
}

#[test]
fn routing_is_taken_down_and_set_up_anew() {
    let mut engine = with_mix();
    engine.player_started(Output::Mic, 1);
    engine.player_started(Output::Local, 2);
    let actions = engine.handle(routing(Some("Mic"), Some("Other")), &mut rng());
    assert!(matches!(&actions[..], [EngineAction::OpenSink { name }] if name == "Other"));
    assert!(engine.players(Output::Mic).is_empty());
    assert!(engine.sink_opened(None).is_none());
    assert_eq!(engine.mic_sink(), None);
    assert_eq!(*engine.players(Output::Local), [2]);
    let actions = engine.handle(routing(Some("Mic"), Some("Other")), &mut rng());
    assert!(actions.is_empty());
}

#[test]
fn mix_without_microphone_carries_sounds() {
    let mut engine = Engine::new();
    let actions = engine.handle(routing(None, Some("CABLE Input")), &mut rng());
    assert_eq!(actions.len(), 1);
    assert!(engine.sink_opened(Some("sink")).is_none());
    let actions = engine.handle(trigger(true, true, false), &mut rng());
    assert!(is_boom(&actions[0], Output::Mic));
    let mut engine = Engine::new();
    engine.handle(routing(Some("Mic"), Some("CABLE Input")), &mut rng());
    assert!(engine.sink_opened(Some("sink")).is_some());
    engine.capture_opened(None);
    assert_eq!(engine.mic_sink(), Some(&"sink"));
}

#[test]
fn default_microphone_is_captured_whatever_its_name() {
    let default = || AudioCommand::SetDefaultMicRouting { output_device: Some("Cable".into()) };
    let mut engine = Engine::new();
    let actions = engine.handle(default(), &mut rng());
    assert!(matches!(&actions[..], [EngineAction::OpenSink { name }] if name == "Cable"));
    assert!(matches!(
        engine.sink_opened(Some("sink")),
        Some(EngineAction::OpenCapture { microphone: Microphone::Default })
    ));
    engine.capture_opened(Some(("stream", 1)));
    assert!(engine.handle(default(), &mut rng()).is_empty());
    let actions = engine.handle(routing(Some("Mic"), Some("Cable")), &mut rng());
    assert_eq!(actions.len(), 1);
}

#[test]
fn one_number_is_drawn_for_a_trigger_and_none_otherwise() {
    let mut engine = Engine::new();
    let mut used = rng();
    engine.handle(AudioCommand::StopAll, &mut used);
    engine.handle(routing(None, None), &mut used);
    assert_eq!(used, rng());
    engine.handle(trigger(true, false, true), &mut used);
    let mut once = rng();
    once.roll_below(9);
    assert_eq!(used, once);
}

#[test]
fn routing_to_no_device_turns_the_mix_off() {
    let mut engine = with_mix();
    let actions = engine.handle(routing(Some("Mic"), None), &mut rng());
    assert!(actions.is_empty());
    assert_eq!(engine.mic_sink(), None);
}

#[test]
fn finished_players_are_dropped_in_place() {
    let mut engine = with_mix();
    for player in 1..=4 {
        engine.player_started(Output::Local, player);
    }
    engine.player_started(Output::Mic, 9);
    engine.reap(&vec![true, false, true, false], &vec![true]);
    assert_eq!(*engine.players(Output::Local), [2, 4]);
    assert!(engine.players(Output::Mic).is_empty());
}
