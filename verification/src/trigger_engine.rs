//! From a matched trigger to a command for the audio engine, and from a saved
//! configuration to what the running application has to be told.
use crate::audio_engine::{
    law_trigger_command_plays_one_of_its_sounds, plays_file, AudioCommand, AudioEngine,
    CommandView, EngineAction, MicrophoneView, Output,
};
use crate::config::{
    clone_optional_text, clone_sounds, clone_texts, clone_triggers, equal_optional_texts,
    equal_rule_lists, equal_rules, equal_sound_lists, equal_texts, law_rule_lists_are_their_fields,
    law_rules_are_their_fields, law_sounds_are_their_fields, law_texts_are_what_they_read,
    texts, trigger_views, AppConfig, ConfigView, TriggerRule, TriggerView,
};
use crate::volume::Volume;
use crate::weighted::RollSource;
use vstd::prelude::*;

verus! {

/// What a list of ids with their words holds.
pub open spec fn word_list_views(list: Seq<(String, Vec<String>)>) -> Seq<
    (Seq<char>, Seq<Seq<char>>),
> {
    list.map_values(|entry: (String, Vec<String>)| (entry.0@, texts(entry.1@)))
}

/// The ids of the rules, each with its words: what the matcher needs.
pub fn trigger_words(triggers: &Vec<TriggerRule>) -> (words: Vec<(String, Vec<String>)>)
    ensures
        word_list_views(words@) == trigger_views(triggers@).map_values(
            |t: TriggerView| (t.id, t.words),
        ),
{
    let mut words: Vec<(String, Vec<String>)> = Vec::new();
    let mut i: usize = 0;
    while i < triggers.len()
        invariant
            i <= triggers.len(),
            words@.len() == i,
            forall|j: int|
                0 <= j < i ==> (#[trigger] words@[j]).0@ == triggers@[j]@.id && texts(words@[j].1@)
                    == triggers@[j]@.words,
        decreases triggers.len() - i,
    {
        words.push((triggers[i].id.clone(), clone_texts(&triggers[i].words)));
        i += 1;
    }
    assert(word_list_views(words@) =~= trigger_views(triggers@).map_values(
        |t: TriggerView| (t.id, t.words),
    ));
    words
}

/// The part of a configuration that the running engine works by.
#[derive(Debug)]
pub struct EngineReload {
    pub triggers: Vec<TriggerRule>,
    pub master_volume: Volume,
    pub allow_overlap: bool,
}

/// What an [`EngineReload`] holds.
pub struct ReloadView {
    pub triggers: Seq<TriggerView>,
    pub master_volume: Volume,
    pub allow_overlap: bool,
}

impl View for EngineReload {
    type V = ReloadView;

    open spec fn view(&self) -> ReloadView {
        ReloadView {
            triggers: trigger_views(self.triggers@),
            master_volume: self.master_volume,
            allow_overlap: self.allow_overlap,
        }
    }
}

/// The part of a configuration that the running engine works by.
pub open spec fn engine_part(config: ConfigView) -> ReloadView {
    ReloadView {
        triggers: config.triggers,
        master_volume: config.master_volume,
        allow_overlap: config.allow_overlap,
    }
}

/// The part of a configuration that the running engine works by.
pub fn reload_of(config: &AppConfig) -> (reload: EngineReload)
    ensures
        reload@ == engine_part(config@),
{
    EngineReload {
        triggers: clone_triggers(&config.triggers),
        master_volume: config.master_volume,
        allow_overlap: config.allow_overlap,
    }
}

impl ReloadView {
    /// Whether the rule at `i` answers to an id: the first that has it does.
    pub open spec fn answers(self, id: Seq<char>, i: int) -> bool {
        &&& 0 <= i < self.triggers.len()
        &&& self.triggers[i].id == id
        &&& forall|j: int| 0 <= j < i ==> (#[trigger] self.triggers[j]).id != id
    }

    /// Whether any rule has an id.
    pub open spec fn known(self, id: Seq<char>) -> bool {
        exists|i: int| 0 <= i < self.triggers.len() && (#[trigger] self.triggers[i]).id == id
    }

    /// The command that plays the rule at `i`.
    pub open spec fn play(self, i: int) -> CommandView {
        CommandView::PlayTrigger {
            sounds: self.triggers[i].sounds,
            master_volume: self.master_volume,
            allow_overlap: self.allow_overlap,
            play_to_mic: self.triggers[i].play_to_mic,
            play_for_self: self.triggers[i].play_for_self,
        }
    }
}

/// The engine between the matcher and the audio engine.
pub struct TriggerEngine {
    current: EngineReload,
}

impl View for TriggerEngine {
    type V = ReloadView;

    closed spec fn view(&self) -> ReloadView {
        self.current@
    }
}

impl TriggerEngine {
    /// An engine that works by a configuration.
    pub fn new(config: &AppConfig) -> (engine: TriggerEngine)
        ensures
            engine@ == engine_part(config@),
    {
        TriggerEngine { current: reload_of(config) }
    }

    /// The words to hand to the matcher.
    pub fn words(&self) -> (words: Vec<(String, Vec<String>)>)
        ensures
            word_list_views(words@) == self@.triggers.map_values(
                |t: TriggerView| (t.id, t.words),
            ),
    {
        trigger_words(&self.current.triggers)
    }

    /// The rule that answers to an id.
    pub fn rule(&self, id: &String) -> (found: Option<&TriggerRule>)
        ensures
            found matches Some(rule) ==> exists|i: int| #[trigger]
                self@.answers(id@, i) && rule@ == self@.triggers[i],
            found is None ==> forall|i: int|
                0 <= i < self@.triggers.len() ==> (#[trigger] self@.triggers[i]).id != id@,
            found is Some == self@.known(id@),
    {
        let mut i: usize = 0;
        while i < self.current.triggers.len()
            invariant
                i <= self.current.triggers.len(),
                forall|j: int| 0 <= j < i ==> (#[trigger] self@.triggers[j]).id != id@,
            decreases self.current.triggers.len() - i,
        {
            let rule = &self.current.triggers[i];
            assert(self@.triggers[i as int] == rule@);
            if rule.id == *id {
                assert(self@.answers(id@, i as int));
                return Some(rule);
            }
            i += 1;
        }
        None
    }

    /// The command for a trigger that the matcher reports. An id that no rule has,
    /// as after a change of the configuration, is passed over.
    pub fn matched(&self, id: &String) -> (command: Option<AudioCommand>)
        ensures
            match command {
                Some(c) => exists|i: int| #[trigger] self@.answers(id@, i) && c@ == self@.play(i),
                None => forall|i: int|
                    0 <= i < self@.triggers.len() ==> (#[trigger] self@.triggers[i]).id != id@,
            },
    {
        match self.rule(id) {
            Some(rule) => Some(
                AudioCommand::PlayTrigger {
                    sounds: clone_sounds(&rule.sounds),
                    master_volume: self.current.master_volume,
                    allow_overlap: self.current.allow_overlap,
                    play_to_mic: rule.play_to_mic,
                    play_for_self: rule.play_for_self,
                },
            ),
            None => None,
        }
    }

    /// Works by a new configuration from now on.
    pub fn reload(&mut self, reload: EngineReload)
        ensures
            final(self)@ == reload@,
    {
        self.current = reload;
    }
}

/// The command that sets up the microphone mix of a configuration: from the system's
/// default microphone to the device that is configured.
pub fn routing_of(config: &AppConfig) -> (command: AudioCommand)
    ensures
        command@ == (CommandView::SetMicRouting {
            microphone: Some(MicrophoneView::Default),
            output_device: config@.mic_output_device,
        }),
{
    AudioCommand::SetDefaultMicRouting {
        output_device: clone_optional_text(&config.mic_output_device),
    }
}

/// The command that previews a sound at the master volume of a configuration.
pub fn preview(config: &AppConfig, path: String, volume: Volume) -> (command: AudioCommand)
    ensures
        command@ == (CommandView::TestSound {
            path: path@,
            volume,
            master_volume: config@.master_volume,
        }),
{
    AudioCommand::TestSound { path, volume, master_volume: config.master_volume }
}

/// What follows once a configuration is on disk.
pub struct Saved {
    /// The warnings to show.
    pub warnings: Vec<String>,
    /// To the audio engine.
    pub routing: AudioCommand,
    /// To the trigger engine.
    pub reload: EngineReload,
}

/// Decides what follows once a configuration has been checked, with these warnings,
/// and is on disk. A failure to set the start with the system is one more warning.
pub fn finish_save(
    config: &AppConfig,
    warnings: Vec<String>,
    autostart_failure: Option<String>,
) -> (saved: Saved)
    ensures
        texts(saved.warnings@) == texts(warnings@) + (match autostart_failure {
            Some(reason) => seq!["автозагрузка: "@ + reason@],
            None => seq![],
        }),
        saved.routing@ == (CommandView::SetMicRouting {
            microphone: Some(MicrophoneView::Default),
            output_device: config@.mic_output_device,
        }),
        saved.reload@ == engine_part(config@),
{
    let mut shown: Vec<String> = warnings;
    if let Some(reason) = autostart_failure {
        shown.push("автозагрузка: ".to_owned().concat(reason.as_str()));
    }
    assert(texts(shown@) =~= texts(warnings@) + (match autostart_failure {
        Some(reason) => seq!["автозагрузка: "@ + reason@],
        None => seq![],
    }));
    Saved { warnings: shown, routing: routing_of(config), reload: reload_of(config) }
}

/// Which rule answers to an id is settled by the configuration alone: at most one
/// does, and one does wherever any rule has the id.
pub proof fn law_one_rule_answers(state: ReloadView, id: Seq<char>)
    ensures
        forall|i: int, j: int| #[trigger]
            state.answers(id, i) && #[trigger] state.answers(id, j) ==> i == j,
        (exists|i: int| 0 <= i < state.triggers.len() && (#[trigger] state.triggers[i]).id == id)
            ==> exists|i: int| state.answers(id, i),
{
    assert forall|i: int, j: int| #[trigger]
        state.answers(id, i) && #[trigger] state.answers(id, j) implies i == j by {
        if i < j {
            assert(state.triggers[i].id != id);
        } else if j < i {
            assert(state.triggers[j].id != id);
        }
    }
    if exists|i: int| 0 <= i < state.triggers.len() && (#[trigger] state.triggers[i]).id == id {
        let i = choose|i: int| 0 <= i < state.triggers.len() && (#[trigger] state.triggers[i]).id
            == id;
        lemma_first_answers(state, id, i);
    }
}

proof fn lemma_first_answers(state: ReloadView, id: Seq<char>, i: int)
    requires
        0 <= i < state.triggers.len(),
        state.triggers[i].id == id,
    ensures
        exists|k: int| state.answers(id, k),
    decreases i,
{
    if forall|j: int| 0 <= j < i ==> (#[trigger] state.triggers[j]).id != id {
        assert(state.answers(id, i));
    } else {
        let j = choose|j: int| 0 <= j < i && (#[trigger] state.triggers[j]).id == id;
        lemma_first_answers(state, id, j);
    }
}

/// Whether the rule at `i` is the first of a list with this id.
pub open spec fn first_with_id(rules: Seq<TriggerRule>, id: Seq<char>, i: int) -> bool {
    &&& 0 <= i < rules.len()
    &&& rules[i].id@ == id
    &&& forall|j: int| 0 <= j < i ==> (#[trigger] rules[j]).id@ != id
}

/// Whether a command plays a rule: it carries the sounds and the two switches of the
/// rule, and the master volume and the overlap that are given.
pub open spec fn plays_rule(
    command: AudioCommand,
    rule: TriggerRule,
    master: Volume,
    overlap: bool,
) -> bool {
    &&& command matches AudioCommand::PlayTrigger {
        sounds,
        master_volume,
        allow_overlap,
        play_to_mic,
        play_for_self,
    }
    &&& equal_sound_lists(sounds@, rule.sounds@)
    &&& master_volume.bits == master.bits
    &&& allow_overlap == overlap
    &&& play_to_mic == rule.play_to_mic
    &&& play_for_self == rule.play_for_self
}

proof fn lemma_matched(
    engine: &TriggerEngine,
    id: &String,
    command: Option<AudioCommand>,
    rules: Seq<TriggerRule>,
    master: Volume,
    overlap: bool,
)
    requires
        call_ensures(TriggerEngine::matched, (engine, id), command),
        engine@.triggers == trigger_views(rules),
        engine@.master_volume == master,
        engine@.allow_overlap == overlap,
    ensures
        match command {
            Some(c) => exists|i: int| #[trigger]
                first_with_id(rules, id@, i) && plays_rule(c, rules[i], master, overlap),
            None => forall|i: int| 0 <= i < rules.len() ==> (#[trigger] rules[i]).id@ != id@,
        },
{
    let state = engine@;
    assert(state.triggers.len() == rules.len());
    assert forall|i: int| 0 <= i < rules.len() implies (#[trigger] state.triggers[i])
        == rules[i]@ by {}
    match command {
        Some(c) => {
            let i = choose|i: int| #[trigger] state.answers(id@, i) && c@ == state.play(i);
            assert(state.triggers[i] == rules[i]@);
            assert forall|j: int| 0 <= j < i implies (#[trigger] rules[j]).id@ != id@ by {
                assert(state.triggers[j].id != id@);
            }
            assert(first_with_id(rules, id@, i));
            if let AudioCommand::PlayTrigger { sounds, .. } = c {
                law_sounds_are_their_fields(sounds@, rules[i].sounds@);
            }
        },
        None => {
            assert forall|i: int| 0 <= i < rules.len() implies (#[trigger] rules[i]).id@
                != id@ by {
                assert(state.triggers[i].id != id@);
            }
        },
    }
}

/// A trigger that is matched is answered by the first rule of the configuration with its
/// id: the command carries that rule's own sounds and switches, and the configuration's
/// master volume and overlap. An id that no rule has is passed over.
pub proof fn law_match_plays_the_rule(
    config: &AppConfig,
    engine: TriggerEngine,
    id: &String,
    command: Option<AudioCommand>,
)
    requires
        call_ensures(TriggerEngine::new, (config,), engine),
        call_ensures(TriggerEngine::matched, (&engine, id), command),
    ensures
        match command {
            Some(c) => exists|i: int| #[trigger]
                first_with_id(config.triggers@, id@, i) && plays_rule(
                    c,
                    config.triggers@[i],
                    config.master_volume,
                    config.allow_overlap,
                ),
            None => forall|i: int|
                0 <= i < config.triggers@.len() ==> (#[trigger] config.triggers@[i]).id@ != id@,
        },
{
    lemma_matched(
        &engine,
        id,
        command,
        config.triggers@,
        config.master_volume,
        config.allow_overlap,
    );
}

/// After a reload the engine answers by the new configuration alone, whatever it worked
/// by before.
pub proof fn law_reload_replaces_the_rules(
    config: &AppConfig,
    reload: EngineReload,
    engine: &mut TriggerEngine,
    after: TriggerEngine,
    id: &String,
    command: Option<AudioCommand>,
)
    requires
        call_ensures(reload_of, (config,), reload),
        call_ensures(TriggerEngine::reload, (engine, reload), ()),
        after == *final(engine),
        call_ensures(TriggerEngine::matched, (&after, id), command),
    ensures
        match command {
            Some(c) => exists|i: int| #[trigger]
                first_with_id(config.triggers@, id@, i) && plays_rule(
                    c,
                    config.triggers@[i],
                    config.master_volume,
                    config.allow_overlap,
                ),
            None => forall|i: int|
                0 <= i < config.triggers@.len() ==> (#[trigger] config.triggers@[i]).id@ != id@,
        },
{
    lemma_matched(&after, id, command, config.triggers@, config.master_volume, config.allow_overlap);
}

/// From the typed word to the sound: where the rule that answers is to be played for the
/// user and has sounds, the audio engine plays one of them locally, at its own volume and
/// the master volume of the configuration.
pub proof fn law_matched_rule_is_heard<P, S, C, R: RollSource + ?Sized>(
    config: &AppConfig,
    engine: TriggerEngine,
    id: &String,
    command: AudioCommand,
    audio: &mut AudioEngine<P, S, C>,
    rng: &mut R,
    actions: Vec<EngineAction<P>>,
    i: int,
)
    requires
        call_ensures(TriggerEngine::new, (config,), engine),
        call_ensures(TriggerEngine::matched, (&engine, id), Some(command)),
        call_ensures(AudioEngine::<P, S, C>::handle::<R>, (audio, command, rng), actions),
        first_with_id(config.triggers@, id@, i),
        config.triggers@[i].play_for_self,
        config.triggers@[i].sounds@.len() > 0,
    ensures
        exists|k: int|
            0 <= k < config.triggers@[i].sounds@.len() && plays_file(
                actions@,
                Output::Local,
                (#[trigger] config.triggers@[i].sounds@[k]).path@,
                config.triggers@[i].sounds@[k].volume,
                config.master_volume,
            ),
{
    law_match_plays_the_rule(config, engine, id, Some(command));
    let rules = config.triggers@;
    let j = choose|j: int| #[trigger]
        first_with_id(rules, id@, j) && plays_rule(
            command,
            rules[j],
            config.master_volume,
            config.allow_overlap,
        );
    assert(i == j) by {
        if i < j {
            assert(rules[i].id@ != id@);
        } else if j < i {
            assert(rules[j].id@ != id@);
        }
    }
    if let AudioCommand::PlayTrigger {
        sounds,
        master_volume,
        allow_overlap,
        play_to_mic,
        play_for_self,
    } = command {
        law_trigger_command_plays_one_of_its_sounds::<P, S, C, R>(
            audio,
            sounds,
            master_volume,
            allow_overlap,
            play_to_mic,
            play_for_self,
            rng,
            actions,
        );
        let k = choose|k: int|
            0 <= k < sounds@.len() && plays_file(
                actions@,
                Output::Local,
                (#[trigger] sounds@[k]).path@,
                sounds@[k].volume,
                master_volume,
            );
        assert(rules[i].sounds@[k].path@ == sounds@[k].path@);
    }
}

proof fn lemma_rule(
    engine: &TriggerEngine,
    id: &String,
    found: Option<&TriggerRule>,
    rules: Seq<TriggerRule>,
)
    requires
        call_ensures(TriggerEngine::rule, (engine, id), found),
        engine@.triggers == trigger_views(rules),
    ensures
        match found {
            Some(rule) => exists|i: int| #[trigger]
                first_with_id(rules, id@, i) && equal_rules(*rule, rules[i]),
            None => forall|i: int| 0 <= i < rules.len() ==> (#[trigger] rules[i]).id@ != id@,
        },
{
    let state = engine@;
    assert(state.triggers.len() == rules.len());
    assert forall|i: int| 0 <= i < rules.len() implies (#[trigger] state.triggers[i])
        == rules[i]@ by {}
    if let Some(rule) = found {
        let i = choose|i: int| #[trigger] state.answers(id@, i) && rule@ == state.triggers[i];
        assert(state.triggers[i] == rules[i]@);
        assert forall|j: int| 0 <= j < i implies (#[trigger] rules[j]).id@ != id@ by {
            assert(state.triggers[j].id != id@);
        }
        assert(first_with_id(rules, id@, i));
        law_rules_are_their_fields(*rule, rules[i]);
    } else {
        assert(found is None);
        assert forall|i: int| 0 <= i < rules.len() implies (#[trigger] rules[i]).id@ != id@ by {
            assert(state.triggers[i].id != id@);
        }
    }
}

/// The rule that is found for an id is the first of the configuration that has it, whole.
pub proof fn law_found_rule_is_the_first(
    config: &AppConfig,
    engine: TriggerEngine,
    id: &String,
    found: Option<&TriggerRule>,
)
    requires
        call_ensures(TriggerEngine::new, (config,), engine),
        call_ensures(TriggerEngine::rule, (&engine, id), found),
    ensures
        match found {
            Some(rule) => exists|i: int| #[trigger]
                first_with_id(config.triggers@, id@, i) && equal_rules(
                    *rule,
                    config.triggers@[i],
                ),
            None => forall|i: int|
                0 <= i < config.triggers@.len() ==> (#[trigger] config.triggers@[i]).id@ != id@,
        },
{
    lemma_rule(&engine, id, found, config.triggers@);
}

/// Whether a list of ids with words is that of these rules: one for each, in order, with
/// its own words.
pub open spec fn words_of(words: Seq<(String, Vec<String>)>, rules: Seq<TriggerRule>) -> bool {
    &&& words.len() == rules.len()
    &&& forall|i: int|
        0 <= i < words.len() ==> (#[trigger] words[i]).0@ == rules[i].id@ && equal_texts(
            words[i].1@,
            rules[i].words@,
        )
}

proof fn lemma_words_of(words: Seq<(String, Vec<String>)>, rules: Seq<TriggerRule>)
    requires
        word_list_views(words) == trigger_views(rules).map_values(
            |t: TriggerView| (t.id, t.words),
        ),
    ensures
        words_of(words, rules),
{
    let shown = trigger_views(rules).map_values(|t: TriggerView| (t.id, t.words));
    assert(word_list_views(words).len() == words.len() && shown.len() == rules.len());
    assert forall|i: int| 0 <= i < words.len() implies (#[trigger] words[i]).0@ == rules[i].id@
        && equal_texts(words[i].1@, rules[i].words@) by {
        assert(word_list_views(words)[i] == shown[i]);
        law_texts_are_what_they_read(words[i].1@, rules[i].words@);
    }
}

/// The matcher gets the id and the words of every rule, in order, from the list itself
/// and from an engine that works by it.
pub proof fn law_matcher_gets_every_rule(
    config: &AppConfig,
    engine: TriggerEngine,
    of_list: Vec<(String, Vec<String>)>,
    of_engine: Vec<(String, Vec<String>)>,
)
    requires
        call_ensures(trigger_words, (&config.triggers,), of_list),
        call_ensures(TriggerEngine::new, (config,), engine),
        call_ensures(TriggerEngine::words, (&engine,), of_engine),
    ensures
        words_of(of_list@, config.triggers@),
        words_of(of_engine@, config.triggers@),
{
    lemma_words_of(of_list@, config.triggers@);
    lemma_words_of(of_engine@, config.triggers@);
}

/// The microphone mix of a configuration runs from the default microphone to the device
/// that the configuration names.
pub proof fn law_mix_goes_to_the_configured_device(config: &AppConfig, command: AudioCommand)
    requires
        call_ensures(routing_of, (config,), command),
    ensures
        command@ matches CommandView::SetMicRouting { microphone, output_device } && {
            &&& microphone == Some(MicrophoneView::Default)
            &&& match (output_device, config.mic_output_device) {
                (Some(asked), Some(device)) => asked == device@,
                (None, None) => true,
                _ => false,
            }
        },
        match command {
            AudioCommand::SetDefaultMicRouting { output_device } => equal_optional_texts(
                output_device,
                config.mic_output_device,
            ),
            _ => false,
        },
{
}

/// A preview plays the file and volume that are asked for at the master volume of the
/// configuration.
pub proof fn law_preview_is_at_the_master_volume(
    config: &AppConfig,
    path: String,
    volume: Volume,
    command: AudioCommand,
)
    requires
        call_ensures(preview, (config, path, volume), command),
    ensures
        command matches AudioCommand::TestSound { path: file, volume: own, master_volume } && {
            &&& file@ == path@
            &&& own == volume
            &&& master_volume == config.master_volume
        },
{
}

/// After a save, all warnings are shown, in order, and a failure to set the start with
/// the system after them; the microphone mix is set up for the device that was saved; and
/// the trigger engine gets the rules, the master volume and the overlap that were saved.
pub proof fn law_save_takes_effect(
    config: &AppConfig,
    warnings: Vec<String>,
    autostart_failure: Option<String>,
    saved: Saved,
)
    requires
        call_ensures(finish_save, (config, warnings, autostart_failure), saved),
    ensures
        forall|i: int|
            0 <= i < warnings@.len() ==> (#[trigger] saved.warnings@[i])@ == warnings@[i]@,
        match autostart_failure {
            Some(reason) => saved.warnings@.len() == warnings@.len() + 1
                && saved.warnings@[warnings@.len() as int]@ == "автозагрузка: "@ + reason@,
            None => saved.warnings@.len() == warnings@.len(),
        },
        saved.routing@ matches CommandView::SetMicRouting { microphone, output_device } && {
            &&& microphone == Some(MicrophoneView::Default)
            &&& match (output_device, config.mic_output_device) {
                (Some(asked), Some(device)) => asked == device@,
                (None, None) => true,
                _ => false,
            }
        },
        equal_rule_lists(saved.reload.triggers@, config.triggers@),
        saved.reload.master_volume == config.master_volume,
        saved.reload.allow_overlap == config.allow_overlap,
{
    law_rule_lists_are_their_fields(saved.reload.triggers@, config.triggers@);
    let shown = texts(saved.warnings@);
    assert(shown.len() == saved.warnings@.len());
    assert forall|i: int| 0 <= i < warnings@.len() implies (#[trigger] saved.warnings@[i])@
        == warnings@[i]@ by {
        assert(shown[i] == texts(warnings@)[i]);
    }
    if autostart_failure is Some {
        assert(shown[warnings@.len() as int] == saved.warnings@[warnings@.len() as int]@);
    }
}

} // verus!
