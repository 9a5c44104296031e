//! The audio engine: what to play, stop and open for each command.
//!
//! The engine owns the players, the sink and the capture stream, whatever types
//! the audio system gives them, and decides. Opening devices, decoding files and
//! stopping players is left to the thread that runs it: it carries out the actions
//! that [`AudioEngine::handle`] returns and reports back with
//! [`AudioEngine::player_started`], [`AudioEngine::sink_opened`] and
//! [`AudioEngine::capture_opened`].
use crate::config::{
    optional_text, same_optional_text, sound_views, SoundOption, SoundView,
};
use crate::volume::Volume;
use crate::weighted::{
    chosen_by, drawn, falls_to, lemma_sum_of_weights, lemma_weightless, pick_weighted,
    sum_of_weights, total_weight, weightless, RollSource,
};
use vstd::prelude::*;

verus! {

/// A microphone to capture.
#[derive(Debug, PartialEq, Eq)]
pub enum Microphone {
    /// The system's default one, whatever it is called.
    Default,
    /// The one of this name.
    Named { name: String },
}

/// What a [`Microphone`] holds.
pub enum MicrophoneView {
    Default,
    Named { name: Seq<char> },
}

impl View for Microphone {
    type V = MicrophoneView;

    open spec fn view(&self) -> MicrophoneView {
        match *self {
            Microphone::Default => MicrophoneView::Default,
            Microphone::Named { name } => MicrophoneView::Named { name: name@ },
        }
    }
}

impl Clone for Microphone {
    fn clone(&self) -> (copy: Microphone)
        ensures
            copy@ == self@,
    {
        match self {
            Microphone::Default => Microphone::Default,
            Microphone::Named { name } => Microphone::Named { name: name.clone() },
        }
    }
}

/// What a microphone that may be missing holds.
pub open spec fn optional_microphone(microphone: Option<Microphone>) -> Option<MicrophoneView> {
    match microphone {
        Some(m) => Some(m@),
        None => None,
    }
}

/// The microphone of a name that may be missing.
pub open spec fn named_microphone(name: Option<Seq<char>>) -> Option<MicrophoneView> {
    match name {
        Some(n) => Some(MicrophoneView::Named { name: n }),
        None => None,
    }
}

/// A command to the engine.
#[derive(Debug)]
pub enum AudioCommand {
    /// A trigger fired: choose one of its sounds by weight and play it.
    PlayTrigger {
        sounds: Vec<SoundOption>,
        master_volume: Volume,
        allow_overlap: bool,
        /// Also mix the sound into the microphone stream.
        play_to_mic: bool,
        /// Play the sound locally.
        play_for_self: bool,
    },
    /// Play a given file, as a preview.
    TestSound { path: String, volume: Volume, master_volume: Volume },
    /// Stop everything that is playing.
    StopAll,
    /// Set up the microphone mix: the microphone to capture and the device to
    /// render the mix to. Without a microphone none is captured, and the mix carries
    /// trigger sounds alone.
    SetMicRouting { input_device: Option<String>, output_device: Option<String> },
    /// Set up the microphone mix from the system's default microphone.
    SetDefaultMicRouting { output_device: Option<String> },
}

/// What an [`AudioCommand`] asks for.
pub enum CommandView {
    PlayTrigger {
        sounds: Seq<SoundView>,
        master_volume: Volume,
        allow_overlap: bool,
        play_to_mic: bool,
        play_for_self: bool,
    },
    TestSound { path: Seq<char>, volume: Volume, master_volume: Volume },
    StopAll,
    SetMicRouting { microphone: Option<MicrophoneView>, output_device: Option<Seq<char>> },
}

impl View for AudioCommand {
    type V = CommandView;

    open spec fn view(&self) -> CommandView {
        match *self {
            AudioCommand::PlayTrigger {
                sounds,
                master_volume,
                allow_overlap,
                play_to_mic,
                play_for_self,
            } => CommandView::PlayTrigger {
                sounds: sound_views(sounds@),
                master_volume,
                allow_overlap,
                play_to_mic,
                play_for_self,
            },
            AudioCommand::TestSound { path, volume, master_volume } => CommandView::TestSound {
                path: path@,
                volume,
                master_volume,
            },
            AudioCommand::StopAll => CommandView::StopAll,
            AudioCommand::SetMicRouting { input_device, output_device } => {
                CommandView::SetMicRouting {
                    microphone: named_microphone(optional_text(input_device)),
                    output_device: optional_text(output_device),
                }
            },
            AudioCommand::SetDefaultMicRouting { output_device } => CommandView::SetMicRouting {
                microphone: Some(MicrophoneView::Default),
                output_device: optional_text(output_device),
            },
        }
    }
}

impl CommandView {
    /// Whether the weights of a trigger's sounds can be added up.
    pub open spec fn weighable(self) -> bool {
        self matches CommandView::PlayTrigger { sounds, .. } ==> total_weight(sounds) <= u64::MAX
    }
}

/// Where a sound is heard.
#[derive(Clone, Copy, Debug, PartialEq, Eq, Structural)]
pub enum Output {
    /// By the user, on the default device.
    Local,
    /// By the people in the call, in the microphone mix.
    Mic,
}

/// What the engine asks its thread to do.
#[derive(Debug)]
pub enum EngineAction<P> {
    /// Stop these players.
    Stop { players: Vec<P> },
    /// Play a file at the product of the two volumes, clamped to `0.0..=1.0`.
    Play { output: Output, path: String, volume: Volume, master_volume: Volume },
    /// Report that a sound was meant for a microphone mix that is not open.
    ReportNoMicDevice,
    /// Report that a trigger fired that has no sounds.
    ReportNoSounds,
    /// Open the output device of this name for the microphone mix.
    OpenSink { name: String },
    /// Capture this microphone.
    OpenCapture { microphone: Microphone },
}

/// What an [`EngineAction`] holds.
pub enum ActionView<P> {
    Stop { players: Seq<P> },
    Play { output: Output, path: Seq<char>, volume: Volume, master_volume: Volume },
    ReportNoMicDevice,
    ReportNoSounds,
    OpenSink { name: Seq<char> },
    OpenCapture { microphone: MicrophoneView },
}

impl<P> View for EngineAction<P> {
    type V = ActionView<P>;

    open spec fn view(&self) -> ActionView<P> {
        match *self {
            EngineAction::Stop { players } => ActionView::Stop { players: players@ },
            EngineAction::Play { output, path, volume, master_volume } => ActionView::Play {
                output,
                path: path@,
                volume,
                master_volume,
            },
            EngineAction::ReportNoMicDevice => ActionView::ReportNoMicDevice,
            EngineAction::ReportNoSounds => ActionView::ReportNoSounds,
            EngineAction::OpenSink { name } => ActionView::OpenSink { name: name@ },
            EngineAction::OpenCapture { microphone } => ActionView::OpenCapture {
                microphone: microphone@,
            },
        }
    }
}

/// What a list of actions holds.
pub open spec fn action_views<P>(actions: Seq<EngineAction<P>>) -> Seq<ActionView<P>> {
    actions.map_values(|a: EngineAction<P>| a@)
}

/// How far a change of the microphone mix has come.
#[derive(Clone, Copy, Debug, PartialEq, Eq, Structural)]
pub enum RoutingPhase {
    /// No change is under way.
    Settled,
    /// The sink is being opened.
    OpeningSink,
    /// The sink is open and the capture stream is being opened.
    OpeningCapture,
}

/// The engine, over the audio system's players `P`, sinks `S` and capture streams `C`.
pub struct AudioEngine<P, S, C> {
    /// The players on the default device.
    active: Vec<P>,
    /// The trigger players in the microphone mix. The passthrough is not among them.
    mic_active: Vec<P>,
    mic_sink: Option<S>,
    mic_capture: Option<C>,
    mic_passthrough: Option<P>,
    microphone: Option<Microphone>,
    mic_output_device: Option<String>,
    phase: RoutingPhase,
}

/// The state of an [`AudioEngine`].
pub struct EngineView<P, S, C> {
    pub active: Seq<P>,
    pub mic_active: Seq<P>,
    pub sink: Option<S>,
    pub capture: Option<C>,
    pub passthrough: Option<P>,
    pub microphone: Option<MicrophoneView>,
    pub output_device: Option<Seq<char>>,
    pub phase: RoutingPhase,
}

impl<P, S, C> View for AudioEngine<P, S, C> {
    type V = EngineView<P, S, C>;

    closed spec fn view(&self) -> EngineView<P, S, C> {
        EngineView {
            active: self.active@,
            mic_active: self.mic_active@,
            sink: self.mic_sink,
            capture: self.mic_capture,
            passthrough: self.mic_passthrough,
            microphone: optional_microphone(self.microphone),
            output_device: optional_text(self.mic_output_device),
            phase: self.phase,
        }
    }
}

impl<P, S, C> EngineView<P, S, C> {
    /// What holds between any two steps: the microphone is captured exactly where
    /// it is passed through; that, and trigger sounds in the mix, need an open
    /// sink; and it is known which device each open one is.
    pub open spec fn wf(self) -> bool {
        &&& self.capture is Some <==> self.passthrough is Some
        &&& self.capture is Some ==> self.sink is Some && self.microphone is Some
        &&& self.sink is Some ==> self.output_device is Some
        &&& self.mic_active.len() > 0 ==> self.sink is Some
        &&& self.phase is OpeningSink ==> {
            &&& self.output_device is Some
            &&& self.capture is None
            &&& self.mic_active.len() == 0
        }
        &&& self.phase is OpeningCapture ==> {
            &&& self.sink is Some
            &&& self.microphone is Some
            &&& self.capture is None
        }
    }

    /// Whether a sound is heard at all: by the user, or in a microphone mix that is
    /// open.
    pub open spec fn is_heard(self, play_to_mic: bool, play_for_self: bool) -> bool {
        play_for_self || (play_to_mic && self.sink is Some)
    }

    /// What is done for a trigger whose sound was chosen. Where sounds do not overlap,
    /// everything that plays is stopped before the new sound, on both outputs.
    pub open spec fn trigger_actions(
        self,
        chosen: Option<SoundView>,
        master_volume: Volume,
        allow_overlap: bool,
        play_to_mic: bool,
        play_for_self: bool,
    ) -> Seq<ActionView<P>> {
        match chosen {
            None => seq![ActionView::ReportNoSounds],
            Some(sound) => {
                let stops = if !allow_overlap && self.is_heard(play_to_mic, play_for_self) {
                    seq![
                        ActionView::Stop { players: self.active },
                        ActionView::Stop { players: self.mic_active },
                    ]
                } else {
                    seq![]
                };
                let local = if !play_for_self {
                    seq![]
                } else {
                    seq![
                        ActionView::Play {
                            output: Output::Local,
                            path: sound.path,
                            volume: sound.volume,
                            master_volume,
                        },
                    ]
                };
                let mic = if !play_to_mic {
                    seq![]
                } else if self.sink is None {
                    seq![ActionView::ReportNoMicDevice]
                } else {
                    seq![
                        ActionView::Play {
                            output: Output::Mic,
                            path: sound.path,
                            volume: sound.volume,
                            master_volume,
                        },
                    ]
                };
                stops + local + mic
            },
        }
    }

    /// The state once what a trigger interrupts has been handed out to be stopped.
    /// A trigger without sounds, or whose sound is not heard, interrupts nothing.
    pub open spec fn after_trigger(
        self,
        has_sound: bool,
        allow_overlap: bool,
        play_to_mic: bool,
        play_for_self: bool,
    ) -> EngineView<P, S, C> {
        if has_sound && !allow_overlap && self.is_heard(play_to_mic, play_for_self) {
            EngineView { active: Seq::empty(), mic_active: Seq::empty(), ..self }
        } else {
            self
        }
    }

    /// Whether the microphone mix already runs between these devices.
    pub open spec fn routed(
        self,
        microphone: Option<MicrophoneView>,
        output_device: Option<Seq<char>>,
    ) -> bool {
        self.microphone == microphone && self.output_device == output_device
    }

    /// The state once the old mix is taken down for a new one. The old sink stays
    /// until its successor, if any, is there.
    pub open spec fn rerouted(
        self,
        microphone: Option<MicrophoneView>,
        output_device: Option<Seq<char>>,
    ) -> EngineView<P, S, C> {
        EngineView {
            mic_active: Seq::empty(),
            sink: if output_device is Some {
                self.sink
            } else {
                None
            },
            capture: None,
            passthrough: None,
            microphone,
            output_device,
            phase: if output_device is Some {
                RoutingPhase::OpeningSink
            } else {
                RoutingPhase::Settled
            },
            ..self
        }
    }

    /// The state once the sink of a new mix is open, or has failed to open.
    pub open spec fn with_sink(self, sink: Option<S>) -> EngineView<P, S, C> {
        EngineView {
            sink,
            phase: if sink is Some && self.microphone is Some {
                RoutingPhase::OpeningCapture
            } else {
                RoutingPhase::Settled
            },
            ..self
        }
    }

    /// The state once the microphone is captured, or could not be.
    pub open spec fn with_capture(self, capture: Option<(C, P)>) -> EngineView<P, S, C> {
        EngineView {
            capture: match capture {
                Some((stream, _)) => Some(stream),
                None => None,
            },
            passthrough: match capture {
                Some((_, player)) => Some(player),
                None => None,
            },
            phase: RoutingPhase::Settled,
            ..self
        }
    }

    /// The state once a player has started.
    pub open spec fn with_player(self, output: Output, player: P) -> EngineView<P, S, C> {
        match output {
            Output::Local => EngineView { active: self.active.push(player), ..self },
            Output::Mic => EngineView { mic_active: self.mic_active.push(player), ..self },
        }
    }

    /// What a command makes of the state.
    pub open spec fn after(self, command: CommandView) -> EngineView<P, S, C> {
        match command {
            CommandView::PlayTrigger { sounds, allow_overlap, play_to_mic, play_for_self, .. } => {
                self.after_trigger(sounds.len() > 0, allow_overlap, play_to_mic, play_for_self)
            },
            CommandView::TestSound { .. } => self,
            CommandView::StopAll => EngineView {
                active: Seq::empty(),
                mic_active: Seq::empty(),
                ..self
            },
            CommandView::SetMicRouting { microphone, output_device } => {
                if self.routed(microphone, output_device) {
                    self
                } else {
                    self.rerouted(microphone, output_device)
                }
            },
        }
    }

    /// What a command may ask for, and what it may make of the source. Only the choice
    /// among a trigger's sounds is open: it is drawn from the source, which nothing else
    /// touches.
    pub open spec fn may_ask<R: RollSource + ?Sized>(
        self,
        command: CommandView,
        before: &R,
        after: &R,
        actions: Seq<ActionView<P>>,
    ) -> bool {
        match command {
            CommandView::PlayTrigger {
                sounds,
                master_volume,
                allow_overlap,
                play_to_mic,
                play_for_self,
            } => if sounds.len() == 0 {
                actions == seq![ActionView::<P>::ReportNoSounds] && after == before
            } else {
                exists|i: int| #[trigger]
                    drawn(before, after, sounds, i) && actions == self.trigger_actions(
                        Some(sounds[i]),
                        master_volume,
                        allow_overlap,
                        play_to_mic,
                        play_for_self,
                    )
            },
            CommandView::TestSound { path, volume, master_volume } => actions == seq![
                ActionView::<P>::Play { output: Output::Local, path, volume, master_volume },
            ] && after == before,
            CommandView::StopAll => actions == seq![
                ActionView::Stop { players: self.active },
                ActionView::Stop { players: self.mic_active },
            ] && after == before,
            CommandView::SetMicRouting { microphone, output_device } => if self.routed(
                microphone,
                output_device,
            ) || output_device is None {
                actions == Seq::<ActionView<P>>::empty() && after == before
            } else {
                actions == seq![ActionView::<P>::OpenSink { name: output_device->0 }] && after
                    == before
            },
        }
    }
}

/// The players that have not finished.
pub open spec fn still_playing<P>(players: Seq<P>, finished: Seq<bool>) -> Seq<P>
    decreases players.len(),
{
    if players.len() == 0 {
        players
    } else {
        let front = still_playing(players.drop_last(), finished);
        if finished[players.len() - 1] {
            front
        } else {
            front.push(players.last())
        }
    }
}

proof fn lemma_still_playing_skips<P>(players: Seq<P>, finished: Seq<bool>, at: int)
    requires
        0 <= at < players.len(),
        finished.len() == players.len(),
        finished[at],
    ensures
        still_playing(players, finished) == still_playing(
            players.remove(at),
            finished.remove(at),
        ),
    decreases players.len(),
{
    let front = players.drop_last();
    let shorter = players.remove(at);
    lemma_still_playing_flags(front, finished, finished.drop_last());
    if at == players.len() - 1 {
        assert(shorter =~= front);
        lemma_still_playing_flags(front, finished, finished.remove(at));
    } else {
        lemma_still_playing_skips(front, finished.drop_last(), at);
        assert(shorter.drop_last() =~= front.remove(at));
        assert(shorter.last() == players.last());
        assert(finished.remove(at)[shorter.len() - 1] == finished[players.len() - 1]);
        lemma_still_playing_flags(
            front.remove(at),
            finished.drop_last().remove(at),
            finished.remove(at),
        );
    }
}

/// Only the flags of the players count.
proof fn lemma_still_playing_flags<P>(players: Seq<P>, a: Seq<bool>, b: Seq<bool>)
    requires
        players.len() <= a.len(),
        players.len() <= b.len(),
        forall|i: int| 0 <= i < players.len() ==> #[trigger] a[i] == #[trigger] b[i],
    ensures
        still_playing(players, a) == still_playing(players, b),
    decreases players.len(),
{
    if players.len() > 0 {
        lemma_still_playing_flags(players.drop_last(), a, b);
        assert(a[players.len() - 1] == b[players.len() - 1]);
    }
}

proof fn lemma_still_playing_all<P>(players: Seq<P>, finished: Seq<bool>)
    requires
        forall|i: int| 0 <= i < players.len() ==> !#[trigger] finished[i],
    ensures
        still_playing(players, finished) == players,
    decreases players.len(),
{
    if players.len() > 0 {
        lemma_still_playing_all(players.drop_last(), finished);
        assert(!finished[players.len() - 1]);
        assert(players.drop_last().push(players.last()) =~= players);
    }
}

proof fn lemma_still_playing_subset<P>(players: Seq<P>, finished: Seq<bool>)
    ensures
        still_playing(players, finished).len() <= players.len(),
    decreases players.len(),
{
    if players.len() > 0 {
        lemma_still_playing_subset(players.drop_last(), finished);
    }
}

/// Drops the players that have finished.
fn retain_playing<P>(players: &mut Vec<P>, finished: &Vec<bool>)
    requires
        old(players)@.len() == finished@.len(),
    ensures
        final(players)@ == still_playing(old(players)@, finished@),
{
    let mut i: usize = finished.len();
    let ghost mut flags: Seq<bool> = finished@;
    while i > 0
        invariant
            i <= finished.len(),
            i <= players.len(),
            flags.len() == players.len(),
            forall|j: int| 0 <= j < i ==> #[trigger] flags[j] == finished@[j],
            forall|j: int| i <= j < flags.len() ==> !#[trigger] flags[j],
            still_playing(players@, flags) == still_playing(old(players)@, finished@),
        decreases i,
    {
        i -= 1;
        if finished[i] {
            proof {
                lemma_still_playing_skips(players@, flags, i as int);
                flags = flags.remove(i as int);
            }
            let _ = players.remove(i);
        }
    }
    proof {
        lemma_still_playing_all(players@, flags);
    }
}

/// Hands out all players, leaving none.
fn take_all<P>(players: &mut Vec<P>) -> (all: Vec<P>)
    ensures
        all@ == old(players)@,
        final(players)@ == Seq::<P>::empty(),
{
    let mut all: Vec<P> = Vec::new();
    std::mem::swap(&mut all, players);
    all
}

/// Whether two microphones that may be missing are the same.
fn same_optional_microphone(a: &Option<Microphone>, b: &Option<Microphone>) -> (same: bool)
    ensures
        same == (optional_microphone(*a) == optional_microphone(*b)),
{
    match (a, b) {
        (Some(Microphone::Named { name: x }), Some(Microphone::Named { name: y })) => *x == *y,
        (Some(Microphone::Default), Some(Microphone::Default)) => true,
        (None, None) => true,
        _ => false,
    }
}

impl<P, S, C> AudioEngine<P, S, C> {
    /// An engine that plays nothing and mixes no microphone.
    pub fn new() -> (engine: AudioEngine<P, S, C>)
        ensures
            engine@.wf(),
            engine@ == (EngineView::<P, S, C> {
                active: Seq::empty(),
                mic_active: Seq::empty(),
                sink: None,
                capture: None,
                passthrough: None,
                microphone: None,
                output_device: None,
                phase: RoutingPhase::Settled,
            }),
    {
        AudioEngine {
            active: Vec::new(),
            mic_active: Vec::new(),
            mic_sink: None,
            mic_capture: None,
            mic_passthrough: None,
            microphone: None,
            mic_output_device: None,
            phase: RoutingPhase::Settled,
        }
    }

    /// The players of an output, to be asked whether they have finished.
    pub fn players(&self, output: Output) -> (players: &Vec<P>)
        ensures
            players@ == match output {
                Output::Local => self@.active,
                Output::Mic => self@.mic_active,
            },
    {
        match output {
            Output::Local => &self.active,
            Output::Mic => &self.mic_active,
        }
    }

    /// The sink of the microphone mix.
    pub fn mic_sink(&self) -> (sink: Option<&S>)
        ensures
            sink is Some <==> self@.sink is Some,
            sink matches Some(s) ==> Some(*s) == self@.sink,
    {
        self.mic_sink.as_ref()
    }

    /// Drops the players that have finished. The passthrough never does, and stays.
    pub fn reap(&mut self, finished: &Vec<bool>, mic_finished: &Vec<bool>)
        requires
            old(self)@.wf(),
            finished@.len() == old(self)@.active.len(),
            mic_finished@.len() == old(self)@.mic_active.len(),
        ensures
            final(self)@.wf(),
            final(self)@ == (EngineView {
                active: still_playing(old(self)@.active, finished@),
                mic_active: still_playing(old(self)@.mic_active, mic_finished@),
                ..old(self)@
            }),
    {
        retain_playing(&mut self.active, finished);
        retain_playing(&mut self.mic_active, mic_finished);
        proof {
            lemma_still_playing_subset(old(self)@.mic_active, mic_finished@);
        }
    }

    /// Decides on a trigger whose sound was chosen.
    pub fn play_trigger(
        &mut self,
        chosen: Option<&SoundOption>,
        master_volume: Volume,
        allow_overlap: bool,
        play_to_mic: bool,
        play_for_self: bool,
    ) -> (actions: Vec<EngineAction<P>>)
        requires
            old(self)@.wf(),
        ensures
            final(self)@.wf(),
            final(self)@ == old(self)@.after_trigger(
                chosen is Some,
                allow_overlap,
                play_to_mic,
                play_for_self,
            ),
            action_views(actions@) == old(self)@.trigger_actions(
                match chosen {
                    Some(sound) => Some(sound@),
                    None => None,
                },
                master_volume,
                allow_overlap,
                play_to_mic,
                play_for_self,
            ),
    {
        let mut actions: Vec<EngineAction<P>> = Vec::new();
        match chosen {
            None => {
                actions.push(EngineAction::ReportNoSounds);
            },
            Some(sound) => {
                if !allow_overlap && (play_for_self || (play_to_mic && self.mic_sink.is_some())) {
                    actions.push(EngineAction::Stop { players: take_all(&mut self.active) });
                    actions.push(EngineAction::Stop { players: take_all(&mut self.mic_active) });
                }
                if play_for_self {
                    actions.push(
                        EngineAction::Play {
                            output: Output::Local,
                            path: sound.path.clone(),
                            volume: sound.volume,
                            master_volume,
                        },
                    );
                }
                if play_to_mic {
                    if self.mic_sink.is_some() {
                        actions.push(
                            EngineAction::Play {
                                output: Output::Mic,
                                path: sound.path.clone(),
                                volume: sound.volume,
                                master_volume,
                            },
                        );
                    } else {
                        actions.push(EngineAction::ReportNoMicDevice);
                    }
                }
            },
        }
        assert(action_views(actions@) =~= old(self)@.trigger_actions(
            match chosen {
                Some(sound) => Some(sound@),
                None => None,
            },
            master_volume,
            allow_overlap,
            play_to_mic,
            play_for_self,
        ));
        actions
    }

    /// Decides on a command.
    pub fn handle<R: RollSource + ?Sized>(&mut self, command: AudioCommand, rng: &mut R) -> (actions:
        Vec<EngineAction<P>>)
        requires
            old(self)@.wf(),
            old(self)@.phase is Settled,
            command@.weighable(),
        ensures
            final(self)@.wf(),
            final(self)@ == old(self)@.after(command@),
            old(self)@.may_ask(command@, &*old(rng), &*final(rng), action_views(actions@)),
    {
        match command {
            AudioCommand::PlayTrigger {
                sounds,
                master_volume,
                allow_overlap,
                play_to_mic,
                play_for_self,
            } => {
                let chosen: Option<&SoundOption> = pick_weighted(sounds.as_slice(), rng);
                let actions = self.play_trigger(
                    chosen,
                    master_volume,
                    allow_overlap,
                    play_to_mic,
                    play_for_self,
                );
                proof {
                    if let Some(sound) = chosen {
                        let i = choose|i: int| #[trigger]
                            drawn(&*old(rng), &*rng, sound_views(sounds@), i) && *sound
                                == sounds@[i];
                        assert(drawn(&*old(rng), &*rng, sound_views(sounds@), i));
                        assert(sound_views(sounds@)[i] == sound@);
                    }
                }
                actions
            },
            AudioCommand::TestSound { path, volume, master_volume } => {
                let mut actions: Vec<EngineAction<P>> = Vec::new();
                let ghost shown: Seq<char> = path@;
                actions.push(
                    EngineAction::Play { output: Output::Local, path, volume, master_volume },
                );
                assert(action_views(actions@) =~= seq![
                    ActionView::<P>::Play {
                        output: Output::Local,
                        path: shown,
                        volume,
                        master_volume,
                    },
                ]);
                actions
            },
            AudioCommand::StopAll => {
                let mut actions: Vec<EngineAction<P>> = Vec::new();
                actions.push(EngineAction::Stop { players: take_all(&mut self.active) });
                actions.push(EngineAction::Stop { players: take_all(&mut self.mic_active) });
                assert(action_views(actions@) =~= seq![
                    ActionView::Stop { players: old(self)@.active },
                    ActionView::Stop { players: old(self)@.mic_active },
                ]);
                actions
            },
            AudioCommand::SetMicRouting { input_device, output_device } => {
                let microphone: Option<Microphone> = match input_device {
                    Some(name) => Some(Microphone::Named { name }),
                    None => None,
                };
                self.route(microphone, output_device)
            },
            AudioCommand::SetDefaultMicRouting { output_device } => {
                self.route(Some(Microphone::Default), output_device)
            },
        }
    }

    /// Takes down the old microphone mix for a new one and asks for its sink, unless
    /// the mix already runs between these devices.
    fn route(&mut self, microphone: Option<Microphone>, output_device: Option<String>) -> (actions:
        Vec<EngineAction<P>>)
        requires
            old(self)@.wf(),
            old(self)@.phase is Settled,
        ensures
            final(self)@.wf(),
            ({
                let wanted = optional_microphone(microphone);
                let device = optional_text(output_device);
                if old(self)@.routed(wanted, device) {
                    &&& final(self)@ == old(self)@
                    &&& action_views(actions@) == Seq::<ActionView<P>>::empty()
                } else {
                    &&& final(self)@ == old(self)@.rerouted(wanted, device)
                    &&& match device {
                        Some(name) => action_views(actions@) == seq![
                            ActionView::<P>::OpenSink { name },
                        ],
                        None => action_views(actions@) == Seq::<ActionView<P>>::empty(),
                    }
                }
            }),
    {
        let mut actions: Vec<EngineAction<P>> = Vec::new();
        assert(action_views(actions@) =~= Seq::<ActionView<P>>::empty());
        if same_optional_microphone(&microphone, &self.microphone)
            && same_optional_text(&output_device, &self.mic_output_device) {
            return actions;
        }
        // The passthrough feeds on the capture stream and plays into the sink.
        self.mic_passthrough = None;
        self.mic_capture = None;
        self.mic_active.clear();
        match &output_device {
            Some(name) => {
                actions.push(EngineAction::OpenSink { name: name.clone() });
                self.phase = RoutingPhase::OpeningSink;
                assert(action_views(actions@) =~= seq![
                    ActionView::<P>::OpenSink { name: name@ },
                ]);
            },
            None => {
                self.mic_sink = None;
            },
        }
        self.microphone = microphone;
        self.mic_output_device = output_device;
        actions
    }

    /// Takes over a player that has started.
    pub fn player_started(&mut self, output: Output, player: P)
        requires
            old(self)@.wf(),
            old(self)@.phase is Settled,
            output is Mic ==> old(self)@.sink is Some,
        ensures
            final(self)@.wf(),
            final(self)@ == old(self)@.with_player(output, player),
    {
        match output {
            Output::Local => self.active.push(player),
            Output::Mic => self.mic_active.push(player),
        }
    }

    /// Takes over the sink of a new microphone mix, or its failure to open, and
    /// asks for the microphone to be captured where there is a sink to play it to.
    pub fn sink_opened(&mut self, sink: Option<S>) -> (action: Option<EngineAction<P>>)
        requires
            old(self)@.wf(),
            old(self)@.phase is OpeningSink,
        ensures
            final(self)@.wf(),
            final(self)@ == old(self)@.with_sink(sink),
            action is Some <==> sink is Some && old(self)@.microphone is Some,
            action matches Some(a) ==> a@ == (ActionView::<P>::OpenCapture {
                microphone: old(self)@.microphone->0,
            }),
    {
        self.mic_sink = sink;
        self.phase = RoutingPhase::Settled;
        if self.mic_sink.is_some() {
            if let Some(microphone) = &self.microphone {
                self.phase = RoutingPhase::OpeningCapture;
                return Some(EngineAction::OpenCapture { microphone: microphone.clone() });
            }
        }
        None
    }

    /// Takes over the capture stream and the player that passes it through. Where
    /// the microphone could not be captured, the mix carries trigger sounds alone.
    pub fn capture_opened(&mut self, capture: Option<(C, P)>)
        requires
            old(self)@.wf(),
            old(self)@.phase is OpeningCapture,
        ensures
            final(self)@.wf(),
            final(self)@ == old(self)@.with_capture(capture),
    {
        self.phase = RoutingPhase::Settled;
        match capture {
            Some((stream, player)) => {
                self.mic_passthrough = Some(player);
                self.mic_capture = Some(stream);
            },
            None => {},
        }
    }
}

/// Dropping finished players drops no other: those left are exactly the ones that
/// have not finished.
pub proof fn law_only_finished_players_go<P>(players: Seq<P>, finished: Seq<bool>, player: P)
    requires
        finished.len() == players.len(),
    ensures
        still_playing(players, finished).contains(player) <==> exists|i: int|
            0 <= i < players.len() && !finished[i] && #[trigger] players[i] == player,
    decreases players.len(),
{
    if players.len() > 0 {
        let last = players.len() - 1;
        let front = players.drop_last();
        let kept = still_playing(front, finished);
        lemma_still_playing_flags(front, finished, finished.drop_last());
        law_only_finished_players_go(front, finished.drop_last(), player);
        if still_playing(players, finished).contains(player) {
            if kept.contains(player) {
                let i = choose|i: int|
                    0 <= i < front.len() && !finished.drop_last()[i] && #[trigger] front[i]
                        == player;
                assert(players[i] == player);
            } else {
                assert(players[last] == player);
            }
        }
        if exists|i: int| 0 <= i < players.len() && !finished[i] && #[trigger] players[i]
            == player {
            let i = choose|i: int|
                0 <= i < players.len() && !finished[i] && #[trigger] players[i] == player;
            if i < last {
                assert(front[i] == player && !finished.drop_last()[i]);
                let k = choose|k: int| 0 <= k < kept.len() && kept[k] == player;
                assert(still_playing(players, finished)[k] == player);
            } else {
                assert(still_playing(players, finished)[kept.len() as int] == player);
            }
        }
    }
}

/// Where sounds do not overlap, a trigger whose sound is heard first stops everything
/// that plays, on both outputs, and stops nothing after that. Its own sound is then
/// the only one: alone on each output that it plays on, with silence on the other.
pub proof fn law_exclusive_sound_is_alone<P, S, C>(
    state: EngineView<P, S, C>,
    sound: SoundView,
    master_volume: Volume,
    play_to_mic: bool,
    play_for_self: bool,
    output: Output,
    player: P,
    i: int,
)
    requires
        state.is_heard(play_to_mic, play_for_self),
    ensures
        ({
            let actions = state.trigger_actions(
                Some(sound),
                master_volume,
                false,
                play_to_mic,
                play_for_self,
            );
            let after = state.after_trigger(true, false, play_to_mic, play_for_self);
            let started = after.with_player(output, player);
            &&& actions.len() > 2
            &&& actions[0] == ActionView::Stop { players: state.active }
            &&& actions[1] == ActionView::Stop { players: state.mic_active }
            &&& 2 <= i < actions.len() ==> !(actions[i] is Stop)
            &&& after.active.len() == 0 && after.mic_active.len() == 0
            &&& match output {
                Output::Local => started.active == seq![player] && started.mic_active.len() == 0,
                Output::Mic => started.mic_active == seq![player] && started.active.len() == 0,
            }
        }),
{
    assert(Seq::<P>::empty().push(player) =~= seq![player]);
}

/// Where sounds overlap, a trigger leaves all that is playing alone and stops
/// nothing.
pub proof fn law_overlapping_sound_joins<P, S, C>(
    state: EngineView<P, S, C>,
    chosen: Option<SoundView>,
    master_volume: Volume,
    play_to_mic: bool,
    play_for_self: bool,
)
    ensures
        state.after_trigger(chosen is Some, true, play_to_mic, play_for_self) == state,
        forall|i: int|
            0 <= i < state.trigger_actions(
                chosen,
                master_volume,
                true,
                play_to_mic,
                play_for_self,
            ).len() ==> !(#[trigger] state.trigger_actions(
                chosen,
                master_volume,
                true,
                play_to_mic,
                play_for_self,
            )[i] is Stop),
{
}

/// Whether an action plays a file on an output.
pub open spec fn plays_on<P>(action: ActionView<P>, output: Output) -> bool {
    action matches ActionView::Play { output: o, .. } && o == output
}

/// Each of a rule's two switches governs one output: a sound not meant for the user
/// does not play locally, and one not meant for the call does not play in the
/// microphone mix. One that is meant for an output plays there, in the mix if it is
/// open.
pub proof fn law_outputs_are_separate<P, S, C>(
    state: EngineView<P, S, C>,
    sound: SoundView,
    master_volume: Volume,
    allow_overlap: bool,
    play_to_mic: bool,
    play_for_self: bool,
)
    ensures
        ({
            let actions = state.trigger_actions(
                Some(sound),
                master_volume,
                allow_overlap,
                play_to_mic,
                play_for_self,
            );
            &&& play_for_self <==> exists|i: int|
                0 <= i < actions.len() && #[trigger] plays_on(actions[i], Output::Local)
            &&& play_to_mic && state.sink is Some <==> exists|i: int|
                0 <= i < actions.len() && #[trigger] plays_on(actions[i], Output::Mic)
        }),
{
    let actions = state.trigger_actions(
        Some(sound),
        master_volume,
        allow_overlap,
        play_to_mic,
        play_for_self,
    );
    let stops: int = if !allow_overlap && state.is_heard(play_to_mic, play_for_self) {
        2
    } else {
        0
    };
    if play_for_self {
        assert(plays_on(actions[stops], Output::Local));
    }
    if play_to_mic && state.sink is Some {
        assert(plays_on(actions[actions.len() - 1], Output::Mic));
    }
}

/// A preview interrupts nothing.
pub proof fn law_preview_interrupts_nothing<P, S, C>(
    state: EngineView<P, S, C>,
    path: Seq<char>,
    volume: Volume,
    master_volume: Volume,
)
    ensures
        state.after(CommandView::TestSound { path, volume, master_volume }) == state,
{
}

/// Stopping everything ends every trigger sound and preview on both outputs, and
/// leaves the microphone in the mix.
pub proof fn law_stop_all_keeps_microphone<P, S, C>(state: EngineView<P, S, C>)
    ensures
        state.after(CommandView::StopAll).active.len() == 0,
        state.after(CommandView::StopAll).mic_active.len() == 0,
        state.after(CommandView::StopAll).sink == state.sink,
        state.after(CommandView::StopAll).capture == state.capture,
        state.after(CommandView::StopAll).passthrough == state.passthrough,
{
}

/// Once a mix between two devices has been set up, or tried, asking for the same
/// again changes nothing and opens nothing.
pub proof fn law_routing_again_does_nothing<P, S, C, R: RollSource>(
    state: EngineView<P, S, C>,
    microphone: Option<MicrophoneView>,
    output_device: Option<Seq<char>>,
    sink: Option<S>,
    capture: Option<(C, P)>,
    before: R,
    after: R,
)
    ensures
        ({
            let command = CommandView::SetMicRouting { microphone, output_device };
            let torn_down = state.after(command);
            let opened = if torn_down.phase is OpeningSink {
                torn_down.with_sink(sink)
            } else {
                torn_down
            };
            let settled = if opened.phase is OpeningCapture {
                opened.with_capture(capture)
            } else {
                opened
            };
            &&& settled.after(command) == settled
            &&& forall|actions: Seq<ActionView<P>>| #[trigger]
                settled.may_ask(command, &before, &after, actions) ==> actions.len() == 0 && after
                    == before
        }),
{
}

/// A change of the mix never touches what the user hears.
pub proof fn law_routing_leaves_local_sounds<P, S, C>(
    state: EngineView<P, S, C>,
    microphone: Option<MicrophoneView>,
    output_device: Option<Seq<char>>,
    sink: Option<S>,
    capture: Option<(C, P)>,
)
    ensures
        state.after(CommandView::SetMicRouting { microphone, output_device }).active
            == state.active,
        state.with_sink(sink).active == state.active,
        state.with_capture(capture).active == state.active,
{
}

/// Whether a list of actions plays a file on an output, at these volumes.
pub open spec fn plays_file<P>(
    actions: Seq<EngineAction<P>>,
    on: Output,
    file: Seq<char>,
    own: Volume,
    master: Volume,
) -> bool {
    exists|k: int|
        0 <= k < actions.len() && (#[trigger] actions[k] matches EngineAction::Play {
            output,
            path,
            volume,
            master_volume,
        } && output == on && path@ == file && volume == own && master_volume == master)
}

/// What a trigger comes to once its sound is chosen. `interrupts` says whether what
/// plays is stopped. Each action is one of these: a stop of all that plays on an output,
/// before anything else; the sound, at its own and the master volume, on an output that
/// it is meant for; and a report where it is meant for a mix that is not open. None of
/// them is missing, and none comes twice.
pub open spec fn trigger_comes_to<P, S, C>(
    before: EngineView<P, S, C>,
    after: EngineView<P, S, C>,
    actions: Seq<EngineAction<P>>,
    file: Seq<char>,
    own: Volume,
    master: Volume,
    interrupts: bool,
    play_to_mic: bool,
    play_for_self: bool,
) -> bool {
    let stops: int = if interrupts {
        2
    } else {
        0
    };
    let locally: int = if play_for_self {
        1
    } else {
        0
    };
    let in_mix: int = if play_to_mic {
        1
    } else {
        0
    };
    &&& actions.len() == stops + locally + in_mix
    &&& forall|k: int|
        0 <= k < actions.len() ==> match #[trigger] actions[k] {
            EngineAction::Stop { players } => k < stops && players@ == if k == 0 {
                before.active
            } else {
                before.mic_active
            },
            EngineAction::Play { output, path, volume, master_volume } => {
                &&& k >= stops
                &&& path@ == file
                &&& volume == own
                &&& master_volume == master
                &&& output is Local ==> play_for_self
                &&& output is Mic ==> play_to_mic && before.sink is Some
            },
            EngineAction::ReportNoMicDevice => k >= stops && play_to_mic && before.sink is None,
            _ => false,
        }
    &&& play_for_self ==> plays_file(actions, Output::Local, file, own, master)
    &&& play_to_mic && before.sink is Some ==> plays_file(actions, Output::Mic, file, own, master)
    &&& after.active == if interrupts {
        Seq::empty()
    } else {
        before.active
    }
    &&& after.mic_active == if interrupts {
        Seq::empty()
    } else {
        before.mic_active
    }
    &&& after.sink == before.sink
    &&& after.capture == before.capture
    &&& after.passthrough == before.passthrough
    &&& after.microphone == before.microphone
    &&& after.output_device == before.output_device
    &&& after.phase == before.phase
}

proof fn lemma_trigger_comes_to<P, S, C>(
    before: EngineView<P, S, C>,
    actions: Seq<EngineAction<P>>,
    sound: SoundView,
    master: Volume,
    allow_overlap: bool,
    play_to_mic: bool,
    play_for_self: bool,
)
    requires
        action_views(actions) == before.trigger_actions(
            Some(sound),
            master,
            allow_overlap,
            play_to_mic,
            play_for_self,
        ),
    ensures
        trigger_comes_to(
            before,
            before.after_trigger(true, allow_overlap, play_to_mic, play_for_self),
            actions,
            sound.path,
            sound.volume,
            master,
            !allow_overlap && (play_for_self || (play_to_mic && before.sink is Some)),
            play_to_mic,
            play_for_self,
        ),
{
    let views = action_views(actions);
    assert(views.len() == actions.len());
    assert forall|k: int| 0 <= k < actions.len() implies (#[trigger] actions[k])@ == views[k] by {}
    if play_for_self {
        let k: int = if !allow_overlap {
            2
        } else {
            0
        };
        assert(actions[k]@ == views[k]);
    }
    if play_to_mic && before.sink is Some {
        let k = actions.len() - 1;
        assert(actions[k]@ == views[k]);
    }
}

/// A trigger whose sound was chosen plays exactly that sound, at its own volume and the
/// master volume, on each output that it is meant for and that is there, and on no
/// other. Where sounds do not overlap, all that plays is stopped first, if the new sound
/// is heard at all; nothing is stopped otherwise.
pub proof fn law_trigger_plays_the_chosen_sound<P, S, C>(
    engine: &mut AudioEngine<P, S, C>,
    sound: &SoundOption,
    master_volume: Volume,
    allow_overlap: bool,
    play_to_mic: bool,
    play_for_self: bool,
    actions: Vec<EngineAction<P>>,
)
    requires
        call_ensures(
            AudioEngine::<P, S, C>::play_trigger,
            (engine, Some(sound), master_volume, allow_overlap, play_to_mic, play_for_self),
            actions,
        ),
    ensures
        trigger_comes_to(
            old(engine)@,
            final(engine)@,
            actions@,
            sound.path@,
            sound.volume,
            master_volume,
            !allow_overlap && (play_for_self || (play_to_mic && old(engine)@.sink is Some)),
            play_to_mic,
            play_for_self,
        ),
        final(engine)@.wf(),
{
    lemma_trigger_comes_to(
        old(engine)@,
        actions@,
        sound@,
        master_volume,
        allow_overlap,
        play_to_mic,
        play_for_self,
    );
}

/// A trigger without a sound is reported, and changes nothing.
pub proof fn law_trigger_without_sound_changes_nothing<P, S, C>(
    engine: &mut AudioEngine<P, S, C>,
    master_volume: Volume,
    allow_overlap: bool,
    play_to_mic: bool,
    play_for_self: bool,
    actions: Vec<EngineAction<P>>,
)
    requires
        call_ensures(
            AudioEngine::<P, S, C>::play_trigger,
            (engine, None::<&SoundOption>, master_volume, allow_overlap, play_to_mic, play_for_self),
            actions,
        ),
    ensures
        actions@.len() == 1,
        actions@[0] is ReportNoSounds,
        final(engine)@ == old(engine)@,
{
    assert(action_views(actions@).len() == 1);
    assert(action_views(actions@)[0] == actions@[0]@);
}

/// The command of a trigger with sounds plays one of them: the first where none has any
/// weight, else the one that a single number, drawn below the sum of the weights, falls
/// to.
pub proof fn law_trigger_command_plays_one_of_its_sounds<P, S, C, R: RollSource + ?Sized>(
    engine: &mut AudioEngine<P, S, C>,
    sounds: Vec<SoundOption>,
    master_volume: Volume,
    allow_overlap: bool,
    play_to_mic: bool,
    play_for_self: bool,
    rng: &mut R,
    actions: Vec<EngineAction<P>>,
)
    requires
        sounds@.len() > 0,
        call_ensures(
            AudioEngine::<P, S, C>::handle::<R>,
            (
                engine,
                AudioCommand::PlayTrigger {
                    sounds,
                    master_volume,
                    allow_overlap,
                    play_to_mic,
                    play_for_self,
                },
                rng,
            ),
            actions,
        ),
    ensures
        exists|i: int|
            {
                &&& 0 <= i < sounds@.len()
                &&& trigger_comes_to(
                    old(engine)@,
                    final(engine)@,
                    actions@,
                    (#[trigger] sounds@[i]).path@,
                    sounds@[i].volume,
                    master_volume,
                    !allow_overlap && (play_for_self || (play_to_mic && old(engine)@.sink is Some)),
                    play_to_mic,
                    play_for_self,
                )
                &&& if weightless(sounds@) {
                    i == 0 && &*final(rng) == &*old(rng)
                } else {
                    exists|roll: u64| #[trigger]
                        old(rng).rolled(sum_of_weights(sounds@) as u64, roll, &*final(rng))
                            && falls_to(sounds@, roll as int, i)
                }
            },
{
    let views = sound_views(sounds@);
    lemma_weightless(sounds@);
    let i = choose|i: int| #[trigger]
        drawn(&*old(rng), &*final(rng), views, i) && action_views(actions@)
            == old(engine)@.trigger_actions(
            Some(views[i]),
            master_volume,
            allow_overlap,
            play_to_mic,
            play_for_self,
        );
    assert(drawn(&*old(rng), &*final(rng), views, i));
    assert(views[i] == sounds@[i]@);
    lemma_trigger_comes_to(
        old(engine)@,
        actions@,
        views[i],
        master_volume,
        allow_overlap,
        play_to_mic,
        play_for_self,
    );
    if !weightless(sounds@) {
        let roll = choose|roll: u64| #[trigger]
            old(rng).rolled(total_weight(views) as u64, roll, &*final(rng)) && roll < total_weight(
                views,
            ) && chosen_by(views, roll as int, i);
        lemma_sum_of_weights(sounds@, i);
        lemma_sum_of_weights(sounds@, i + 1);
        assert(falls_to(sounds@, roll as int, i));
        assert(old(rng).rolled(sum_of_weights(sounds@) as u64, roll, &*final(rng)));
    }
}

/// The command of a trigger without sounds is reported, changes nothing and draws
/// nothing.
pub proof fn law_empty_trigger_command_changes_nothing<P, S, C, R: RollSource + ?Sized>(
    engine: &mut AudioEngine<P, S, C>,
    sounds: Vec<SoundOption>,
    master_volume: Volume,
    allow_overlap: bool,
    play_to_mic: bool,
    play_for_self: bool,
    rng: &mut R,
    actions: Vec<EngineAction<P>>,
)
    requires
        sounds@.len() == 0,
        call_ensures(
            AudioEngine::<P, S, C>::handle::<R>,
            (
                engine,
                AudioCommand::PlayTrigger {
                    sounds,
                    master_volume,
                    allow_overlap,
                    play_to_mic,
                    play_for_self,
                },
                rng,
            ),
            actions,
        ),
    ensures
        actions@.len() == 1,
        actions@[0] is ReportNoSounds,
        final(engine)@ == old(engine)@,
        &*final(rng) == &*old(rng),
{
    assert(action_views(actions@).len() == 1);
    assert(action_views(actions@)[0] == actions@[0]@);
}

/// A preview plays the file that was asked for, locally and at the volumes that were
/// asked for, and does nothing else.
pub proof fn law_preview_plays_the_file<P, S, C, R: RollSource + ?Sized>(
    engine: &mut AudioEngine<P, S, C>,
    path: String,
    volume: Volume,
    master_volume: Volume,
    rng: &mut R,
    actions: Vec<EngineAction<P>>,
)
    requires
        call_ensures(
            AudioEngine::<P, S, C>::handle::<R>,
            (engine, AudioCommand::TestSound { path, volume, master_volume }, rng),
            actions,
        ),
    ensures
        actions@.len() == 1,
        plays_file(actions@, Output::Local, path@, volume, master_volume),
        final(engine)@ == old(engine)@,
        &*final(rng) == &*old(rng),
{
    assert(action_views(actions@).len() == 1);
    assert(action_views(actions@)[0] == actions@[0]@);
}

/// Whether a list of actions stops each of these players.
pub open spec fn stops<P>(actions: Seq<EngineAction<P>>, players: Seq<P>) -> bool {
    forall|i: int|
        0 <= i < players.len() ==> exists|k: int|
            0 <= k < actions.len() && (#[trigger] actions[k] matches EngineAction::Stop {
                players: stopped,
            } && stopped@.contains(#[trigger] players[i]))
}

/// Stopping everything stops every player of both outputs, leaves none, and leaves the
/// microphone mix as it is.
pub proof fn law_stop_all_stops_every_player<P, S, C, R: RollSource + ?Sized>(
    engine: &mut AudioEngine<P, S, C>,
    rng: &mut R,
    actions: Vec<EngineAction<P>>,
)
    requires
        call_ensures(
            AudioEngine::<P, S, C>::handle::<R>,
            (engine, AudioCommand::StopAll, rng),
            actions,
        ),
    ensures
        forall|k: int| 0 <= k < actions@.len() ==> #[trigger] actions@[k] is Stop,
        stops(actions@, old(engine)@.active),
        stops(actions@, old(engine)@.mic_active),
        final(engine)@.active.len() == 0,
        final(engine)@.mic_active.len() == 0,
        final(engine)@.sink == old(engine)@.sink,
        final(engine)@.capture == old(engine)@.capture,
        final(engine)@.passthrough == old(engine)@.passthrough,
        final(engine)@.microphone == old(engine)@.microphone,
        final(engine)@.output_device == old(engine)@.output_device,
        final(engine)@.phase == old(engine)@.phase,
        &*final(rng) == &*old(rng),
{
    let command = AudioCommand::StopAll;
    assert(old(engine)@.may_ask(
        command@,
        &*old(rng),
        &*final(rng),
        action_views(actions@),
    ));
    let views = action_views(actions@);
    assert(command@ is StopAll);
    assert(views == seq![
        ActionView::Stop { players: old(engine)@.active },
        ActionView::Stop { players: old(engine)@.mic_active },
    ]);
    assert(views.len() == 2);
    assert(actions@.len() == 2);
    assert(views[0] == actions@[0]@ && views[1] == actions@[1]@);
    assert(actions@[0] is Stop && actions@[1] is Stop);
}

/// What a change of the microphone mix comes to. Asking for the mix that runs does
/// nothing. Any other request takes the old mix down, the sounds in it and the
/// microphone, and touches no local sound; it opens the device that is named, and only
/// that, or leaves no mix where none is.
pub open spec fn routing_comes_to<P, S, C>(
    before: EngineView<P, S, C>,
    after: EngineView<P, S, C>,
    actions: Seq<EngineAction<P>>,
    microphone: Option<MicrophoneView>,
    device: Option<Seq<char>>,
) -> bool {
    &&& after.active == before.active
    &&& after.microphone == microphone
    &&& after.output_device == device
    &&& if before.microphone == microphone && before.output_device == device {
        after == before && actions.len() == 0
    } else {
        &&& after.mic_active.len() == 0
        &&& after.capture is None
        &&& after.passthrough is None
        &&& match device {
            Some(wanted) => {
                &&& actions.len() == 1
                &&& actions[0] matches EngineAction::OpenSink { name }
                &&& name@ == wanted
                &&& after.sink == before.sink
                &&& after.phase is OpeningSink
            },
            None => actions.len() == 0 && after.sink is None && after.phase is Settled,
        }
    }
}

/// A change of the microphone mix, from the microphone and to the device that are named.
pub proof fn law_routing_by_name<P, S, C, R: RollSource + ?Sized>(
    engine: &mut AudioEngine<P, S, C>,
    input_device: Option<String>,
    output_device: Option<String>,
    rng: &mut R,
    actions: Vec<EngineAction<P>>,
)
    requires
        call_ensures(
            AudioEngine::<P, S, C>::handle::<R>,
            (engine, AudioCommand::SetMicRouting { input_device, output_device }, rng),
            actions,
        ),
    ensures
        routing_comes_to(
            old(engine)@,
            final(engine)@,
            actions@,
            match input_device {
                Some(name) => Some(MicrophoneView::Named { name: name@ }),
                None => None,
            },
            match output_device {
                Some(name) => Some(name@),
                None => None,
            },
        ),
        &*final(rng) == &*old(rng),
{
    assert(action_views(actions@).len() == actions@.len());
    if actions@.len() > 0 {
        assert(action_views(actions@)[0] == actions@[0]@);
    }
}

/// A change of the microphone mix, from the default microphone to the device that is
/// named.
pub proof fn law_routing_from_the_default_microphone<P, S, C, R: RollSource + ?Sized>(
    engine: &mut AudioEngine<P, S, C>,
    output_device: Option<String>,
    rng: &mut R,
    actions: Vec<EngineAction<P>>,
)
    requires
        call_ensures(
            AudioEngine::<P, S, C>::handle::<R>,
            (engine, AudioCommand::SetDefaultMicRouting { output_device }, rng),
            actions,
        ),
    ensures
        routing_comes_to(
            old(engine)@,
            final(engine)@,
            actions@,
            Some(MicrophoneView::Default),
            match output_device {
                Some(name) => Some(name@),
                None => None,
            },
        ),
        &*final(rng) == &*old(rng),
{
    assert(action_views(actions@).len() == actions@.len());
    if actions@.len() > 0 {
        assert(action_views(actions@)[0] == actions@[0]@);
    }
}

/// The sink that was opened is the sink of the mix. If there is one, the microphone that
/// the mix was asked for is to be captured; otherwise nothing is. Nothing else changes.
pub proof fn law_opened_sink_is_used<P, S, C>(
    engine: &mut AudioEngine<P, S, C>,
    sink: Option<S>,
    action: Option<EngineAction<P>>,
)
    requires
        call_ensures(AudioEngine::<P, S, C>::sink_opened, (engine, sink), action),
    ensures
        final(engine)@.sink == sink,
        sink is Some ==> match old(engine)@.microphone {
            Some(wanted) => {
                &&& action matches Some(EngineAction::OpenCapture { microphone })
                &&& match (microphone, wanted) {
                    (Microphone::Default, MicrophoneView::Default) => true,
                    (Microphone::Named { name: asked }, MicrophoneView::Named { name }) => asked@
                        == name,
                    _ => false,
                }
                &&& final(engine)@.phase is OpeningCapture
            },
            None => action is None && final(engine)@.phase is Settled,
        },
        sink is None ==> action is None && final(engine)@.phase is Settled,
        final(engine)@.active == old(engine)@.active,
        final(engine)@.mic_active == old(engine)@.mic_active,
        final(engine)@.capture == old(engine)@.capture,
        final(engine)@.passthrough == old(engine)@.passthrough,
        final(engine)@.microphone == old(engine)@.microphone,
        final(engine)@.output_device == old(engine)@.output_device,
{
}

/// The capture stream and the player that passes it through are kept together, or
/// neither is. Nothing else changes, so the sink serves trigger sounds either way.
pub proof fn law_opened_capture_is_kept<P, S, C>(
    engine: &mut AudioEngine<P, S, C>,
    stream: C,
    player: P,
    opened: bool,
)
    requires
        call_ensures(
            AudioEngine::<P, S, C>::capture_opened,
            (
                engine,
                if opened {
                    Some((stream, player))
                } else {
                    None
                },
            ),
            (),
        ),
    ensures
        opened ==> final(engine)@.capture == Some(stream) && final(engine)@.passthrough == Some(
            player,
        ),
        !opened ==> final(engine)@.capture is None && final(engine)@.passthrough is None,
        final(engine)@.phase is Settled,
        final(engine)@.active == old(engine)@.active,
        final(engine)@.mic_active == old(engine)@.mic_active,
        final(engine)@.sink == old(engine)@.sink,
        final(engine)@.microphone == old(engine)@.microphone,
        final(engine)@.output_device == old(engine)@.output_device,
{
}

/// A player that has started joins those of its output, after them, and only there.
pub proof fn law_started_player_joins_its_output<P, S, C>(
    engine: &mut AudioEngine<P, S, C>,
    output: Output,
    player: P,
)
    requires
        call_ensures(AudioEngine::<P, S, C>::player_started, (engine, output, player), ()),
    ensures
        output is Local ==> final(engine)@.active == old(engine)@.active.push(player)
            && final(engine)@.mic_active == old(engine)@.mic_active,
        output is Mic ==> final(engine)@.mic_active == old(engine)@.mic_active.push(player)
            && final(engine)@.active == old(engine)@.active,
        final(engine)@.sink == old(engine)@.sink,
        final(engine)@.capture == old(engine)@.capture,
        final(engine)@.passthrough == old(engine)@.passthrough,
        final(engine)@.microphone == old(engine)@.microphone,
        final(engine)@.output_device == old(engine)@.output_device,
        final(engine)@.phase == old(engine)@.phase,
{
}

/// An engine starts with nothing: no players, no mix, nothing under way.
pub proof fn law_engine_starts_with_nothing<P, S, C>(engine: AudioEngine<P, S, C>)
    requires
        call_ensures(AudioEngine::<P, S, C>::new, (), engine),
    ensures
        engine@.active.len() == 0,
        engine@.mic_active.len() == 0,
        engine@.sink is None,
        engine@.capture is None,
        engine@.passthrough is None,
        engine@.microphone is None,
        engine@.output_device is None,
        engine@.phase is Settled,
{
}

/// The players of an output, and the sink, are shown as they are.
pub proof fn law_players_and_sink_are_shown<P, S, C>(
    engine: &AudioEngine<P, S, C>,
    local: &Vec<P>,
    mic: &Vec<P>,
    sink: Option<&S>,
)
    requires
        call_ensures(AudioEngine::<P, S, C>::players, (engine, Output::Local), local),
        call_ensures(AudioEngine::<P, S, C>::players, (engine, Output::Mic), mic),
        call_ensures(AudioEngine::<P, S, C>::mic_sink, (engine,), sink),
    ensures
        local@ == engine@.active,
        mic@ == engine@.mic_active,
        match (sink, engine@.sink) {
            (Some(shown), Some(kept)) => *shown == kept,
            (None, None) => true,
            _ => false,
        },
{
}

/// Finished players are dropped one by one: each player counts by its own mark alone,
/// and those that stay keep their order.
pub proof fn law_players_are_reaped_one_by_one<P>(
    players: Seq<P>,
    finished: Seq<bool>,
    player: P,
    done: bool,
)
    requires
        finished.len() == players.len(),
    ensures
        still_playing(Seq::<P>::empty(), Seq::<bool>::empty()).len() == 0,
        done ==> still_playing(players.push(player), finished.push(done)) == still_playing(
            players,
            finished,
        ),
        !done ==> still_playing(players.push(player), finished.push(done)) == still_playing(
            players,
            finished,
        ).push(player),
{
    assert(players.push(player).drop_last() =~= players);
    lemma_still_playing_flags(players, finished, finished.push(done));
}

/// Reaping drops the finished players of each output by that output's marks, and
/// nothing else: the microphone passes through as before.
pub proof fn law_reaping_touches_players_alone<P, S, C>(
    engine: &mut AudioEngine<P, S, C>,
    finished: &Vec<bool>,
    mic_finished: &Vec<bool>,
)
    requires
        call_ensures(AudioEngine::<P, S, C>::reap, (engine, finished, mic_finished), ()),
    ensures
        final(engine)@.active == still_playing(old(engine)@.active, finished@),
        final(engine)@.mic_active == still_playing(old(engine)@.mic_active, mic_finished@),
        final(engine)@.sink == old(engine)@.sink,
        final(engine)@.capture == old(engine)@.capture,
        final(engine)@.passthrough == old(engine)@.passthrough,
        final(engine)@.microphone == old(engine)@.microphone,
        final(engine)@.output_device == old(engine)@.output_device,
        final(engine)@.phase == old(engine)@.phase,
{
}

/// Every command can be handled between two changes of the mix, whatever it holds; the
/// weights of a trigger's sounds must only add up in 64 bits.
pub proof fn law_every_command_can_be_handled<P, S, C, R: RollSource + ?Sized>(
    engine: &mut AudioEngine<P, S, C>,
    command: AudioCommand,
    rng: &mut R,
)
    requires
        old(engine)@.wf(),
        old(engine)@.phase is Settled,
        command matches AudioCommand::PlayTrigger { sounds, .. } ==> sum_of_weights(sounds@)
            <= u64::MAX,
    ensures
        call_requires(AudioEngine::<P, S, C>::handle::<R>, (engine, command, rng)),
{
    if let AudioCommand::PlayTrigger { sounds, .. } = command {
        lemma_weightless(sounds@);
    }
}

/// What is asked for can be reported back: each action that an engine asks for leaves it
/// ready for the answer, and every answer leaves it as it must be.
pub proof fn law_answers_can_be_taken<P, S, C>(
    engine: &mut AudioEngine<P, S, C>,
    output: Output,
    player: P,
    sink: Option<S>,
    capture: Option<(C, P)>,
    finished: &Vec<bool>,
    mic_finished: &Vec<bool>,
)
    requires
        old(engine)@.wf(),
    ensures
        old(engine)@.phase is Settled && (output is Local || old(engine)@.sink is Some)
            ==> call_requires(
            AudioEngine::<P, S, C>::player_started,
            (engine, output, player),
        ),
        old(engine)@.phase is OpeningSink ==> call_requires(
            AudioEngine::<P, S, C>::sink_opened,
            (engine, sink),
        ),
        old(engine)@.phase is OpeningCapture ==> call_requires(
            AudioEngine::<P, S, C>::capture_opened,
            (engine, capture),
        ),
        finished@.len() == old(engine)@.active.len() && mic_finished@.len()
            == old(engine)@.mic_active.len() ==> call_requires(
            AudioEngine::<P, S, C>::reap,
            (engine, finished, mic_finished),
        ),
{
}

} // verus!
