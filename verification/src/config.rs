//! The configuration: which words trigger which sounds, and how they are played.
use crate::volume::Volume;
use vstd::prelude::*;

verus! {

/// The contents of a list of texts.
pub open spec fn texts(list: Seq<String>) -> Seq<Seq<char>> {
    list.map_values(|t: String| t@)
}

/// The contents of a text that may be missing.
pub open spec fn optional_text(text: Option<String>) -> Option<Seq<char>> {
    match text {
        Some(t) => Some(t@),
        None => None,
    }
}

/// One of the sounds a trigger may play.
#[derive(Debug, PartialEq)]
pub struct SoundOption {
    pub path: String,
    /// Loudness of this sound, in `0.0..=1.0`; multiplied by the master volume.
    pub volume: Volume,
    /// Share of this sound in the random choice: weight over the sum of weights.
    pub weight: u32,
}

/// What a [`SoundOption`] holds.
pub struct SoundView {
    pub path: Seq<char>,
    pub volume: Volume,
    pub weight: u32,
}

impl View for SoundOption {
    type V = SoundView;

    open spec fn view(&self) -> SoundView {
        SoundView { path: self.path@, volume: self.volume, weight: self.weight }
    }
}

impl Clone for SoundOption {
    fn clone(&self) -> (copy: SoundOption)
        ensures
            copy@ == self@,
    {
        SoundOption { path: self.path.clone(), volume: self.volume, weight: self.weight }
    }
}

/// What a list of sounds holds.
pub open spec fn sound_views(sounds: Seq<SoundOption>) -> Seq<SoundView> {
    sounds.map_values(|s: SoundOption| s@)
}

/// A rule: the words that fire it and the sounds it chooses from.
#[derive(Debug, PartialEq)]
pub struct TriggerRule {
    pub id: String,
    pub name: String,
    pub words: Vec<String>,
    pub sounds: Vec<SoundOption>,
    /// Also mix the sound into the microphone stream, for the people in the call.
    pub play_to_mic: bool,
    /// Play the sound locally, for the user.
    pub play_for_self: bool,
}

/// What a [`TriggerRule`] holds.
pub struct TriggerView {
    pub id: Seq<char>,
    pub name: Seq<char>,
    pub words: Seq<Seq<char>>,
    pub sounds: Seq<SoundView>,
    pub play_to_mic: bool,
    pub play_for_self: bool,
}

impl View for TriggerRule {
    type V = TriggerView;

    open spec fn view(&self) -> TriggerView {
        TriggerView {
            id: self.id@,
            name: self.name@,
            words: texts(self.words@),
            sounds: sound_views(self.sounds@),
            play_to_mic: self.play_to_mic,
            play_for_self: self.play_for_self,
        }
    }
}

/// A copy of a list of texts.
pub(crate) fn clone_texts(list: &Vec<String>) -> (copy: Vec<String>)
    ensures
        texts(copy@) == texts(list@),
{
    let copy: Vec<String> = list.clone();
    assert(texts(copy@) =~= texts(list@));
    copy
}

/// A copy of a text that may be missing.
pub(crate) fn clone_optional_text(text: &Option<String>) -> (copy: Option<String>)
    ensures
        optional_text(copy) == optional_text(*text),
{
    match text {
        Some(t) => Some(t.clone()),
        None => None,
    }
}

/// A copy of a list of sounds.
pub(crate) fn clone_sounds(sounds: &Vec<SoundOption>) -> (copy: Vec<SoundOption>)
    ensures
        sound_views(copy@) == sound_views(sounds@),
{
    let copy: Vec<SoundOption> = sounds.clone();
    assert(sound_views(copy@) =~= sound_views(sounds@));
    copy
}

impl Clone for TriggerRule {
    fn clone(&self) -> (copy: TriggerRule)
        ensures
            copy@ == self@,
    {
        TriggerRule {
            id: self.id.clone(),
            name: self.name.clone(),
            words: clone_texts(&self.words),
            sounds: clone_sounds(&self.sounds),
            play_to_mic: self.play_to_mic,
            play_for_self: self.play_for_self,
        }
    }
}

/// What a list of rules holds.
pub open spec fn trigger_views(triggers: Seq<TriggerRule>) -> Seq<TriggerView> {
    triggers.map_values(|t: TriggerRule| t@)
}

/// A copy of a list of rules.
pub(crate) fn clone_triggers(triggers: &Vec<TriggerRule>) -> (copy: Vec<TriggerRule>)
    ensures
        trigger_views(copy@) == trigger_views(triggers@),
{
    let copy: Vec<TriggerRule> = triggers.clone();
    assert(trigger_views(copy@) =~= trigger_views(triggers@));
    copy
}

/// Whether two texts that may be missing are the same.
pub(crate) fn same_optional_text(a: &Option<String>, b: &Option<String>) -> (same: bool)
    ensures
        same == (optional_text(*a) == optional_text(*b)),
{
    match (a, b) {
        (Some(x), Some(y)) => *x == *y,
        (None, None) => true,
        _ => false,
    }
}

/// Whether two lists of texts are the same.
fn same_texts(a: &Vec<String>, b: &Vec<String>) -> (same: bool)
    ensures
        same == (texts(a@) == texts(b@)),
{
    if a.len() != b.len() {
        assert(texts(a@).len() != texts(b@).len());
        return false;
    }
    let mut i: usize = 0;
    while i < a.len()
        invariant
            a.len() == b.len(),
            i <= a.len(),
            forall|j: int| 0 <= j < i ==> #[trigger] texts(a@)[j] == texts(b@)[j],
        decreases a.len() - i,
    {
        if a[i] != b[i] {
            assert(texts(a@)[i as int] != texts(b@)[i as int]);
            return false;
        }
        i += 1;
    }
    assert(texts(a@) =~= texts(b@));
    true
}

/// Whether two lists of sounds are the same.
fn same_sounds(a: &Vec<SoundOption>, b: &Vec<SoundOption>) -> (same: bool)
    ensures
        same == (sound_views(a@) == sound_views(b@)),
{
    if a.len() != b.len() {
        assert(sound_views(a@).len() != sound_views(b@).len());
        return false;
    }
    let mut i: usize = 0;
    while i < a.len()
        invariant
            a.len() == b.len(),
            i <= a.len(),
            forall|j: int| 0 <= j < i ==> #[trigger] sound_views(a@)[j] == sound_views(b@)[j],
        decreases a.len() - i,
    {
        let (x, y) = (&a[i], &b[i]);
        assert(sound_views(a@)[i as int] == x@ && sound_views(b@)[i as int] == y@);
        if x.path != y.path || x.volume.bits != y.volume.bits || x.weight != y.weight {
            return false;
        }
        i += 1;
    }
    assert(sound_views(a@) =~= sound_views(b@));
    true
}

/// Whether two lists of rules are the same.
pub(crate) fn same_triggers(a: &Vec<TriggerRule>, b: &Vec<TriggerRule>) -> (same: bool)
    ensures
        same == (trigger_views(a@) == trigger_views(b@)),
{
    if a.len() != b.len() {
        assert(trigger_views(a@).len() != trigger_views(b@).len());
        return false;
    }
    let mut i: usize = 0;
    while i < a.len()
        invariant
            a.len() == b.len(),
            i <= a.len(),
            forall|j: int| 0 <= j < i ==> #[trigger] trigger_views(a@)[j] == trigger_views(b@)[j],
        decreases a.len() - i,
    {
        let (x, y) = (&a[i], &b[i]);
        assert(trigger_views(a@)[i as int] == x@ && trigger_views(b@)[i as int] == y@);
        if x.id != y.id || x.name != y.name || !same_texts(&x.words, &y.words) || !same_sounds(
            &x.sounds,
            &y.sounds,
        ) || x.play_to_mic != y.play_to_mic || x.play_for_self != y.play_for_self {
            return false;
        }
        i += 1;
    }
    assert(trigger_views(a@) =~= trigger_views(b@));
    true
}

/// The whole configuration.
#[derive(Debug, PartialEq)]
pub struct AppConfig {
    /// Loudness of the application, in `0.0..=1.0`.
    pub master_volume: Volume,
    /// Whether sounds overlap; otherwise a new sound stops what is playing.
    pub allow_overlap: bool,
    /// Whether the application starts with the system.
    pub auto_start: bool,
    /// The output device that the microphone mix is rendered to, usually the
    /// input side of a virtual cable. With none, the mix is off. The microphone
    /// itself is not stored: it is always the system's default one.
    pub mic_output_device: Option<String>,
    pub triggers: Vec<TriggerRule>,
}

/// What an [`AppConfig`] holds.
pub struct ConfigView {
    pub master_volume: Volume,
    pub allow_overlap: bool,
    pub auto_start: bool,
    pub mic_output_device: Option<Seq<char>>,
    pub triggers: Seq<TriggerView>,
}

impl View for AppConfig {
    type V = ConfigView;

    open spec fn view(&self) -> ConfigView {
        ConfigView {
            master_volume: self.master_volume,
            allow_overlap: self.allow_overlap,
            auto_start: self.auto_start,
            mic_output_device: optional_text(self.mic_output_device),
            triggers: trigger_views(self.triggers@),
        }
    }
}

impl Clone for AppConfig {
    fn clone(&self) -> (copy: AppConfig)
        ensures
            copy@ == self@,
    {
        AppConfig {
            master_volume: self.master_volume,
            allow_overlap: self.allow_overlap,
            auto_start: self.auto_start,
            mic_output_device: clone_optional_text(&self.mic_output_device),
            triggers: clone_triggers(&self.triggers),
        }
    }
}

/// The bits of `0.8`, the master volume to begin with.
pub const DEFAULT_MASTER_VOLUME_BITS: u32 = 0x3F4C_CCCD;

/// The configuration of a first start.
pub open spec fn default_config() -> ConfigView {
    ConfigView {
        master_volume: Volume { bits: DEFAULT_MASTER_VOLUME_BITS },
        allow_overlap: true,
        auto_start: false,
        mic_output_device: None,
        triggers: Seq::empty(),
    }
}

impl Default for AppConfig {
    fn default() -> (config: AppConfig)
        ensures
            config@ == default_config(),
    {
        let config = AppConfig {
            master_volume: Volume { bits: DEFAULT_MASTER_VOLUME_BITS },
            allow_overlap: true,
            auto_start: false,
            mic_output_device: None,
            triggers: Vec::new(),
        };
        assert(config@.triggers =~= default_config().triggers);
        config
    }
}

/// Whether a rule plays its sound for the user when its file does not say.
pub fn default_true() -> (enabled: bool)
    ensures
        enabled,
{
    true
}

/// Whether two lists of texts read the same.
pub open spec fn equal_texts(a: Seq<String>, b: Seq<String>) -> bool {
    &&& a.len() == b.len()
    &&& forall|i: int| 0 <= i < a.len() ==> (#[trigger] a[i])@ == b[i]@
}

/// Whether two texts that may be missing read the same.
pub open spec fn equal_optional_texts(a: Option<String>, b: Option<String>) -> bool {
    match (a, b) {
        (Some(x), Some(y)) => x@ == y@,
        (None, None) => true,
        _ => false,
    }
}

/// Whether two sounds agree in every field.
pub open spec fn equal_sounds(a: SoundOption, b: SoundOption) -> bool {
    a.path@ == b.path@ && a.volume.bits == b.volume.bits && a.weight == b.weight
}

/// Whether two lists of sounds agree in every field.
pub open spec fn equal_sound_lists(a: Seq<SoundOption>, b: Seq<SoundOption>) -> bool {
    &&& a.len() == b.len()
    &&& forall|i: int| 0 <= i < a.len() ==> equal_sounds(#[trigger] a[i], b[i])
}

/// Whether two rules agree in every field.
pub open spec fn equal_rules(a: TriggerRule, b: TriggerRule) -> bool {
    &&& a.id@ == b.id@
    &&& a.name@ == b.name@
    &&& equal_texts(a.words@, b.words@)
    &&& equal_sound_lists(a.sounds@, b.sounds@)
    &&& a.play_to_mic == b.play_to_mic
    &&& a.play_for_self == b.play_for_self
}

/// Whether two lists of rules agree in every field.
pub open spec fn equal_rule_lists(a: Seq<TriggerRule>, b: Seq<TriggerRule>) -> bool {
    &&& a.len() == b.len()
    &&& forall|i: int| 0 <= i < a.len() ==> equal_rules(#[trigger] a[i], b[i])
}

/// Whether two configurations agree in every field.
pub open spec fn equal_configs(a: AppConfig, b: AppConfig) -> bool {
    &&& a.master_volume.bits == b.master_volume.bits
    &&& a.allow_overlap == b.allow_overlap
    &&& a.auto_start == b.auto_start
    &&& equal_optional_texts(a.mic_output_device, b.mic_output_device)
    &&& equal_rule_lists(a.triggers@, b.triggers@)
}

/// What is shown of texts is all that they hold.
pub proof fn law_texts_are_what_they_read(a: Seq<String>, b: Seq<String>)
    ensures
        texts(a) == texts(b) <==> equal_texts(a, b),
{
    if texts(a) == texts(b) {
        assert(a.len() == texts(a).len() && b.len() == texts(b).len());
        assert forall|i: int| 0 <= i < a.len() implies (#[trigger] a[i])@ == b[i]@ by {
            assert(texts(a)[i] == texts(b)[i]);
        }
    } else if equal_texts(a, b) {
        assert(texts(a) =~= texts(b));
    }
}

/// What is shown of sounds is all that they hold: two lists show the same exactly where
/// they agree in every field.
pub proof fn law_sounds_are_their_fields(a: Seq<SoundOption>, b: Seq<SoundOption>)
    ensures
        sound_views(a) == sound_views(b) <==> equal_sound_lists(a, b),
{
    if sound_views(a) == sound_views(b) {
        assert(a.len() == sound_views(a).len() && b.len() == sound_views(b).len());
        assert forall|i: int| 0 <= i < a.len() implies equal_sounds(#[trigger] a[i], b[i]) by {
            assert(sound_views(a)[i] == sound_views(b)[i]);
        }
    } else if equal_sound_lists(a, b) {
        assert forall|i: int| 0 <= i < a.len() implies (#[trigger] sound_views(a)[i])
            == sound_views(b)[i] by {
            assert(equal_sounds(a[i], b[i]));
        }
        assert(sound_views(a) =~= sound_views(b));
    }
}

/// What is shown of a rule is all that it holds.
pub proof fn law_rules_are_their_fields(a: TriggerRule, b: TriggerRule)
    ensures
        a@ == b@ <==> equal_rules(a, b),
{
    law_texts_are_what_they_read(a.words@, b.words@);
    law_sounds_are_their_fields(a.sounds@, b.sounds@);
}

/// What is shown of rules is all that they hold.
pub proof fn law_rule_lists_are_their_fields(a: Seq<TriggerRule>, b: Seq<TriggerRule>)
    ensures
        trigger_views(a) == trigger_views(b) <==> equal_rule_lists(a, b),
{
    if trigger_views(a) == trigger_views(b) {
        assert(a.len() == trigger_views(a).len() && b.len() == trigger_views(b).len());
        assert forall|i: int| 0 <= i < a.len() implies equal_rules(#[trigger] a[i], b[i]) by {
            assert(trigger_views(a)[i] == trigger_views(b)[i]);
            law_rules_are_their_fields(a[i], b[i]);
        }
    } else if equal_rule_lists(a, b) {
        assert forall|i: int| 0 <= i < a.len() implies (#[trigger] trigger_views(a)[i])
            == trigger_views(b)[i] by {
            assert(equal_rules(a[i], b[i]));
            law_rules_are_their_fields(a[i], b[i]);
        }
        assert(trigger_views(a) =~= trigger_views(b));
    }
}

/// What is shown of a configuration is all that it holds.
pub proof fn law_configurations_are_their_fields(a: AppConfig, b: AppConfig)
    ensures
        a@ == b@ <==> equal_configs(a, b),
{
    law_rule_lists_are_their_fields(a.triggers@, b.triggers@);
}

/// A copy of a configuration, a rule or a sound agrees with it in every field.
pub proof fn law_copies_agree(
    sound: &SoundOption,
    sound_copy: SoundOption,
    rule: &TriggerRule,
    rule_copy: TriggerRule,
    config: &AppConfig,
    config_copy: AppConfig,
)
    requires
        call_ensures(SoundOption::clone, (sound,), sound_copy),
        call_ensures(TriggerRule::clone, (rule,), rule_copy),
        call_ensures(AppConfig::clone, (config,), config_copy),
    ensures
        equal_sounds(sound_copy, *sound),
        equal_rules(rule_copy, *rule),
        equal_configs(config_copy, *config),
{
    law_rules_are_their_fields(rule_copy, *rule);
    law_configurations_are_their_fields(config_copy, *config);
}

/// The configuration of a first start: a master volume of 0.8, sounds overlap, no start
/// with the system, no microphone mix and no rules.
pub proof fn law_first_configuration(config: AppConfig)
    requires
        call_ensures(AppConfig::default, (), config),
    ensures
        config.master_volume.bits == 0x3F4C_CCCD,
        config.allow_overlap,
        !config.auto_start,
        config.mic_output_device is None,
        config.triggers@.len() == 0,
{
    assert(trigger_views(config.triggers@).len() == 0);
}

/// A rule whose file does not say is played for the user.
pub proof fn law_rules_are_heard_unless_told_otherwise(enabled: bool)
    requires
        call_ensures(default_true, (), enabled),
    ensures
        enabled,
{
}

} // verus!
