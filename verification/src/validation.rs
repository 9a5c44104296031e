//! Checking a configuration: what makes it invalid, and what is only worth a warning.
use crate::config::{
    default_config, sound_views, texts, trigger_views, AppConfig, ConfigView, SoundOption,
    SoundView, TriggerRule, TriggerView,
};
use crate::text::{blank, is_blank, join3};
use crate::volume::Volume;
use vstd::prelude::*;

verus! {

/// Why a configuration is invalid.
#[derive(Debug, PartialEq)]
pub enum Violation {
    /// The master volume is not in `0.0..=1.0`.
    MasterVolume { volume: Volume },
    /// A rule has a blank id.
    EmptyTriggerId,
    /// The volume of a sound is not in `0.0..=1.0`.
    SoundVolume { path: String, volume: Volume },
    /// A rule of this name has a sound with a blank path.
    EmptySoundPath { trigger: String },
}

/// What a [`Violation`] holds.
pub enum ViolationView {
    MasterVolume { volume: Volume },
    EmptyTriggerId,
    SoundVolume { path: Seq<char>, volume: Volume },
    EmptySoundPath { trigger: Seq<char> },
}

impl View for Violation {
    type V = ViolationView;

    open spec fn view(&self) -> ViolationView {
        match *self {
            Violation::MasterVolume { volume } => ViolationView::MasterVolume { volume },
            Violation::EmptyTriggerId => ViolationView::EmptyTriggerId,
            Violation::SoundVolume { path, volume } => ViolationView::SoundVolume {
                path: path@,
                volume,
            },
            Violation::EmptySoundPath { trigger } => ViolationView::EmptySoundPath {
                trigger: trigger@,
            },
        }
    }
}

impl ViolationView {
    /// The volume that the violation is about.
    pub open spec fn volume(self) -> Option<Volume> {
        match self {
            ViolationView::MasterVolume { volume } => Some(volume),
            ViolationView::SoundVolume { volume, .. } => Some(volume),
            _ => None,
        }
    }

    /// The text of the violation, given the decimal form of its volume.
    pub open spec fn message(self, number: Seq<char>) -> Seq<char> {
        match self {
            ViolationView::MasterVolume { .. } => {
                "master_volume должен быть в диапазоне 0.0..=1.0, получено "@ + number
            },
            ViolationView::EmptyTriggerId => "у триггера пустой id"@,
            ViolationView::SoundVolume { path, .. } => {
                "громкость звука '"@ + path + "' вне диапазона 0.0..=1.0: "@ + number
            },
            ViolationView::EmptySoundPath { trigger } => {
                "пустой путь звука в триггере '"@ + trigger + "'"@
            },
        }
    }
}

impl Violation {
    /// The volume that the violation is about.
    pub fn volume(&self) -> (volume: Option<Volume>)
        ensures
            volume == self@.volume(),
    {
        match self {
            Violation::MasterVolume { volume } => Some(*volume),
            Violation::SoundVolume { volume, .. } => Some(*volume),
            _ => None,
        }
    }

    /// The text of the violation, given the decimal form of its volume. A violation
    /// that is not about a volume leaves `number` out.
    pub fn message(&self, number: &str) -> (text: String)
        ensures
            text@ == self@.message(number@),
    {
        match self {
            Violation::MasterVolume { .. } => {
                let text: String = join3(
                    "master_volume должен быть в диапазоне 0.0..=1.0, получено ",
                    number,
                    "",
                );
                proof {
                    reveal_strlit("");
                }
                assert(text@ =~= self@.message(number@));
                text
            },
            Violation::EmptyTriggerId => "у триггера пустой id".to_owned(),
            Violation::SoundVolume { path, .. } => {
                let mut text: String = join3(
                    "громкость звука '",
                    path.as_str(),
                    "' вне диапазона 0.0..=1.0: ",
                );
                text.append(number);
                text
            },
            Violation::EmptySoundPath { trigger } => join3(
                "пустой путь звука в триггере '",
                trigger.as_str(),
                "'",
            ),
        }
    }
}

/// Why a configuration could not be loaded, saved or accepted.
#[derive(Debug, PartialEq)]
pub enum ConfigError {
    /// Reading or writing failed, for the reason given.
    Io(String),
    /// The file is no configuration, for the reason given.
    Json(String),
    /// The configuration is invalid.
    Validation(Violation),
}

impl ConfigError {
    /// The text of the error, given the decimal form of the volume it is about.
    pub open spec fn shown(self, number: Seq<char>) -> Seq<char> {
        match self {
            ConfigError::Io(reason) => "ошибка ввода-вывода: "@ + reason@,
            ConfigError::Json(reason) => "ошибка разбора JSON: "@ + reason@,
            ConfigError::Validation(violation) => {
                "ошибка валидации конфигурации: "@ + violation@.message(number)
            },
        }
    }

    /// The text of the error, given the decimal form of the volume it is about, if
    /// it is about one.
    pub fn message(&self, number: &str) -> (text: String)
        ensures
            text@ == self.shown(number@),
    {
        match self {
            ConfigError::Io(reason) => "ошибка ввода-вывода: ".to_owned().concat(reason.as_str()),
            ConfigError::Json(reason) => "ошибка разбора JSON: ".to_owned().concat(
                reason.as_str(),
            ),
            ConfigError::Validation(violation) => {
                "ошибка валидации конфигурации: ".to_owned().concat(
                    violation.message(number).as_str(),
                )
            },
        }
    }
}

/// What is wrong with a sound of the rule of this name: its volume first, then its
/// path.
pub open spec fn sound_violation(trigger: Seq<char>, sound: SoundView) -> Option<ViolationView> {
    if !sound.volume.in_unit_range() {
        Some(ViolationView::SoundVolume { path: sound.path, volume: sound.volume })
    } else if blank(sound.path) {
        Some(ViolationView::EmptySoundPath { trigger })
    } else {
        None
    }
}

/// What is wrong with the first bad sound of a list.
pub open spec fn sounds_violation(trigger: Seq<char>, sounds: Seq<SoundView>) -> Option<
    ViolationView,
>
    decreases sounds.len(),
{
    if sounds.len() == 0 {
        None
    } else {
        match sounds_violation(trigger, sounds.drop_last()) {
            Some(violation) => Some(violation),
            None => sound_violation(trigger, sounds.last()),
        }
    }
}

/// What is wrong with a rule: its id first, then its sounds in order.
pub open spec fn trigger_violation(trigger: TriggerView) -> Option<ViolationView> {
    if blank(trigger.id) {
        Some(ViolationView::EmptyTriggerId)
    } else {
        sounds_violation(trigger.name, trigger.sounds)
    }
}

/// What is wrong with the first bad rule of a list.
pub open spec fn triggers_violation(triggers: Seq<TriggerView>) -> Option<ViolationView>
    decreases triggers.len(),
{
    if triggers.len() == 0 {
        None
    } else {
        match triggers_violation(triggers.drop_last()) {
            Some(violation) => Some(violation),
            None => trigger_violation(triggers.last()),
        }
    }
}

/// What is wrong with a configuration: the master volume first, then the rules in
/// order.
pub open spec fn config_violation(config: ConfigView) -> Option<ViolationView> {
    if !config.master_volume.in_unit_range() {
        Some(ViolationView::MasterVolume { volume: config.master_volume })
    } else {
        triggers_violation(config.triggers)
    }
}

/// The warning about a rule without words.
pub open spec fn words_warning(trigger: TriggerView) -> Seq<Seq<char>> {
    if trigger.words.len() == 0 {
        seq!["триггер '"@ + trigger.name + "' не имеет слов — не сработает"@]
    } else {
        seq![]
    }
}

/// The warning about a rule without sounds, or without any weight.
pub open spec fn choice_warning(trigger: TriggerView) -> Seq<Seq<char>> {
    if trigger.sounds.len() == 0 {
        seq!["триггер '"@ + trigger.name + "' не имеет звуков"@]
    } else if forall|i: int|
        0 <= i < trigger.sounds.len() ==> (#[trigger] trigger.sounds[i]).weight == 0 {
        seq![
            "у триггера '"@ + trigger.name
                + "' все веса равны 0 — будет выбираться первый звук"@,
        ]
    } else {
        seq![]
    }
}

/// The warnings about sounds whose file is not among those found.
pub open spec fn missing_warnings(sounds: Seq<SoundView>, found: Seq<Seq<char>>) -> Seq<Seq<char>>
    decreases sounds.len(),
{
    if sounds.len() == 0 {
        seq![]
    } else {
        let front = missing_warnings(sounds.drop_last(), found);
        if found.contains(sounds.last().path) {
            front
        } else {
            front.push("файл не найден: "@ + sounds.last().path)
        }
    }
}

/// The warnings about a rule.
pub open spec fn trigger_warnings(trigger: TriggerView, found: Seq<Seq<char>>) -> Seq<Seq<char>> {
    words_warning(trigger) + choice_warning(trigger) + missing_warnings(trigger.sounds, found)
}

/// The warnings about a list of rules, in order.
pub open spec fn warnings(triggers: Seq<TriggerView>, found: Seq<Seq<char>>) -> Seq<Seq<char>>
    decreases triggers.len(),
{
    if triggers.len() == 0 {
        seq![]
    } else {
        warnings(triggers.drop_last(), found) + trigger_warnings(triggers.last(), found)
    }
}

fn contains_text(list: &Vec<String>, text: &String) -> (found: bool)
    ensures
        found == texts(list@).contains(text@),
{
    let mut i: usize = 0;
    while i < list.len()
        invariant
            i <= list.len(),
            forall|j: int| 0 <= j < i ==> #[trigger] texts(list@)[j] != text@,
        decreases list.len() - i,
    {
        if list[i] == *text {
            assert(texts(list@)[i as int] == text@);
            return true;
        }
        i += 1;
    }
    false
}

fn all_weightless(sounds: &Vec<SoundOption>) -> (yes: bool)
    ensures
        yes <==> forall|i: int|
            0 <= i < sounds@.len() ==> (#[trigger] sound_views(sounds@)[i]).weight == 0,
{
    let mut i: usize = 0;
    while i < sounds.len()
        invariant
            i <= sounds.len(),
            forall|j: int| 0 <= j < i ==> (#[trigger] sound_views(sounds@)[j]).weight == 0,
        decreases sounds.len() - i,
    {
        if sounds[i].weight != 0 {
            assert(sound_views(sounds@)[i as int].weight != 0);
            return false;
        }
        i += 1;
    }
    true
}

fn push_text(list: &mut Vec<String>, text: String)
    ensures
        texts(final(list)@) == texts(old(list)@).push(text@),
{
    list.push(text);
    assert(texts(list@) =~= texts(old(list)@).push(text@));
}

/// Checks the sounds of a rule, adding a warning for each file that is not found.
fn check_sounds(trigger: &TriggerRule, found: &Vec<String>, notes: &mut Vec<String>) -> (checked:
    Result<(), Violation>)
    ensures
        match checked {
            Ok(()) => {
                &&& sounds_violation(trigger@.name, trigger@.sounds) is None
                &&& texts(final(notes)@) == texts(old(notes)@) + missing_warnings(
                    trigger@.sounds,
                    texts(found@),
                )
            },
            Err(violation) => sounds_violation(trigger@.name, trigger@.sounds) == Some(violation@),
        },
{
    let ghost views: Seq<SoundView> = trigger@.sounds;
    let mut i: usize = 0;
    assert(texts(notes@) =~= texts(old(notes)@) + missing_warnings(views.take(0), texts(found@)));
    while i < trigger.sounds.len()
        invariant
            i <= trigger.sounds.len(),
            views == trigger@.sounds,
            sounds_violation(trigger@.name, views.take(i as int)) is None,
            texts(notes@) == texts(old(notes)@) + missing_warnings(
                views.take(i as int),
                texts(found@),
            ),
        decreases trigger.sounds.len() - i,
    {
        let sound = &trigger.sounds[i];
        proof {
            assert(views[i as int] == sound@);
            assert(views.take(i + 1).drop_last() =~= views.take(i as int));
            assert(views.take(i + 1).last() == sound@);
        }
        if !sound.volume.is_unit() {
            proof {
                lemma_first_sound_violation(trigger@.name, views, i + 1);
            }
            return Err(
                Violation::SoundVolume { path: sound.path.clone(), volume: sound.volume },
            );
        }
        if is_blank(sound.path.as_str()) {
            proof {
                lemma_first_sound_violation(trigger@.name, views, i + 1);
            }
            return Err(Violation::EmptySoundPath { trigger: trigger.name.clone() });
        }
        if !contains_text(found, &sound.path) {
            push_text(notes, "файл не найден: ".to_owned().concat(sound.path.as_str()));
        }
        assert(texts(notes@) =~= texts(old(notes)@) + missing_warnings(
            views.take(i + 1),
            texts(found@),
        ));
        i += 1;
    }
    assert(views.take(views.len() as int) =~= views);
    Ok(())
}

proof fn lemma_first_sound_violation(trigger: Seq<char>, sounds: Seq<SoundView>, n: int)
    requires
        0 <= n <= sounds.len(),
        sounds_violation(trigger, sounds.take(n)) is Some,
    ensures
        sounds_violation(trigger, sounds) == sounds_violation(trigger, sounds.take(n)),
    decreases sounds.len() - n,
{
    if n == sounds.len() {
        assert(sounds.take(n) =~= sounds);
    } else {
        assert(sounds.take(n + 1).drop_last() =~= sounds.take(n));
        lemma_first_sound_violation(trigger, sounds, n + 1);
    }
}

proof fn lemma_first_trigger_violation(triggers: Seq<TriggerView>, n: int)
    requires
        0 <= n <= triggers.len(),
        triggers_violation(triggers.take(n)) is Some,
    ensures
        triggers_violation(triggers) == triggers_violation(triggers.take(n)),
    decreases triggers.len() - n,
{
    if n == triggers.len() {
        assert(triggers.take(n) =~= triggers);
    } else {
        assert(triggers.take(n + 1).drop_last() =~= triggers.take(n));
        lemma_first_trigger_violation(triggers, n + 1);
    }
}

/// Checks a rule, adding its warnings.
fn check_trigger(trigger: &TriggerRule, found: &Vec<String>, notes: &mut Vec<String>) -> (checked:
    Result<(), Violation>)
    ensures
        match checked {
            Ok(()) => {
                &&& trigger_violation(trigger@) is None
                &&& texts(final(notes)@) == texts(old(notes)@) + trigger_warnings(
                    trigger@,
                    texts(found@),
                )
            },
            Err(violation) => trigger_violation(trigger@) == Some(violation@),
        },
{
    if is_blank(trigger.id.as_str()) {
        return Err(Violation::EmptyTriggerId);
    }
    if trigger.words.is_empty() {
        push_text(
            notes,
            join3("триггер '", trigger.name.as_str(), "' не имеет слов — не сработает"),
        );
    }
    assert(texts(notes@) =~= texts(old(notes)@) + words_warning(trigger@));
    if trigger.sounds.is_empty() {
        push_text(notes, join3("триггер '", trigger.name.as_str(), "' не имеет звуков"));
    } else if all_weightless(&trigger.sounds) {
        push_text(
            notes,
            join3(
                "у триггера '",
                trigger.name.as_str(),
                "' все веса равны 0 — будет выбираться первый звук",
            ),
        );
    }
    assert(texts(notes@) =~= texts(old(notes)@) + words_warning(trigger@) + choice_warning(
        trigger@,
    ));
    let checked: Result<(), Violation> = check_sounds(trigger, found, notes);
    assert(checked is Ok ==> texts(notes@) =~= texts(old(notes)@) + trigger_warnings(
        trigger@,
        texts(found@),
    ));
    checked
}

/// Checks a configuration. `found` lists the sound files that exist. The first
/// violation is an error; files that are missing, and rules that can never fire or
/// play, are warnings.
pub fn validate(config: &AppConfig, found: &Vec<String>) -> (checked: Result<
    Vec<String>,
    ConfigError,
>)
    ensures
        match checked {
            Ok(notes) => {
                &&& config_violation(config@) is None
                &&& texts(notes@) == warnings(config@.triggers, texts(found@))
            },
            Err(error) => {
                &&& error matches ConfigError::Validation(violation)
                &&& config_violation(config@) == Some(violation@)
            },
        },
{
    if !config.master_volume.is_unit() {
        return Err(
            ConfigError::Validation(Violation::MasterVolume { volume: config.master_volume }),
        );
    }
    let ghost views: Seq<TriggerView> = config@.triggers;
    let mut notes: Vec<String> = Vec::new();
    let mut i: usize = 0;
    assert(texts(notes@) =~= warnings(views.take(0), texts(found@)));
    while i < config.triggers.len()
        invariant
            i <= config.triggers.len(),
            views == config@.triggers,
            config.master_volume.in_unit_range(),
            triggers_violation(views.take(i as int)) is None,
            texts(notes@) == warnings(views.take(i as int), texts(found@)),
        decreases config.triggers.len() - i,
    {
        proof {
            assert(views[i as int] == config.triggers@[i as int]@);
            assert(views.take(i + 1).drop_last() =~= views.take(i as int));
            assert(views.take(i + 1).last() == views[i as int]);
        }
        match check_trigger(&config.triggers[i], found, &mut notes) {
            Ok(()) => {},
            Err(violation) => {
                proof {
                    lemma_first_trigger_violation(views, i + 1);
                }
                return Err(ConfigError::Validation(violation));
            },
        }
        i += 1;
    }
    assert(views.take(views.len() as int) =~= views);
    Ok(notes)
}

/// Whether everything a configuration must satisfy holds.
pub open spec fn valid(config: ConfigView) -> bool {
    &&& config.master_volume.in_unit_range()
    &&& forall|i: int| #![trigger config.triggers[i]]
        0 <= i < config.triggers.len() ==> {
            &&& !blank(config.triggers[i].id)
            &&& forall|j: int| #![trigger config.triggers[i].sounds[j]]
                0 <= j < config.triggers[i].sounds.len() ==> {
                    &&& config.triggers[i].sounds[j].volume.in_unit_range()
                    &&& !blank(config.triggers[i].sounds[j].path)
                }
        }
}

proof fn lemma_sounds_valid(trigger: Seq<char>, sounds: Seq<SoundView>)
    ensures
        sounds_violation(trigger, sounds) is None <==> forall|j: int|
            0 <= j < sounds.len() ==> sound_violation(trigger, #[trigger] sounds[j]) is None,
    decreases sounds.len(),
{
    if sounds.len() > 0 {
        let front = sounds.drop_last();
        lemma_sounds_valid(trigger, front);
        if sounds_violation(trigger, sounds) is None {
            assert forall|j: int| 0 <= j < sounds.len() implies sound_violation(
                trigger,
                #[trigger] sounds[j],
            ) is None by {
                if j < front.len() {
                    assert(sound_violation(trigger, front[j]) is None);
                }
            }
        } else if sounds_violation(trigger, front) is Some {
            let j = choose|j: int|
                0 <= j < front.len() && sound_violation(trigger, #[trigger] front[j]) is Some;
            assert(sound_violation(trigger, sounds[j]) is Some);
        } else {
            assert(sound_violation(trigger, sounds[sounds.len() - 1]) is Some);
        }
    }
}

proof fn lemma_triggers_valid(triggers: Seq<TriggerView>)
    ensures
        triggers_violation(triggers) is None <==> forall|i: int|
            0 <= i < triggers.len() ==> trigger_violation(#[trigger] triggers[i]) is None,
    decreases triggers.len(),
{
    if triggers.len() > 0 {
        let front = triggers.drop_last();
        lemma_triggers_valid(front);
        if triggers_violation(triggers) is None {
            assert forall|i: int| 0 <= i < triggers.len() implies trigger_violation(
                #[trigger] triggers[i],
            ) is None by {
                if i < front.len() {
                    assert(trigger_violation(front[i]) is None);
                }
            }
        } else if triggers_violation(front) is Some {
            let i = choose|i: int|
                0 <= i < front.len() && trigger_violation(#[trigger] front[i]) is Some;
            assert(trigger_violation(triggers[i]) is Some);
        } else {
            assert(trigger_violation(triggers[triggers.len() - 1]) is Some);
        }
    }
}

/// A configuration is accepted exactly where every volume lies in `0.0..=1.0` and
/// every rule has an id and every sound a path. Missing files, words, sounds and
/// weights never make it invalid.
pub proof fn law_accepted_iff_valid(config: ConfigView)
    ensures
        config_violation(config) is None <==> valid(config),
{
    lemma_triggers_valid(config.triggers);
    assert forall|i: int| 0 <= i < config.triggers.len() implies (trigger_violation(
        #[trigger] config.triggers[i],
    ) is None <==> !blank(config.triggers[i].id) && forall|j: int|
        #![trigger config.triggers[i].sounds[j]]
        0 <= j < config.triggers[i].sounds.len()
            ==> config.triggers[i].sounds[j].volume.in_unit_range() && !blank(
            config.triggers[i].sounds[j].path,
        )) by {
        lemma_sounds_valid(config.triggers[i].name, config.triggers[i].sounds);
        assert forall|j: int| 0 <= j < config.triggers[i].sounds.len() implies (sound_violation(
            config.triggers[i].name,
            #[trigger] config.triggers[i].sounds[j],
        ) is None <==> config.triggers[i].sounds[j].volume.in_unit_range() && !blank(
            config.triggers[i].sounds[j].path,
        )) by {}
    }
}

/// The configuration of a first start is valid and gives no warning, whatever files
/// are there.
pub proof fn law_default_is_valid(found: Seq<Seq<char>>)
    ensures
        config_violation(default_config()) is None,
        warnings(default_config().triggers, found) == Seq::<Seq<char>>::empty(),
{
    crate::volume::lemma_unit_bits(default_config().master_volume);
}

/// Whether a volume is a number from `0.0` to `1.0`: its bits are at most those of
/// `1.0`, or those of `-0.0`.
pub open spec fn fit_volume(volume: Volume) -> bool {
    volume.bits <= 0x3F80_0000 || volume.bits == 0x8000_0000
}

/// Whether a sound is as it must be.
pub open spec fn fit_sound(sound: SoundOption) -> bool {
    fit_volume(sound.volume) && !blank(sound.path@)
}

/// Whether a rule is as it must be.
pub open spec fn fit_rule(rule: TriggerRule) -> bool {
    &&& !blank(rule.id@)
    &&& forall|j: int| 0 <= j < rule.sounds@.len() ==> fit_sound(#[trigger] rule.sounds@[j])
}

/// Whether a configuration is as it must be.
pub open spec fn fit_config(config: AppConfig) -> bool {
    &&& fit_volume(config.master_volume)
    &&& forall|i: int| 0 <= i < config.triggers@.len() ==> fit_rule(#[trigger] config.triggers@[i])
}

/// Whether a violation is what is wrong with a sound of a rule: its volume first, then
/// its path.
pub open spec fn wrong_with_sound(
    violation: Violation,
    rule: TriggerRule,
    sound: SoundOption,
) -> bool {
    match violation {
        Violation::SoundVolume { path, volume } => {
            !fit_volume(sound.volume) && path@ == sound.path@ && volume == sound.volume
        },
        Violation::EmptySoundPath { trigger } => {
            fit_volume(sound.volume) && blank(sound.path@) && trigger@ == rule.name@
        },
        _ => false,
    }
}

/// Whether a violation is the first thing wrong with a rule: its id, else its first sound
/// that is not as it must be.
pub open spec fn wrong_with_rule(violation: Violation, rule: TriggerRule) -> bool {
    if blank(rule.id@) {
        violation is EmptyTriggerId
    } else {
        exists|j: int|
            {
                &&& 0 <= j < rule.sounds@.len()
                &&& wrong_with_sound(violation, rule, #[trigger] rule.sounds@[j])
                &&& forall|k: int| 0 <= k < j ==> fit_sound(#[trigger] rule.sounds@[k])
            }
    }
}

/// Whether a violation is the first thing wrong with a configuration: its master volume,
/// else its first rule that is not as it must be.
pub open spec fn wrong_with_config(violation: Violation, config: AppConfig) -> bool {
    if !fit_volume(config.master_volume) {
        violation matches Violation::MasterVolume { volume } && volume == config.master_volume
    } else {
        exists|i: int|
            {
                &&& 0 <= i < config.triggers@.len()
                &&& wrong_with_rule(violation, #[trigger] config.triggers@[i])
                &&& forall|k: int| 0 <= k < i ==> fit_rule(#[trigger] config.triggers@[k])
            }
    }
}

proof fn lemma_fit_volume(volume: Volume)
    ensures
        volume.in_unit_range() <==> fit_volume(volume),
{
    crate::volume::lemma_unit_bits(volume);
}

proof fn lemma_first_bad_sound(trigger: Seq<char>, sounds: Seq<SoundView>) -> (j: int)
    requires
        sounds_violation(trigger, sounds) is Some,
    ensures
        0 <= j < sounds.len(),
        sound_violation(trigger, sounds[j]) == sounds_violation(trigger, sounds),
        forall|k: int| 0 <= k < j ==> sound_violation(trigger, #[trigger] sounds[k]) is None,
    decreases sounds.len(),
{
    let front = sounds.drop_last();
    if sounds_violation(trigger, front) is Some {
        let j = lemma_first_bad_sound(trigger, front);
        assert(front[j] == sounds[j]);
        assert forall|k: int| 0 <= k < j implies sound_violation(
            trigger,
            #[trigger] sounds[k],
        ) is None by {
            assert(front[k] == sounds[k]);
        }
        j
    } else {
        lemma_sounds_valid(trigger, front);
        assert forall|k: int| 0 <= k < sounds.len() - 1 implies sound_violation(
            trigger,
            #[trigger] sounds[k],
        ) is None by {
            assert(front[k] == sounds[k]);
        }
        sounds.len() - 1
    }
}

proof fn lemma_first_bad_rule(triggers: Seq<TriggerView>) -> (i: int)
    requires
        triggers_violation(triggers) is Some,
    ensures
        0 <= i < triggers.len(),
        trigger_violation(triggers[i]) == triggers_violation(triggers),
        forall|k: int| 0 <= k < i ==> trigger_violation(#[trigger] triggers[k]) is None,
    decreases triggers.len(),
{
    let front = triggers.drop_last();
    if triggers_violation(front) is Some {
        let i = lemma_first_bad_rule(front);
        assert(front[i] == triggers[i]);
        assert forall|k: int| 0 <= k < i implies trigger_violation(
            #[trigger] triggers[k],
        ) is None by {
            assert(front[k] == triggers[k]);
        }
        i
    } else {
        lemma_triggers_valid(front);
        assert forall|k: int| 0 <= k < triggers.len() - 1 implies trigger_violation(
            #[trigger] triggers[k],
        ) is None by {
            assert(front[k] == triggers[k]);
        }
        triggers.len() - 1
    }
}

proof fn lemma_fit_sound(trigger: Seq<char>, sound: SoundOption)
    ensures
        sound_violation(trigger, sound@) is None <==> fit_sound(sound),
{
    lemma_fit_volume(sound.volume);
}

proof fn lemma_fit_rule(rule: TriggerRule)
    ensures
        trigger_violation(rule@) is None <==> fit_rule(rule),
{
    let views = sound_views(rule.sounds@);
    lemma_sounds_valid(rule.name@, views);
    assert forall|j: int| 0 <= j < rule.sounds@.len() implies (sound_violation(
        rule.name@,
        #[trigger] views[j],
    ) is None <==> fit_sound(rule.sounds@[j])) by {
        lemma_fit_sound(rule.name@, rule.sounds@[j]);
    }
    if fit_rule(rule) {
        assert forall|j: int| 0 <= j < views.len() implies sound_violation(
            rule.name@,
            #[trigger] views[j],
        ) is None by {
            assert(fit_sound(rule.sounds@[j]));
        }
    } else if trigger_violation(rule@) is None {
        assert forall|j: int| 0 <= j < rule.sounds@.len() implies fit_sound(
            #[trigger] rule.sounds@[j],
        ) by {
            assert(sound_violation(rule.name@, views[j]) is None);
        }
    }
}

proof fn lemma_fit_config(config: AppConfig)
    ensures
        config_violation(config@) is None <==> fit_config(config),
{
    let views = trigger_views(config.triggers@);
    lemma_fit_volume(config.master_volume);
    lemma_triggers_valid(views);
    assert forall|i: int| 0 <= i < config.triggers@.len() implies (trigger_violation(
        #[trigger] views[i],
    ) is None <==> fit_rule(config.triggers@[i])) by {
        lemma_fit_rule(config.triggers@[i]);
    }
    if fit_config(config) {
        assert forall|i: int| 0 <= i < views.len() implies trigger_violation(
            #[trigger] views[i],
        ) is None by {
            assert(fit_rule(config.triggers@[i]));
        }
    } else if config_violation(config@) is None {
        assert forall|i: int| 0 <= i < config.triggers@.len() implies fit_rule(
            #[trigger] config.triggers@[i],
        ) by {
            assert(trigger_violation(views[i]) is None);
        }
    }
}

/// A configuration is accepted exactly where every volume is a number from `0.0` to
/// `1.0`, every rule has an id and every sound a path. One that is not is refused for the
/// first thing that is wrong with it.
pub proof fn law_first_fault_is_reported(
    config: &AppConfig,
    found: &Vec<String>,
    checked: Result<Vec<String>, ConfigError>,
)
    requires
        call_ensures(validate, (config, found), checked),
    ensures
        checked is Ok <==> fit_config(*config),
        checked matches Err(error) ==> (error matches ConfigError::Validation(violation)
            && wrong_with_config(violation, *config)),
{
    lemma_fit_config(*config);
    if let Err(ConfigError::Validation(violation)) = checked {
        let rules = config.triggers@;
        let views = trigger_views(rules);
        lemma_fit_volume(config.master_volume);
        if fit_volume(config.master_volume) {
            let i = lemma_first_bad_rule(views);
            let rule = rules[i];
            assert(views[i] == rule@);
            assert forall|k: int| 0 <= k < i implies fit_rule(#[trigger] rules[k]) by {
                assert(trigger_violation(views[k]) is None);
                lemma_fit_rule(rules[k]);
            }
            if !blank(rule.id@) {
                let sounds = sound_views(rule.sounds@);
                let j = lemma_first_bad_sound(rule.name@, sounds);
                assert(sounds[j] == rule.sounds@[j]@);
                lemma_fit_volume(rule.sounds@[j].volume);
                assert forall|k: int| 0 <= k < j implies fit_sound(
                    #[trigger] rule.sounds@[k],
                ) by {
                    assert(sound_violation(rule.name@, sounds[k]) is None);
                    lemma_fit_sound(rule.name@, rule.sounds@[k]);
                }
                assert(wrong_with_sound(violation, rule, rule.sounds@[j]));
            }
            assert(wrong_with_rule(violation, rules[i]));
        }
    }
}

/// The warnings of a configuration that is accepted are those of its rules, in order:
/// each rule adds its own after those before it, whatever rules there are.
pub proof fn law_warnings_add_up(
    config: &AppConfig,
    found: &Vec<String>,
    notes: Vec<String>,
    triggers: Seq<TriggerView>,
    trigger: TriggerView,
)
    requires
        call_ensures(validate, (config, found), Ok(notes)),
    ensures
        texts(notes@) == warnings(trigger_views(config.triggers@), texts(found@)),
        warnings(Seq::<TriggerView>::empty(), texts(found@)).len() == 0,
        warnings(triggers.push(trigger), texts(found@)) == warnings(triggers, texts(found@))
            + trigger_warnings(trigger, texts(found@)),
{
    assert(triggers.push(trigger).drop_last() =~= triggers);
}

/// The warnings of a rule, in order: that it has no words; that it has no sounds, or none
/// with any weight; and each of its sounds whose file was not found, in order.
pub proof fn law_warnings_of_a_rule(
    trigger: TriggerView,
    found: Seq<Seq<char>>,
    sounds: Seq<SoundView>,
    sound: SoundView,
)
    ensures
        ({
            let without_words = if trigger.words.len() == 0 {
                seq!["триггер '"@ + trigger.name + "' не имеет слов — не сработает"@]
            } else {
                seq![]
            };
            let without_choice = if trigger.sounds.len() == 0 {
                seq!["триггер '"@ + trigger.name + "' не имеет звуков"@]
            } else if exists|i: int|
                0 <= i < trigger.sounds.len() && (#[trigger] trigger.sounds[i]).weight > 0 {
                seq![]
            } else {
                seq![
                    "у триггера '"@ + trigger.name
                        + "' все веса равны 0 — будет выбираться первый звук"@,
                ]
            };
            trigger_warnings(trigger, found) == without_words + without_choice + missing_warnings(
                trigger.sounds,
                found,
            )
        }),
        missing_warnings(Seq::<SoundView>::empty(), found).len() == 0,
        found.contains(sound.path) ==> missing_warnings(sounds.push(sound), found)
            == missing_warnings(sounds, found),
        !found.contains(sound.path) ==> missing_warnings(sounds.push(sound), found)
            == missing_warnings(sounds, found).push("файл не найден: "@ + sound.path),
{
    assert(sounds.push(sound).drop_last() =~= sounds);
    if forall|i: int|
        0 <= i < trigger.sounds.len() ==> (#[trigger] trigger.sounds[i]).weight == 0 {
        assert(!exists|i: int|
            0 <= i < trigger.sounds.len() && (#[trigger] trigger.sounds[i]).weight > 0);
    }
}

/// A violation tells the volume that it is about, and only such a one does.
pub proof fn law_violations_tell_their_volume(violation: &Violation, told: Option<Volume>)
    requires
        call_ensures(Violation::volume, (violation,), told),
    ensures
        match *violation {
            Violation::MasterVolume { volume } => told == Some(volume),
            Violation::SoundVolume { volume, .. } => told == Some(volume),
            _ => told is None,
        },
{
}

/// Each violation has its own text, which tells what it is about.
pub proof fn law_violations_tell_what_is_wrong(violation: &Violation, number: &str, text: String)
    requires
        call_ensures(Violation::message, (violation, number), text),
    ensures
        match *violation {
            Violation::MasterVolume { .. } => text@
                == "master_volume должен быть в диапазоне 0.0..=1.0, получено "@ + number@,
            Violation::EmptyTriggerId => text@ == "у триггера пустой id"@,
            Violation::SoundVolume { path, .. } => text@ == "громкость звука '"@ + path@
                + "' вне диапазона 0.0..=1.0: "@ + number@,
            Violation::EmptySoundPath { trigger } => text@ == "пустой путь звука в триггере '"@
                + trigger@ + "'"@,
        },
{
}

/// Each error has its own text, which tells the reason or the violation.
pub proof fn law_errors_tell_their_reason(
    error: &ConfigError,
    number: &str,
    text: String,
    violation_text: String,
)
    requires
        call_ensures(ConfigError::message, (error, number), text),
        *error matches ConfigError::Validation(violation) ==> call_ensures(
            Violation::message,
            (&violation, number),
            violation_text,
        ),
    ensures
        match *error {
            ConfigError::Io(reason) => text@ == "ошибка ввода-вывода: "@ + reason@,
            ConfigError::Json(reason) => text@ == "ошибка разбора JSON: "@ + reason@,
            ConfigError::Validation(_) => text@ == "ошибка валидации конфигурации: "@
                + violation_text@,
        },
{
}

} // verus!
