//! Saving over a configuration file that was edited by hand.
//!
//! The settings window knows the configuration as it was last shown. What the user has
//! changed there is saved; what they have left alone is taken from the file, so that a
//! change made in the file by hand comes into effect with the next save.
use crate::config::{
    clone_optional_text, clone_triggers, equal_configs, equal_optional_texts, equal_rule_lists,
    law_configurations_are_their_fields, law_rule_lists_are_their_fields, same_optional_text,
    same_triggers, AppConfig, ConfigView,
};
use crate::validation::{config_violation, law_accepted_iff_valid, valid, validate};
use vstd::prelude::*;

verus! {

/// One setting: as it is wanted where that differs from what was shown, else as it is
/// in the file.
pub open spec fn merged_setting<T>(shown: T, file: T, wanted: T) -> T {
    if wanted == shown {
        file
    } else {
        wanted
    }
}

/// A configuration, setting by setting. The rules are one setting.
pub open spec fn merged(shown: ConfigView, file: ConfigView, wanted: ConfigView) -> ConfigView {
    ConfigView {
        master_volume: merged_setting(
            shown.master_volume,
            file.master_volume,
            wanted.master_volume,
        ),
        allow_overlap: merged_setting(
            shown.allow_overlap,
            file.allow_overlap,
            wanted.allow_overlap,
        ),
        auto_start: merged_setting(shown.auto_start, file.auto_start, wanted.auto_start),
        mic_output_device: merged_setting(
            shown.mic_output_device,
            file.mic_output_device,
            wanted.mic_output_device,
        ),
        triggers: merged_setting(shown.triggers, file.triggers, wanted.triggers),
    }
}

/// What is saved. A file that cannot be read, or holds no valid configuration, has no
/// say.
pub open spec fn to_save(
    shown: ConfigView,
    file: Option<ConfigView>,
    wanted: ConfigView,
) -> ConfigView {
    match file {
        Some(found) => if config_violation(found) is None {
            merged(shown, found, wanted)
        } else {
            wanted
        },
        None => wanted,
    }
}

/// What is saved where `wanted` is asked for, given what was shown last and what the
/// file holds now.
pub fn configuration_to_save(
    shown: &AppConfig,
    file: Option<&AppConfig>,
    wanted: &AppConfig,
) -> (config: AppConfig)
    ensures
        config@ == to_save(
            shown@,
            match file {
                Some(found) => Some(found@),
                None => None,
            },
            wanted@,
        ),
{
    let found: &AppConfig = match file {
        Some(found) => found,
        None => {
            return wanted.clone();
        },
    };
    let no_files: Vec<String> = Vec::new();
    if validate(found, &no_files).is_err() {
        return wanted.clone();
    }
    AppConfig {
        master_volume: if wanted.master_volume.bits == shown.master_volume.bits {
            found.master_volume
        } else {
            wanted.master_volume
        },
        allow_overlap: if wanted.allow_overlap == shown.allow_overlap {
            found.allow_overlap
        } else {
            wanted.allow_overlap
        },
        auto_start: if wanted.auto_start == shown.auto_start {
            found.auto_start
        } else {
            wanted.auto_start
        },
        mic_output_device: if same_optional_text(
            &wanted.mic_output_device,
            &shown.mic_output_device,
        ) {
            clone_optional_text(&found.mic_output_device)
        } else {
            clone_optional_text(&wanted.mic_output_device)
        },
        triggers: if same_triggers(&wanted.triggers, &shown.triggers) {
            clone_triggers(&found.triggers)
        } else {
            clone_triggers(&wanted.triggers)
        },
    }
}

/// A file that nobody has touched since it was shown changes nothing: what is wanted is
/// saved.
pub proof fn law_untouched_file_changes_nothing(shown: ConfigView, wanted: ConfigView)
    ensures
        to_save(shown, Some(shown), wanted) == wanted,
{
}

/// A valid file that was edited by hand is taken over whole where the user has changed
/// nothing in the settings.
pub proof fn law_hand_edits_are_applied(shown: ConfigView, file: ConfigView)
    requires
        valid(file),
    ensures
        to_save(shown, Some(file), shown) == file,
{
    law_accepted_iff_valid(file);
}

/// A valid configuration stays valid, whatever the file holds.
pub proof fn law_merging_keeps_validity(
    shown: ConfigView,
    file: Option<ConfigView>,
    wanted: ConfigView,
)
    requires
        valid(wanted),
    ensures
        valid(to_save(shown, file, wanted)),
{
    if let Some(found) = file {
        law_accepted_iff_valid(found);
    }
}

/// Each setting is saved by itself, in every field: as it is wanted where the user has
/// changed it from what was shown, else as it is in the file. A file that is not there,
/// or holds what is not accepted, has no say.
pub proof fn law_each_setting_is_saved_by_itself(
    shown: &AppConfig,
    file: Option<&AppConfig>,
    wanted: &AppConfig,
    config: AppConfig,
)
    requires
        call_ensures(configuration_to_save, (shown, file, wanted), config),
    ensures
        file is None ==> equal_configs(config, *wanted),
        file matches Some(found) ==> !valid(found@) ==> equal_configs(config, *wanted),
        file matches Some(found) ==> valid(found@) ==> {
            &&& config.master_volume.bits == if wanted.master_volume.bits
                == shown.master_volume.bits {
                found.master_volume.bits
            } else {
                wanted.master_volume.bits
            }
            &&& config.allow_overlap == if wanted.allow_overlap == shown.allow_overlap {
                found.allow_overlap
            } else {
                wanted.allow_overlap
            }
            &&& config.auto_start == if wanted.auto_start == shown.auto_start {
                found.auto_start
            } else {
                wanted.auto_start
            }
            &&& equal_optional_texts(
                config.mic_output_device,
                if equal_optional_texts(wanted.mic_output_device, shown.mic_output_device) {
                    found.mic_output_device
                } else {
                    wanted.mic_output_device
                },
            )
            &&& equal_rule_lists(
                config.triggers@,
                if equal_rule_lists(wanted.triggers@, shown.triggers@) {
                    found.triggers@
                } else {
                    wanted.triggers@
                },
            )
        },
{
    law_configurations_are_their_fields(config, *wanted);
    law_rule_lists_are_their_fields(wanted.triggers@, shown.triggers@);
    law_rule_lists_are_their_fields(config.triggers@, wanted.triggers@);
    if let Some(found) = file {
        law_accepted_iff_valid(found@);
        law_rule_lists_are_their_fields(config.triggers@, found.triggers@);
    }
}

} // verus!
