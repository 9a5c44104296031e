//! Where the configuration is kept, and how it is loaded and saved.
use crate::config::{
    default_config, equal_configs, equal_texts, law_configurations_are_their_fields,
    law_texts_are_what_they_read, texts, trigger_views, AppConfig, ConfigView,
};
use crate::paths::{
    beside_path, extended_path, join_path, joined_path, parent_path, path_beside, path_file_name,
    path_parent, path_with_extension,
};
use crate::text::join3;
use vstd::prelude::*;

verus! {

/// The folder of the application's files.
pub const APP_DIR_NAME: &'static str = "KeySoundTrigger";

/// The configuration file in it.
pub const CONFIG_FILE_NAME: &'static str = "config.json";

/// The extension of the file that is written before it takes the place of the old one.
pub const TEMPORARY_EXTENSION: &'static str = "json.tmp";

/// The application's folder: in the folder for application data, where the system
/// names one; else beside the executable; else in the working directory.
pub open spec fn config_dir_path(appdata: Option<Seq<char>>, exe: Option<Seq<char>>) -> Seq<char> {
    match (appdata, exe) {
        (Some(base), _) => joined_path(base, APP_DIR_NAME@),
        (None, Some(exe)) => path_beside(exe, APP_DIR_NAME@),
        (None, None) => APP_DIR_NAME@,
    }
}

/// The application's folder, given the folder for application data and the path of
/// the executable, as far as they are known.
pub fn config_dir(appdata: Option<&String>, exe: Option<&String>) -> (dir: String)
    ensures
        dir@ == config_dir_path(
            match appdata {
                Some(base) => Some(base@),
                None => None,
            },
            match exe {
                Some(path) => Some(path@),
                None => None,
            },
        ),
{
    match (appdata, exe) {
        (Some(base), _) => join_path(base.as_str(), APP_DIR_NAME),
        (None, Some(path)) => beside_path(path.as_str(), APP_DIR_NAME),
        (None, None) => APP_DIR_NAME.to_owned(),
    }
}

/// The configuration file, given the folder for application data and the path of
/// the executable, as far as they are known.
pub fn config_path(appdata: Option<&String>, exe: Option<&String>) -> (path: String)
    ensures
        path@ == joined_path(
            config_dir_path(
                match appdata {
                    Some(base) => Some(base@),
                    None => None,
                },
                match exe {
                    Some(path) => Some(path@),
                    None => None,
                },
            ),
            CONFIG_FILE_NAME@,
        ),
{
    join_path(config_dir(appdata, exe).as_str(), CONFIG_FILE_NAME)
}

/// A step of saving.
#[derive(Debug, PartialEq, Eq)]
pub enum SaveStep {
    /// Create a folder and those above it, as far as they are missing.
    CreateDir { path: String },
    /// Write the new contents to this file.
    WriteFile { path: String },
    /// Rename a file. It takes the place of the file of the new name, if there is one.
    RenameFile { from: String, to: String },
}

/// What a [`SaveStep`] holds.
pub enum SaveStepView {
    CreateDir { path: Seq<char> },
    WriteFile { path: Seq<char> },
    RenameFile { from: Seq<char>, to: Seq<char> },
}

impl View for SaveStep {
    type V = SaveStepView;

    open spec fn view(&self) -> SaveStepView {
        match *self {
            SaveStep::CreateDir { path } => SaveStepView::CreateDir { path: path@ },
            SaveStep::WriteFile { path } => SaveStepView::WriteFile { path: path@ },
            SaveStep::RenameFile { from, to } => SaveStepView::RenameFile { from: from@, to: to@ },
        }
    }
}

/// The steps of saving by way of a temporary file.
pub open spec fn saving(
    parent: Option<Seq<char>>,
    temporary: Seq<char>,
    path: Seq<char>,
) -> Seq<SaveStepView> {
    (match parent {
        Some(dir) => seq![SaveStepView::CreateDir { path: dir }],
        None => seq![],
    }) + seq![
        SaveStepView::WriteFile { path: temporary },
        SaveStepView::RenameFile { from: temporary, to: path },
    ]
}

/// The steps of saving a configuration to a file. They are taken in order, up to
/// the first that fails. The temporary file is another one than the file to save, if
/// the path names a file at all.
pub fn save_steps(path: &str) -> (steps: Vec<SaveStep>)
    ensures
        path_file_name(path@) is Some ==> path_with_extension(path@, TEMPORARY_EXTENSION@)
            != path@,
        steps@.map_values(|s: SaveStep| s@) == saving(
            path_parent(path@),
            path_with_extension(path@, TEMPORARY_EXTENSION@),
            path@,
        ),
{
    let mut steps: Vec<SaveStep> = Vec::new();
    if let Some(dir) = parent_path(path) {
        steps.push(SaveStep::CreateDir { path: dir });
    }
    proof {
        reveal_strlit("json.tmp");
        assert(TEMPORARY_EXTENSION@[4] == '.');
    }
    let temporary: String = extended_path(path, TEMPORARY_EXTENSION);
    steps.push(SaveStep::WriteFile { path: temporary.clone() });
    steps.push(SaveStep::RenameFile { from: temporary, to: path.to_owned() });
    assert(steps@.map_values(|s: SaveStep| s@) =~= saving(
        path_parent(path@),
        path_with_extension(path@, TEMPORARY_EXTENSION@),
        path@,
    ));
    steps
}

/// What a step makes of the files on disk, where it succeeds. A file that is not
/// there cannot be renamed.
pub open spec fn carried_out(
    step: SaveStepView,
    files: Map<Seq<char>, Seq<char>>,
    contents: Seq<char>,
) -> Map<Seq<char>, Seq<char>> {
    match step {
        SaveStepView::CreateDir { .. } => files,
        SaveStepView::WriteFile { path } => files.insert(path, contents),
        SaveStepView::RenameFile { from, to } => if files.dom().contains(from) {
            files.remove(from).insert(to, files[from])
        } else {
            files
        },
    }
}

/// The files on disk after the first `n` steps.
pub open spec fn after_steps(
    steps: Seq<SaveStepView>,
    n: int,
    files: Map<Seq<char>, Seq<char>>,
    contents: Seq<char>,
) -> Map<Seq<char>, Seq<char>>
    decreases n,
{
    if n <= 0 {
        files
    } else {
        carried_out(steps[n - 1], after_steps(steps, n - 1, files, contents), contents)
    }
}

/// Reading the file after a save gives back what was saved, whether or not there
/// was a file before; no temporary file is left, and no other file is touched.
pub proof fn law_saved_is_read_back(
    parent: Option<Seq<char>>,
    temporary: Seq<char>,
    path: Seq<char>,
    files: Map<Seq<char>, Seq<char>>,
    contents: Seq<char>,
)
    requires
        temporary != path,
    ensures
        ({
            let steps = saving(parent, temporary, path);
            let after = after_steps(steps, steps.len() as int, files, contents);
            after == files.insert(path, contents).remove(temporary)
        }),
{
    reveal_with_fuel(after_steps, 4);
    let steps = saving(parent, temporary, path);
    assert(after_steps(steps, steps.len() as int, files, contents) =~= files.insert(
        path,
        contents,
    ).remove(temporary));
}

/// Saving is atomic. Until the last step is done, the file is as it was before: it
/// holds its old contents whole, or is still missing. Then it holds the new contents
/// whole. So it is wherever saving fails, and while the temporary file is being
/// written, whatever that holds.
pub proof fn law_save_is_atomic(
    parent: Option<Seq<char>>,
    temporary: Seq<char>,
    path: Seq<char>,
    files: Map<Seq<char>, Seq<char>>,
    contents: Seq<char>,
    n: int,
    torn: Seq<char>,
)
    requires
        temporary != path,
        0 <= n <= saving(parent, temporary, path).len(),
    ensures
        ({
            let steps = saving(parent, temporary, path);
            let during = after_steps(steps, n, files, contents);
            let kept = |now: Map<Seq<char>, Seq<char>>|
                now.dom().contains(path) == files.dom().contains(path) && (files.dom().contains(
                    path,
                ) ==> now[path] == files[path]);
            &&& n < steps.len() ==> kept(during)
            &&& n == steps.len() ==> during.dom().contains(path) && during[path] == contents
            &&& n < steps.len() && steps[n] is WriteFile ==> kept(during.insert(temporary, torn))
        }),
{
    reveal_with_fuel(after_steps, 4);
}

/// How reading the configuration file went.
#[derive(Debug)]
pub enum LoadOutcome {
    /// There is a configuration, and this is what checking it gave: the warnings,
    /// or the text of the violation.
    Loaded { config: AppConfig, checked: Result<Vec<String>, String> },
    /// There is no file.
    Missing,
    /// There is a file that is no configuration, or that could not be read, for
    /// the reason given.
    Damaged { reason: String },
}

/// What the application starts with.
#[derive(Debug)]
pub struct Startup {
    pub config: AppConfig,
    pub warnings: Vec<String>,
    /// Whether the configuration is to be written to the file.
    pub create_file: bool,
}

impl LoadOutcome {
    /// The configuration that results.
    pub open spec fn config(self) -> ConfigView {
        match self {
            LoadOutcome::Loaded { config, .. } => config@,
            _ => default_config(),
        }
    }

    /// The warnings that result.
    pub open spec fn warnings(self) -> Seq<Seq<char>> {
        match self {
            LoadOutcome::Loaded { checked, .. } => match checked {
                Ok(warnings) => texts(warnings@),
                Err(violation) => seq![violation@],
            },
            LoadOutcome::Missing => seq![],
            LoadOutcome::Damaged { reason } => seq![
                "конфиг повреждён ("@ + reason@ + "); используются настройки по умолчанию"@,
            ],
        }
    }
}

/// Decides what the application starts with. A configuration is used even where a
/// check finds fault with it. Where there is no file, one is to be created; a damaged
/// file is left alone.
pub fn settle_load(outcome: LoadOutcome) -> (startup: Startup)
    ensures
        startup.config@ == outcome.config(),
        texts(startup.warnings@) == outcome.warnings(),
        startup.create_file <==> outcome is Missing,
{
    let ghost expected: Seq<Seq<char>> = outcome.warnings();
    match outcome {
        LoadOutcome::Loaded { config, checked } => {
            let warnings: Vec<String> = match checked {
                Ok(warnings) => warnings,
                Err(violation) => {
                    let mut warnings: Vec<String> = Vec::new();
                    warnings.push(violation);
                    warnings
                },
            };
            assert(texts(warnings@) =~= expected);
            Startup { config, warnings, create_file: false }
        },
        LoadOutcome::Missing => {
            let warnings: Vec<String> = Vec::new();
            assert(texts(warnings@) =~= expected);
            Startup { config: AppConfig::default(), warnings, create_file: true }
        },
        LoadOutcome::Damaged { reason } => {
            let mut warnings: Vec<String> = Vec::new();
            warnings.push(
                join3(
                    "конфиг повреждён (",
                    reason.as_str(),
                    "); используются настройки по умолчанию",
                ),
            );
            assert(texts(warnings@) =~= expected);
            Startup { config: AppConfig::default(), warnings, create_file: false }
        },
    }
}

/// The warning about a configuration file that could not be created.
pub fn creation_warning(reason: &str) -> (warning: String)
    ensures
        warning@ == "не удалось создать конфиг по умолчанию: "@ + reason@,
{
    "не удалось создать конфиг по умолчанию: ".to_owned().concat(reason)
}

/// Where the file held a configuration, the application starts with exactly that one,
/// whatever the check said. The warnings are those of the check, or the violation that it
/// found, and the file is left alone.
pub proof fn law_loaded_configuration_is_used(
    config: AppConfig,
    checked: Result<Vec<String>, String>,
    startup: Startup,
)
    requires
        call_ensures(settle_load, (LoadOutcome::Loaded { config, checked },), startup),
    ensures
        equal_configs(startup.config, config),
        match checked {
            Ok(warnings) => equal_texts(startup.warnings@, warnings@),
            Err(violation) => startup.warnings@.len() == 1 && startup.warnings@[0]@ == violation@,
        },
        !startup.create_file,
{
    law_configurations_are_their_fields(startup.config, config);
    match checked {
        Ok(warnings) => {
            law_texts_are_what_they_read(startup.warnings@, warnings@);
        },
        Err(_) => {
            assert(texts(startup.warnings@).len() == 1);
            assert(texts(startup.warnings@)[0] == startup.warnings@[0]@);
        },
    }
}

/// Where the file is missing or damaged, the application starts with the configuration
/// of a first start. A missing file is to be created, without a warning; a damaged one is
/// left alone, with one warning that tells the reason.
pub proof fn law_default_is_used_without_a_file(outcome: LoadOutcome, startup: Startup)
    requires
        !(outcome is Loaded),
        call_ensures(settle_load, (outcome,), startup),
    ensures
        startup.config.master_volume.bits == 0x3F4C_CCCD,
        startup.config.allow_overlap,
        !startup.config.auto_start,
        startup.config.mic_output_device is None,
        startup.config.triggers@.len() == 0,
        match outcome {
            LoadOutcome::Damaged { reason } => {
                &&& startup.warnings@.len() == 1
                &&& startup.warnings@[0]@ == "конфиг повреждён ("@ + reason@
                    + "); используются настройки по умолчанию"@
                &&& !startup.create_file
            },
            _ => startup.warnings@.len() == 0 && startup.create_file,
        },
{
    assert(trigger_views(startup.config.triggers@).len() == 0);
    assert(texts(startup.warnings@).len() == startup.warnings@.len());
    if outcome is Damaged {
        assert(texts(startup.warnings@)[0] == startup.warnings@[0]@);
    }
}

/// The steps of saving: the folder of the file is created, if it has one; the contents go
/// to a file beside it, of the same name with the extension `json.tmp`; and that takes
/// the place of the file. There is no other step.
pub proof fn law_saving_replaces_the_file(path: &str, steps: Vec<SaveStep>)
    requires
        call_ensures(save_steps, (path,), steps),
    ensures
        steps@.len() == if path_parent(path@) is Some {
            3int
        } else {
            2int
        },
        path_parent(path@) matches Some(dir) ==> (steps@[0] matches SaveStep::CreateDir {
            path: folder,
        } && folder@ == dir),
        steps@[steps@.len() - 2] matches SaveStep::WriteFile { path: written } && written@
            == path_with_extension(path@, "json.tmp"@),
        steps@[steps@.len() - 1] matches SaveStep::RenameFile { from, to } && from@
            == path_with_extension(path@, "json.tmp"@) && to@ == path@,
        path_file_name(path@) is Some ==> path_with_extension(path@, "json.tmp"@) != path@,
{
    let views = steps@.map_values(|s: SaveStep| s@);
    assert(views.len() == steps@.len());
    assert forall|i: int| 0 <= i < steps@.len() implies (#[trigger] steps@[i])@ == views[i] by {}
    if path_parent(path@) is Some {
        assert(steps@[0]@ == views[0]);
    }
    let n = steps@.len();
    assert(steps@[n - 2]@ == views[n - 2]);
    assert(steps@[n - 1]@ == views[n - 1]);
}

/// The configuration is kept in the folder `KeySoundTrigger`, as `config.json`. The
/// folder is in that for application data, wherever the system names one; else beside
/// the executable, if that is known; else here.
pub proof fn law_place_of_the_configuration(
    appdata: Option<&String>,
    exe: Option<&String>,
    dir: String,
    path: String,
)
    requires
        call_ensures(config_dir, (appdata, exe), dir),
        call_ensures(config_path, (appdata, exe), path),
    ensures
        appdata matches Some(base) ==> dir@ == joined_path(base@, "KeySoundTrigger"@),
        appdata is None ==> (exe matches Some(program) ==> dir@ == path_beside(
            program@,
            "KeySoundTrigger"@,
        )),
        appdata is None && exe is None ==> dir@ == "KeySoundTrigger"@,
        path@ == joined_path(dir@, "config.json"@),
{
}

/// The warning about a file that could not be created ends in the reason.
pub proof fn law_creation_warning_tells_the_reason(reason: &str, warning: String)
    requires
        call_ensures(creation_warning, (reason,), warning),
    ensures
        warning@ == "не удалось создать конфиг по умолчанию: "@ + reason@,
{
}

} // verus!
