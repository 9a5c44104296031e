//! Installing a virtual audio cable: unpacking the driver pack and judging how the
//! installer went.
use crate::config::optional_text;
use crate::paths::{last_component, path_file_name};
use crate::text::{decimal, decimal_text, eq_ignoring_ascii_case, join3, same_ignoring_ascii_case};
use std::io::Cursor;
use vstd::prelude::*;
use zip::ZipArchive;

verus! {

/// The driver pack.
pub const DRIVER_PACK_URL: &'static str = "https://download.vb-audio.com/Download_CABLE/VBCABLE_Driver_Pack45.zip";

/// The installer in the driver pack, whatever the case of its letters.
pub const INSTALLER_NAME: &'static str = "VBCABLE_Setup_x64.exe";

/// What the installer is started with: install, and show nothing.
pub const INSTALLER_FLAGS: &'static str = "-i -h";

/// An archive over a reader; only carried through.
#[verifier::external_type_specification]
#[verifier::external_body]
#[verifier::reject_recursive_types(R)]
pub struct ExZipArchive<R>(ZipArchive<R>);

/// A reader over bytes in memory; only carried through.
#[verifier::external_type_specification]
#[verifier::external_body]
#[verifier::reject_recursive_types(T)]
pub struct ExCursor<T>(Cursor<T>);

/// An entry of an archive, as the archive tells it.
#[derive(Debug)]
pub struct ArchiveEntry {
    pub is_dir: bool,
    /// The path of the entry, where it is one below the folder unpacked to.
    pub enclosed_name: Option<String>,
    /// The unpacked contents, as far as they are sound.
    pub contents: Vec<u8>,
    /// Why they end too early, where they do.
    pub fault: Option<String>,
}

/// What an [`ArchiveEntry`] tells: its contents where they are sound, else why they
/// are not. How much of unsound contents was unpacked is not part of it.
pub struct EntryView {
    pub is_dir: bool,
    pub enclosed_name: Option<Seq<char>>,
    pub contents: Result<Seq<u8>, Seq<char>>,
}

impl View for ArchiveEntry {
    type V = EntryView;

    open spec fn view(&self) -> EntryView {
        EntryView {
            is_dir: self.is_dir,
            enclosed_name: optional_text(self.enclosed_name),
            contents: match self.fault {
                None => Ok(self.contents@),
                Some(reason) => Err(reason@),
            },
        }
    }
}

/// The bytes that an archive was opened on.
pub uninterp spec fn archive_bytes(archive: ZipArchive<Cursor<Vec<u8>>>) -> Seq<u8>;

/// Why `zip::ZipArchive::new` takes bytes for no archive, where it does.
pub uninterp spec fn archive_fault(bytes: Seq<u8>) -> Option<Seq<char>>;

/// The number of entries that `zip::ZipArchive::len` counts in the archive in these
/// bytes.
pub uninterp spec fn archive_len(bytes: Seq<u8>) -> nat;

/// What `zip::ZipArchive::by_index` finds at an index of the archive in these bytes,
/// or why it finds nothing.
pub uninterp spec fn archive_entry(bytes: Seq<u8>, index: int) -> Result<EntryView, Seq<char>>;

/// Calls `zip::ZipArchive::new` on the bytes. Whether they are an archive, and the
/// reason why not, is named [`archive_fault`]; an archive remembers its bytes.
#[verifier::external_body]
fn open_archive(bytes: &[u8]) -> (opened: Result<ZipArchive<Cursor<Vec<u8>>>, String>)
    ensures
        match opened {
            Ok(archive) => archive_fault(bytes@) is None && archive_bytes(archive) == bytes@,
            Err(reason) => archive_fault(bytes@) == Some(reason@),
        },
{
    ZipArchive::new(Cursor::new(bytes.to_vec())).map_err(|e| e.to_string())
}

/// Calls `zip::ZipArchive::len`, whose result is named [`archive_len`].
#[verifier::external_body]
fn entry_count(archive: &ZipArchive<Cursor<Vec<u8>>>) -> (count: usize)
    ensures
        count == archive_len(archive_bytes(*archive)),
{
    archive.len()
}

/// Calls `zip::ZipArchive::by_index` and copies the entry to its end with
/// `std::io::copy`. What is found is named [`archive_entry`]; the archive stays as it
/// is. Nothing is said of the bytes that were copied before a fault: they depend on
/// how many are asked for at a time.
#[verifier::external_body]
fn read_entry(archive: &mut ZipArchive<Cursor<Vec<u8>>>, index: usize) -> (read: Result<
    ArchiveEntry,
    String,
>)
    ensures
        archive_bytes(*final(archive)) == archive_bytes(*old(archive)),
        match read {
            Ok(entry) => archive_entry(archive_bytes(*old(archive)), index as int) == Ok::<
                EntryView,
                Seq<char>,
            >(entry@),
            Err(reason) => archive_entry(archive_bytes(*old(archive)), index as int) == Err::<
                EntryView,
                Seq<char>,
            >(reason@),
        },
{
    let mut file = archive.by_index(index).map_err(|e| e.to_string())?;
    let mut copy = Cursor::new(Vec::new());
    let copied = std::io::copy(&mut file, &mut copy);
    Ok(
        ArchiveEntry {
            is_dir: file.is_dir(),
            enclosed_name: file.enclosed_name().map(|p| p.to_string_lossy().into_owned()),
            contents: copy.into_inner(),
            fault: copied.err().map(|e| e.to_string()),
        },
    )
}

/// Why the cable could not be installed.
#[derive(Debug, PartialEq, Eq)]
pub enum SetupError {
    /// The driver pack could not be downloaded.
    Download { reason: String },
    /// The download broke off.
    ReadDownload { reason: String },
    /// There is no folder to unpack to.
    TemporaryFolder { reason: String },
    /// The driver pack is no archive.
    DamagedPack { reason: String },
    /// An entry of the driver pack could not be found.
    UnreadableEntry { reason: String },
    /// A file could not be created.
    CreateFile { file_name: String, reason: String },
    /// A file could not be unpacked.
    UnpackFile { file_name: String, reason: String },
    /// There is no installer in the driver pack.
    NoInstaller,
    /// The installer was not started.
    NotStarted,
    /// The installer ended with this code.
    ExitCode { code: u32 },
}

impl SetupError {
    /// The text of the error.
    pub open spec fn shown(self) -> Seq<char> {
        match self {
            SetupError::Download { reason } => {
                "не удалось скачать драйвер ("@ + DRIVER_PACK_URL@ + "): "@ + reason@
            },
            SetupError::ReadDownload { reason } => {
                "ошибка чтения загруженного файла: "@ + reason@
            },
            SetupError::TemporaryFolder { reason } => {
                "не удалось создать временную папку: "@ + reason@
            },
            SetupError::DamagedPack { reason } => "повреждённый архив драйвера: "@ + reason@,
            SetupError::UnreadableEntry { reason } => "ошибка чтения архива: "@ + reason@,
            SetupError::CreateFile { file_name, reason } => {
                "не удалось записать '"@ + file_name@ + "': "@ + reason@
            },
            SetupError::UnpackFile { file_name, reason } => {
                "не удалось распаковать '"@ + file_name@ + "': "@ + reason@
            },
            SetupError::NoInstaller => {
                "в архиве драйвера не найден VBCABLE_Setup_x64.exe (изменился формат пака у VB-Audio?)"@
            },
            SetupError::NotStarted => {
                "не удалось запустить установщик (запрос UAC отклонён?)"@
            },
            SetupError::ExitCode { code } => {
                "установщик завершился с кодом "@ + decimal(code as nat)
            },
        }
    }

    /// The text of the error.
    pub fn message(&self) -> (text: String)
        ensures
            text@ == self.shown(),
    {
        match self {
            SetupError::Download { reason } => {
                join3("не удалось скачать драйвер (", DRIVER_PACK_URL, "): ").concat(
                    reason.as_str(),
                )
            },
            SetupError::ReadDownload { reason } => {
                "ошибка чтения загруженного файла: ".to_owned().concat(reason.as_str())
            },
            SetupError::TemporaryFolder { reason } => {
                "не удалось создать временную папку: ".to_owned().concat(reason.as_str())
            },
            SetupError::DamagedPack { reason } => {
                "повреждённый архив драйвера: ".to_owned().concat(reason.as_str())
            },
            SetupError::UnreadableEntry { reason } => {
                "ошибка чтения архива: ".to_owned().concat(reason.as_str())
            },
            SetupError::CreateFile { file_name, reason } => {
                join3("не удалось записать '", file_name.as_str(), "': ").concat(reason.as_str())
            },
            SetupError::UnpackFile { file_name, reason } => {
                join3("не удалось распаковать '", file_name.as_str(), "': ").concat(
                    reason.as_str(),
                )
            },
            SetupError::NoInstaller => {
                "в архиве драйвера не найден VBCABLE_Setup_x64.exe (изменился формат пака у VB-Audio?)".to_owned()
            },
            SetupError::NotStarted => {
                "не удалось запустить установщик (запрос UAC отклонён?)".to_owned()
            },
            SetupError::ExitCode { code } => {
                "установщик завершился с кодом ".to_owned().concat(decimal_text(*code).as_str())
            },
        }
    }
}

/// A file of the driver pack.
#[derive(Debug, PartialEq, Eq)]
pub struct PackFile {
    pub file_name: String,
    pub contents: Vec<u8>,
}

/// What unpacking has come to.
#[derive(Debug)]
pub struct Extraction {
    /// The files to write, in order, all into one folder.
    pub files: Vec<PackFile>,
    /// The name of the installer among them, or what went wrong after the last of
    /// them.
    pub outcome: Result<String, SetupError>,
}

/// The state of unpacking: the files so far, the installer among them, and the text
/// of what went wrong.
pub struct UnpackView {
    pub files: Seq<(Seq<char>, Seq<u8>)>,
    pub installer: Option<Seq<char>>,
    pub failure: Option<Seq<char>>,
}

/// What a list of files holds.
pub open spec fn file_views(files: Seq<PackFile>) -> Seq<(Seq<char>, Seq<u8>)> {
    files.map_values(|f: PackFile| (f.file_name@, f.contents@))
}

impl UnpackView {
    /// Before the first entry.
    pub open spec fn start() -> UnpackView {
        UnpackView { files: seq![], installer: None, failure: None }
    }

    /// After an entry: folders, and entries without a file name, are passed over. A
    /// file whose contents have a fault is kept as far as they go, and ends the
    /// unpacking. The last sound file with the name of the installer is the installer.
    pub open spec fn with_file(
        self,
        is_dir: bool,
        file_name: Option<Seq<char>>,
        contents: Seq<u8>,
        fault: Option<Seq<char>>,
    ) -> UnpackView {
        if self.failure is Some || is_dir {
            self
        } else {
            match (file_name, fault) {
                (None, _) => self,
                (Some(name), Some(reason)) => UnpackView {
                    files: self.files.push((name, contents)),
                    failure: Some("не удалось распаковать '"@ + name + "': "@ + reason),
                    ..self
                },
                (Some(name), None) => UnpackView {
                    files: self.files.push((name, contents)),
                    installer: if same_ignoring_ascii_case(name, INSTALLER_NAME@) {
                        Some(name)
                    } else {
                        self.installer
                    },
                    ..self
                },
            }
        }
    }

    /// After an entry that could not be found, for the reason given.
    pub open spec fn with_unreadable(self, reason: Seq<char>) -> UnpackView {
        if self.failure is Some {
            self
        } else {
            UnpackView { failure: Some("ошибка чтения архива: "@ + reason), ..self }
        }
    }

    /// After an entry of an archive. Where its contents have a fault, `partial` is what
    /// was unpacked of them.
    pub open spec fn with_entry(
        self,
        entry: Result<EntryView, Seq<char>>,
        partial: Seq<u8>,
    ) -> UnpackView {
        match entry {
            Ok(found) => self.with_file(
                found.is_dir,
                match found.enclosed_name {
                    Some(path) => path_file_name(path),
                    None => None,
                },
                match found.contents {
                    Ok(contents) => contents,
                    Err(_) => partial,
                },
                match found.contents {
                    Ok(_) => None,
                    Err(reason) => Some(reason),
                },
            ),
            Err(reason) => self.with_unreadable(reason),
        }
    }

    /// After the first `n` entries of the archive in these bytes. Unpacking ends with
    /// the first file whose contents have a fault; `partial` is what was unpacked of
    /// them.
    pub open spec fn after_entries(bytes: Seq<u8>, n: int, partial: Seq<u8>) -> UnpackView
        decreases n,
    {
        if n <= 0 {
            UnpackView::start()
        } else {
            UnpackView::after_entries(bytes, n - 1, partial).with_entry(
                archive_entry(bytes, n - 1),
                partial,
            )
        }
    }

    /// Whether unpacking has come to this.
    pub open spec fn yields(self, extraction: Extraction) -> bool {
        &&& file_views(extraction.files@) == self.files
        &&& match extraction.outcome {
            Ok(name) => self.failure is None && self.installer == Some(name@),
            Err(error) => match self.failure {
                Some(text) => error.shown() == text,
                None => self.installer is None && error is NoInstaller,
            },
        }
    }
}

/// Unpacking, entry by entry.
pub struct Unpacking {
    files: Vec<PackFile>,
    installer: Option<String>,
    failure: Option<SetupError>,
}

impl View for Unpacking {
    type V = UnpackView;

    closed spec fn view(&self) -> UnpackView {
        UnpackView {
            files: file_views(self.files@),
            installer: optional_text(self.installer),
            failure: match self.failure {
                Some(error) => Some(error.shown()),
                None => None,
            },
        }
    }
}

impl Unpacking {
    /// Before the first entry.
    pub fn new() -> (unpacking: Unpacking)
        ensures
            unpacking@ == UnpackView::start(),
    {
        let unpacking = Unpacking { files: Vec::new(), installer: None, failure: None };
        assert(unpacking@.files =~= UnpackView::start().files);
        unpacking
    }

    /// Takes an entry: its contents, as far as they are sound, and why they end too
    /// early, where they do.
    pub fn file(
        &mut self,
        is_dir: bool,
        file_name: Option<String>,
        contents: Vec<u8>,
        fault: Option<String>,
    )
        ensures
            final(self)@ == old(self)@.with_file(
                is_dir,
                optional_text(file_name),
                contents@,
                optional_text(fault),
            ),
    {
        if self.failure.is_some() || is_dir {
            return;
        }
        match file_name {
            None => {},
            Some(name) => {
                let ghost shown: Seq<char> = name@;
                let ghost data: Seq<u8> = contents@;
                self.files.push(PackFile { file_name: name.clone(), contents });
                assert(file_views(self.files@) =~= old(self)@.files.push((shown, data)));
                match fault {
                    Some(reason) => {
                        self.failure = Some(SetupError::UnpackFile { file_name: name, reason });
                    },
                    None => {
                        if eq_ignoring_ascii_case(name.as_str(), INSTALLER_NAME) {
                            self.installer = Some(name);
                        }
                    },
                }
            },
        }
    }

    /// Takes an entry that could not be found.
    pub fn unreadable(&mut self, reason: String)
        ensures
            final(self)@ == old(self)@.with_unreadable(reason@),
    {
        if self.failure.is_none() {
            self.failure = Some(SetupError::UnreadableEntry { reason });
        }
    }

    /// What unpacking has come to. Without an installer it has failed.
    pub fn finish(self) -> (extraction: Extraction)
        ensures
            self@.yields(extraction),
    {
        let outcome: Result<String, SetupError> = match self.failure {
            Some(error) => Err(error),
            None => match self.installer {
                Some(name) => Ok(name),
                None => Err(SetupError::NoInstaller),
            },
        };
        Extraction { files: self.files, outcome }
    }
}

/// Unpacks the driver pack. The installer needs the files beside it, so all are
/// unpacked, each under its bare name. A file whose contents have a fault is kept as
/// far as they could be unpacked.
pub fn extract_installer(zip_bytes: &[u8]) -> (extraction: Extraction)
    ensures
        match archive_fault(zip_bytes@) {
            Some(reason) => {
                &&& extraction.files@.len() == 0
                &&& extraction.outcome matches Err(SetupError::DamagedPack { reason: told })
                &&& told@ == reason
            },
            None => exists|partial: Seq<u8>|
                (#[trigger] UnpackView::after_entries(
                    zip_bytes@,
                    archive_len(zip_bytes@) as int,
                    partial,
                )).yields(extraction),
        },
{
    let mut archive = match open_archive(zip_bytes) {
        Ok(archive) => archive,
        Err(reason) => {
            return Extraction {
                files: Vec::new(),
                outcome: Err(SetupError::DamagedPack { reason }),
            };
        },
    };
    let count: usize = entry_count(&archive);
    let mut unpacking: Unpacking = Unpacking::new();
    let ghost mut partial: Seq<u8> = seq![];
    let mut i: usize = 0;
    while i < count && unpacking.failure.is_none()
        invariant
            i <= count,
            count == archive_len(zip_bytes@),
            archive_bytes(archive) == zip_bytes@,
            unpacking@ == UnpackView::after_entries(zip_bytes@, i as int, partial),
        decreases count - i,
    {
        match read_entry(&mut archive, i) {
            Ok(entry) => {
                proof {
                    lemma_partial_is_of_the_failure(
                        zip_bytes@,
                        i as int,
                        partial,
                        entry.contents@,
                    );
                    partial = entry.contents@;
                }
                let file_name: Option<String> = match &entry.enclosed_name {
                    Some(path) => last_component(path.as_str()),
                    None => None,
                };
                unpacking.file(entry.is_dir, file_name, entry.contents, entry.fault);
            },
            Err(reason) => {
                unpacking.unreadable(reason);
            },
        }
        i += 1;
    }
    proof {
        lemma_failure_ends_unpacking(zip_bytes@, i as int, count as int, partial);
    }
    unpacking.finish()
}

/// Until something goes wrong there are no unsound contents.
proof fn lemma_partial_is_of_the_failure(bytes: Seq<u8>, n: int, a: Seq<u8>, b: Seq<u8>)
    requires
        UnpackView::after_entries(bytes, n, a).failure is None,
    ensures
        UnpackView::after_entries(bytes, n, a) == UnpackView::after_entries(bytes, n, b),
    decreases n,
{
    if n > 0 {
        lemma_partial_is_of_the_failure(bytes, n - 1, a, b);
    }
}

proof fn lemma_failure_ends_unpacking(bytes: Seq<u8>, i: int, n: int, partial: Seq<u8>)
    requires
        0 <= i <= n,
        i < n ==> UnpackView::after_entries(bytes, i, partial).failure is Some,
    ensures
        UnpackView::after_entries(bytes, n, partial) == UnpackView::after_entries(
            bytes,
            i,
            partial,
        ),
    decreases n - i,
{
    if i < n {
        lemma_failure_ends_unpacking(bytes, i, n - 1, partial);
    }
}

/// How starting the installer went.
#[derive(Clone, Copy, Debug, PartialEq, Eq)]
pub enum Launch {
    /// It was not started; the user may have refused.
    Refused,
    /// It was started, and there is no process to wait for.
    Detached,
    /// It was started and has ended with this code.
    Exited { code: u32 },
}

/// Whether the installer did its work.
pub fn launch_result(launch: Launch) -> (result: Result<(), SetupError>)
    ensures
        match launch {
            Launch::Refused => result == Err::<(), SetupError>(SetupError::NotStarted),
            Launch::Detached => result == Ok::<(), SetupError>(()),
            Launch::Exited { code } => if code == 0 {
                result == Ok::<(), SetupError>(())
            } else {
                result == Err::<(), SetupError>(SetupError::ExitCode { code })
            },
        },
{
    match launch {
        Launch::Refused => Err(SetupError::NotStarted),
        Launch::Detached => Ok(()),
        Launch::Exited { code } => {
            if code == 0 {
                Ok(())
            } else {
                Err(SetupError::ExitCode { code })
            }
        },
    }
}

/// The output device to make the default again: the one before the installation,
/// where it is known and the installation succeeded. The system may have moved the
/// default to the new cable.
pub fn device_to_restore(previous: Option<String>, installed: &Result<(), SetupError>) -> (device:
    Option<String>)
    ensures
        device == if *installed is Ok {
            previous
        } else {
            None
        },
{
    match installed {
        Ok(()) => previous,
        Err(_) => None,
    }
}

/// Whether an archive entry is unpacked to a file of this name: it is no folder and
/// its path, below the folder unpacked to, ends in the name.
pub open spec fn unpacks_to(entry: Result<EntryView, Seq<char>>, name: Seq<char>) -> bool {
    &&& entry matches Ok(found)
    &&& !found.is_dir
    &&& found.enclosed_name matches Some(path)
    &&& path_file_name(path) == Some(name)
}

/// Nothing is written but what the archive holds below its own folder: each file is
/// an entry, under its bare name and with its contents, or with what was unpacked of
/// them where they have a fault.
pub proof fn law_files_are_archive_files(bytes: Seq<u8>, n: int, partial: Seq<u8>, i: int)
    requires
        0 <= i < UnpackView::after_entries(bytes, n, partial).files.len(),
    ensures
        exists|k: int|
            0 <= k < n && #[trigger] unpacks_to(
                archive_entry(bytes, k),
                UnpackView::after_entries(bytes, n, partial).files[i].0,
            ) && UnpackView::after_entries(bytes, n, partial).files[i].1 == (match archive_entry(
                bytes,
                k,
            )->Ok_0.contents {
                Ok(contents) => contents,
                Err(_) => partial,
            }),
    decreases n,
{
    if n > 0 {
        let before = UnpackView::after_entries(bytes, n - 1, partial);
        let after = UnpackView::after_entries(bytes, n, partial);
        if i < before.files.len() {
            law_files_are_archive_files(bytes, n - 1, partial, i);
            assert(after.files[i] == before.files[i]);
        } else {
            assert(unpacks_to(archive_entry(bytes, n - 1), after.files[i].0));
        }
    }
}

/// Where the driver pack is unpacked without fault, the installer that is named is
/// one of the files, and goes by its name whatever the case of the letters.
pub proof fn law_installer_is_among_files(bytes: Seq<u8>, n: int, partial: Seq<u8>)
    ensures
        UnpackView::after_entries(bytes, n, partial).installer matches Some(name) ==> {
            &&& same_ignoring_ascii_case(name, INSTALLER_NAME@)
            &&& exists|i: int|
                0 <= i < UnpackView::after_entries(bytes, n, partial).files.len()
                    && #[trigger] UnpackView::after_entries(bytes, n, partial).files[i].0 == name
        },
    decreases n,
{
    if n > 0 {
        law_installer_is_among_files(bytes, n - 1, partial);
        let before = UnpackView::after_entries(bytes, n - 1, partial);
        let after = UnpackView::after_entries(bytes, n, partial);
        if let Some(name) = after.installer {
            if before.installer == Some(name) {
                let i = choose|i: int|
                    0 <= i < before.files.len() && #[trigger] before.files[i].0 == name;
                assert(after.files[i].0 == name);
            } else {
                assert(after.files[after.files.len() - 1].0 == name);
            }
        }
    }
}

/// Whether an archive entry is a file to unpack: no folder, with a file name below the
/// folder unpacked to.
pub open spec fn is_file(entry: Result<EntryView, Seq<char>>) -> bool {
    &&& entry matches Ok(found)
    &&& !found.is_dir
    &&& found.enclosed_name matches Some(path)
    &&& path_file_name(path) is Some
}

/// Whether unpacking cannot go past an entry: it cannot be read, or is a file whose
/// contents have a fault.
pub open spec fn faulty(entry: Result<EntryView, Seq<char>>) -> bool {
    entry is Err || (is_file(entry) && entry->Ok_0.contents is Err)
}

/// Whether these are the files among the first `n` entries of an archive: all of them,
/// each once and in order, and nothing else.
pub open spec fn lists_files(bytes: Seq<u8>, n: int, at: Seq<int>) -> bool {
    &&& forall|i: int, j: int| 0 <= i < j < at.len() ==> #[trigger] at[i] < #[trigger] at[j]
    &&& forall|i: int|
        0 <= i < at.len() ==> 0 <= #[trigger] at[i] < n && is_file(archive_entry(bytes, at[i]))
    &&& forall|k: int| 0 <= k < n && is_file(#[trigger] archive_entry(bytes, k)) ==> at.contains(k)
}

/// Whether a file is an entry of the archive: under its bare name and with its contents.
pub open spec fn is_entry(
    name: Seq<char>,
    contents: Seq<u8>,
    entry: Result<EntryView, Seq<char>>,
) -> bool {
    unpacks_to(entry, name) && entry->Ok_0.contents == Ok::<Seq<u8>, Seq<char>>(contents)
}

spec fn file_indices(bytes: Seq<u8>, n: int) -> Seq<int>
    decreases n,
{
    if n <= 0 {
        seq![]
    } else if is_file(archive_entry(bytes, n - 1)) {
        file_indices(bytes, n - 1).push(n - 1)
    } else {
        file_indices(bytes, n - 1)
    }
}

proof fn lemma_file_indices(bytes: Seq<u8>, n: int)
    requires
        0 <= n,
    ensures
        lists_files(bytes, n, file_indices(bytes, n)),
    decreases n,
{
    if n > 0 {
        lemma_file_indices(bytes, n - 1);
        let before = file_indices(bytes, n - 1);
        let at = file_indices(bytes, n);
        assert forall|k: int|
            0 <= k < n && is_file(#[trigger] archive_entry(bytes, k)) implies at.contains(k) by {
            if k < n - 1 {
                let i = choose|i: int| 0 <= i < before.len() && before[i] == k;
                assert(at[i] == k);
            } else {
                assert(at[at.len() - 1] == k);
            }
        }
    }
}

/// Whether the installer that was found, if any, is the last of the files that go by the
/// name of the installer.
pub open spec fn is_last_installer(
    installer: Option<Seq<char>>,
    files: Seq<(Seq<char>, Seq<u8>)>,
) -> bool {
    match installer {
        Some(name) => exists|i: int|
            {
                &&& 0 <= i < files.len()
                &&& (#[trigger] files[i]).0 == name
                &&& same_ignoring_ascii_case(name, "VBCABLE_Setup_x64.exe"@)
                &&& forall|j: int|
                    i < j < files.len() ==> !same_ignoring_ascii_case(
                        (#[trigger] files[j]).0,
                        "VBCABLE_Setup_x64.exe"@,
                    )
            },
        None => forall|j: int|
            0 <= j < files.len() ==> !same_ignoring_ascii_case(
                (#[trigger] files[j]).0,
                "VBCABLE_Setup_x64.exe"@,
            ),
    }
}

proof fn lemma_sound_entries(bytes: Seq<u8>, n: int, partial: Seq<u8>)
    requires
        0 <= n,
        forall|k: int| 0 <= k < n ==> !faulty(#[trigger] archive_entry(bytes, k)),
    ensures
        ({
            let state = UnpackView::after_entries(bytes, n, partial);
            let at = file_indices(bytes, n);
            &&& state.failure is None
            &&& state.files.len() == at.len()
            &&& forall|i: int|
                0 <= i < at.len() ==> is_entry(
                    (#[trigger] state.files[i]).0,
                    state.files[i].1,
                    archive_entry(bytes, at[i]),
                )
            &&& is_last_installer(state.installer, state.files)
        }),
    decreases n,
{
    if n > 0 {
        lemma_sound_entries(bytes, n - 1, partial);
        let before = UnpackView::after_entries(bytes, n - 1, partial);
        let after = UnpackView::after_entries(bytes, n, partial);
        let entry = archive_entry(bytes, n - 1);
        assert(!faulty(entry));
        if is_file(entry) {
            let last = before.files.len() as int;
            assert(after.files[last].0 == path_file_name(entry->Ok_0.enclosed_name->0)->0);
            assert forall|i: int| 0 <= i < last implies #[trigger] after.files[i]
                == before.files[i] by {}
            if same_ignoring_ascii_case(after.files[last].0, "VBCABLE_Setup_x64.exe"@) {
                assert(after.installer == Some(after.files[last].0));
            } else if let Some(name) = before.installer {
                let i = choose|i: int|
                    {
                        &&& 0 <= i < before.files.len()
                        &&& (#[trigger] before.files[i]).0 == name
                        &&& same_ignoring_ascii_case(name, "VBCABLE_Setup_x64.exe"@)
                        &&& forall|j: int|
                            i < j < before.files.len() ==> !same_ignoring_ascii_case(
                                (#[trigger] before.files[j]).0,
                                "VBCABLE_Setup_x64.exe"@,
                            )
                    };
                assert(after.files[i].0 == name);
                assert forall|j: int| i < j < after.files.len() implies !same_ignoring_ascii_case(
                    (#[trigger] after.files[j]).0,
                    "VBCABLE_Setup_x64.exe"@,
                ) by {
                    if j < last {
                        assert(after.files[j] == before.files[j]);
                    }
                }
            } else {
                assert forall|j: int| 0 <= j < after.files.len() implies !same_ignoring_ascii_case(
                    (#[trigger] after.files[j]).0,
                    "VBCABLE_Setup_x64.exe"@,
                ) by {
                    if j < last {
                        assert(after.files[j] == before.files[j]);
                    }
                }
            }
        }
    }
}

proof fn lemma_file_views(files: Seq<PackFile>)
    ensures
        file_views(files).len() == files.len(),
        forall|i: int|
            0 <= i < files.len() ==> file_views(files)[i] == (
                (#[trigger] files[i]).file_name@,
                files[i].contents@,
            ),
{
}

/// A driver pack without a fault is unpacked whole: the files are all files of the
/// archive, each under its bare name and with its contents, in the order of the archive,
/// and no others. If any of them goes by the name of the installer, whatever the case of
/// its letters, the last of these is the installer; otherwise it is reported missing.
pub proof fn law_sound_pack_is_unpacked_whole(zip_bytes: &[u8], extraction: Extraction)
    requires
        call_ensures(extract_installer, (zip_bytes,), extraction),
        archive_fault(zip_bytes@) is None,
        forall|k: int|
            0 <= k < archive_len(zip_bytes@) ==> !faulty(#[trigger] archive_entry(zip_bytes@, k)),
    ensures
        exists|at: Seq<int>|
            {
                &&& #[trigger] lists_files(zip_bytes@, archive_len(zip_bytes@) as int, at)
                &&& extraction.files@.len() == at.len()
                &&& forall|i: int|
                    0 <= i < at.len() ==> is_entry(
                        (#[trigger] extraction.files@[i]).file_name@,
                        extraction.files@[i].contents@,
                        archive_entry(zip_bytes@, at[i]),
                    )
            },
        match extraction.outcome {
            Ok(name) => is_last_installer(Some(name@), file_views(extraction.files@)),
            Err(error) => {
                &&& error is NoInstaller
                &&& forall|j: int|
                    0 <= j < extraction.files@.len() ==> !same_ignoring_ascii_case(
                        (#[trigger] extraction.files@[j]).file_name@,
                        "VBCABLE_Setup_x64.exe"@,
                    )
            },
        },
{
    let n = archive_len(zip_bytes@) as int;
    let partial = choose|partial: Seq<u8>|
        (#[trigger] UnpackView::after_entries(zip_bytes@, n, partial)).yields(extraction);
    let state = UnpackView::after_entries(zip_bytes@, n, partial);
    lemma_sound_entries(zip_bytes@, n, partial);
    lemma_file_indices(zip_bytes@, n);
    lemma_file_views(extraction.files@);
    let at = file_indices(zip_bytes@, n);
    assert forall|i: int| 0 <= i < at.len() implies is_entry(
        (#[trigger] extraction.files@[i]).file_name@,
        extraction.files@[i].contents@,
        archive_entry(zip_bytes@, at[i]),
    ) by {
        assert(state.files[i] == file_views(extraction.files@)[i]);
    }
    assert(lists_files(zip_bytes@, n, at));
    if extraction.outcome is Err {
        assert forall|j: int| 0 <= j < extraction.files@.len() implies !same_ignoring_ascii_case(
            (#[trigger] extraction.files@[j]).file_name@,
            "VBCABLE_Setup_x64.exe"@,
        ) by {
            assert(state.files[j].0 == extraction.files@[j].file_name@);
        }
    }
}

/// Unpacking ends at the first fault, at entry `m`: the files before it are all
/// unpacked, as ever; a file whose contents have the fault follows them under its name;
/// nothing comes after; and the error tells the reason of that fault.
pub proof fn law_first_fault_ends_unpacking(
    zip_bytes: &[u8],
    extraction: Extraction,
    m: int,
    text: String,
)
    requires
        call_ensures(extract_installer, (zip_bytes,), extraction),
        archive_fault(zip_bytes@) is None,
        0 <= m < archive_len(zip_bytes@),
        forall|k: int| 0 <= k < m ==> !faulty(#[trigger] archive_entry(zip_bytes@, k)),
        faulty(archive_entry(zip_bytes@, m)),
        extraction.outcome matches Err(error) ==> call_ensures(
            SetupError::message,
            (&error,),
            text,
        ),
    ensures
        exists|at: Seq<int>|
            {
                &&& #[trigger] lists_files(zip_bytes@, m, at)
                &&& extraction.files@.len() == at.len() + if archive_entry(
                    zip_bytes@,
                    m,
                ) is Ok {
                    1int
                } else {
                    0int
                }
                &&& forall|i: int|
                    0 <= i < at.len() ==> is_entry(
                        (#[trigger] extraction.files@[i]).file_name@,
                        extraction.files@[i].contents@,
                        archive_entry(zip_bytes@, at[i]),
                    )
            },
        extraction.outcome is Err,
        match archive_entry(zip_bytes@, m) {
            Ok(entry) => {
                let file = extraction.files@[extraction.files@.len() - 1];
                &&& unpacks_to(archive_entry(zip_bytes@, m), file.file_name@)
                &&& text@ == "не удалось распаковать '"@ + file.file_name@ + "': "@
                    + entry.contents->Err_0
            },
            Err(reason) => text@ == "ошибка чтения архива: "@ + reason,
        },
{
    let n = archive_len(zip_bytes@) as int;
    let partial = choose|partial: Seq<u8>|
        (#[trigger] UnpackView::after_entries(zip_bytes@, n, partial)).yields(extraction);
    let before = UnpackView::after_entries(zip_bytes@, m, partial);
    let state = UnpackView::after_entries(zip_bytes@, m + 1, partial);
    lemma_sound_entries(zip_bytes@, m, partial);
    lemma_file_indices(zip_bytes@, m);
    lemma_failure_ends_unpacking(zip_bytes@, m + 1, n, partial);
    lemma_file_views(extraction.files@);
    let at = file_indices(zip_bytes@, m);
    assert(state.yields(extraction));
    assert(state.failure is Some);
    assert forall|i: int| 0 <= i < at.len() implies is_entry(
        (#[trigger] extraction.files@[i]).file_name@,
        extraction.files@[i].contents@,
        archive_entry(zip_bytes@, at[i]),
    ) by {
        assert(state.files[i] == file_views(extraction.files@)[i]);
        assert(state.files[i] == before.files[i]);
    }
    assert(lists_files(zip_bytes@, m, at));
    if archive_entry(zip_bytes@, m) is Ok {
        let last = extraction.files@.len() - 1;
        assert(state.files[last] == file_views(extraction.files@)[last]);
    }
}

/// Bytes that are no archive give no files, and the error tells why.
pub proof fn law_damaged_pack_is_reported(
    zip_bytes: &[u8],
    extraction: Extraction,
    reason: Seq<char>,
)
    requires
        call_ensures(extract_installer, (zip_bytes,), extraction),
        archive_fault(zip_bytes@) == Some(reason),
    ensures
        extraction.files@.len() == 0,
        extraction.outcome matches Err(SetupError::DamagedPack { reason: told }) && told@ == reason,
{
}

/// Unpacking takes every file that comes, under its name and with its contents, after
/// those before it, until something has gone wrong. A folder, or an entry without a file
/// name, changes nothing, and neither does anything after a failure.
pub proof fn law_every_file_is_taken(
    unpacking: &mut Unpacking,
    is_dir: bool,
    file_name: Option<String>,
    contents: Vec<u8>,
    fault: Option<String>,
)
    requires
        call_ensures(Unpacking::file, (unpacking, is_dir, file_name, contents, fault), ()),
    ensures
        is_dir || file_name is None || old(unpacking)@.failure is Some ==> final(unpacking)@
            == old(unpacking)@,
        !is_dir && old(unpacking)@.failure is None ==> match (file_name, fault) {
            (Some(name), None) => {
                &&& final(unpacking)@.files == old(unpacking)@.files.push((name@, contents@))
                &&& final(unpacking)@.failure is None
                &&& same_ignoring_ascii_case(name@, "VBCABLE_Setup_x64.exe"@)
                    ==> final(unpacking)@.installer == Some(name@)
                &&& !same_ignoring_ascii_case(name@, "VBCABLE_Setup_x64.exe"@)
                    ==> final(unpacking)@.installer == old(unpacking)@.installer
            },
            (Some(name), Some(reason)) => {
                &&& final(unpacking)@.files == old(unpacking)@.files.push((name@, contents@))
                &&& final(unpacking)@.failure == Some(
                    "не удалось распаковать '"@ + name@ + "': "@ + reason@,
                )
                &&& final(unpacking)@.installer == old(unpacking)@.installer
            },
            (None, _) => true,
        },
{
}

/// Unpacking begins with nothing; the first entry that could not be found ends it; and
/// what it has come to is what it has taken: the files as they are, the failure before
/// anything else, then the installer, and without one that it is missing.
pub proof fn law_unpacking_from_start_to_end(
    fresh: Unpacking,
    unpacking: &mut Unpacking,
    reason: String,
    finished: Unpacking,
    extraction: Extraction,
    text: String,
)
    requires
        call_ensures(Unpacking::new, (), fresh),
        call_ensures(Unpacking::unreadable, (unpacking, reason), ()),
        call_ensures(Unpacking::finish, (finished,), extraction),
        extraction.outcome matches Err(error) ==> call_ensures(
            SetupError::message,
            (&error,),
            text,
        ),
    ensures
        fresh@.files.len() == 0 && fresh@.installer is None && fresh@.failure is None,
        final(unpacking)@.files == old(unpacking)@.files,
        final(unpacking)@.installer == old(unpacking)@.installer,
        old(unpacking)@.failure is None ==> final(unpacking)@.failure == Some(
            "ошибка чтения архива: "@ + reason@,
        ),
        old(unpacking)@.failure is Some ==> final(unpacking)@.failure
            == old(unpacking)@.failure,
        extraction.files@.len() == finished@.files.len(),
        forall|i: int|
            0 <= i < extraction.files@.len() ==> finished@.files[i] == (
                (#[trigger] extraction.files@[i]).file_name@,
                extraction.files@[i].contents@,
            ),
        match (finished@.failure, finished@.installer) {
            (Some(told), _) => extraction.outcome is Err && text@ == told,
            (None, Some(name)) => extraction.outcome matches Ok(found) && found@ == name,
            (None, None) => extraction.outcome matches Err(error) && error is NoInstaller,
        },
{
    lemma_file_views(extraction.files@);
}

/// Each error has its own text, which tells the file and the reason where there are any.
pub proof fn law_setup_errors_tell_their_reason(error: &SetupError, text: String)
    requires
        call_ensures(SetupError::message, (error,), text),
    ensures
        match *error {
            SetupError::Download { reason } => text@
                == "не удалось скачать драйвер (https://download.vb-audio.com/Download_CABLE/VBCABLE_Driver_Pack45.zip): "@
                + reason@,
            SetupError::ReadDownload { reason } => text@
                == "ошибка чтения загруженного файла: "@ + reason@,
            SetupError::TemporaryFolder { reason } => text@
                == "не удалось создать временную папку: "@ + reason@,
            SetupError::DamagedPack { reason } => text@ == "повреждённый архив драйвера: "@
                + reason@,
            SetupError::UnreadableEntry { reason } => text@ == "ошибка чтения архива: "@ + reason@,
            SetupError::CreateFile { file_name, reason } => text@ == "не удалось записать '"@
                + file_name@ + "': "@ + reason@,
            SetupError::UnpackFile { file_name, reason } => text@ == "не удалось распаковать '"@
                + file_name@ + "': "@ + reason@,
            SetupError::NoInstaller => text@
                == "в архиве драйвера не найден VBCABLE_Setup_x64.exe (изменился формат пака у VB-Audio?)"@,
            SetupError::NotStarted => text@
                == "не удалось запустить установщик (запрос UAC отклонён?)"@,
            SetupError::ExitCode { code } => text@ == "установщик завершился с кодом "@ + decimal(
                code as nat,
            ),
        },
{
    reveal_strlit(
        "не удалось скачать драйвер (https://download.vb-audio.com/Download_CABLE/VBCABLE_Driver_Pack45.zip): ",
    );
    reveal_strlit("не удалось скачать драйвер (");
    reveal_strlit("https://download.vb-audio.com/Download_CABLE/VBCABLE_Driver_Pack45.zip");
    reveal_strlit("): ");
    assert("не удалось скачать драйвер (https://download.vb-audio.com/Download_CABLE/VBCABLE_Driver_Pack45.zip): "@
        =~= "не удалось скачать драйвер ("@ + DRIVER_PACK_URL@ + "): "@);
}

/// The installation counts as done exactly where the installer was started and, if its
/// end could be waited for, ended with zero. Otherwise the error tells that it was not
/// started, or its code.
pub proof fn law_only_a_clean_exit_is_success(launch: Launch, result: Result<(), SetupError>)
    requires
        call_ensures(launch_result, (launch,), result),
    ensures
        result is Ok <==> launch is Detached || (launch matches Launch::Exited { code } && code
            == 0),
        result matches Err(error) ==> match launch {
            Launch::Exited { code } => error == SetupError::ExitCode { code },
            _ => error is NotStarted,
        },
{
}

/// The default output device is restored to what it was, exactly where it is known and
/// the installation succeeded.
pub proof fn law_previous_device_is_restored(
    previous: Option<String>,
    installed: &Result<(), SetupError>,
    device: Option<String>,
)
    requires
        call_ensures(device_to_restore, (previous, installed), device),
    ensures
        device is Some <==> previous is Some && *installed is Ok,
        device matches Some(restored) ==> (previous matches Some(before) && restored@ == before@),
{
}

/// What is downloaded, and what the installer is called and started with.
pub proof fn law_installer_is_the_cable_installer()
    ensures
        DRIVER_PACK_URL@
            == "https://download.vb-audio.com/Download_CABLE/VBCABLE_Driver_Pack45.zip"@,
        INSTALLER_NAME@ == "VBCABLE_Setup_x64.exe"@,
        INSTALLER_FLAGS@ == "-i -h"@,
{
}

/// What an entry tells is all that it holds: whether it is a folder, its path, and its
/// contents, whole, or why they end too early.
pub proof fn law_entries_tell_what_they_hold(entry: ArchiveEntry)
    ensures
        entry@.is_dir == entry.is_dir,
        match (entry@.enclosed_name, entry.enclosed_name) {
            (Some(told), Some(path)) => told == path@,
            (None, None) => true,
            _ => false,
        },
        match (entry@.contents, entry.fault) {
            (Ok(told), None) => told == entry.contents@,
            (Err(told), Some(reason)) => told == reason@,
            _ => false,
        },
{
}

} // verus!
