use renarrator::virtual_mic_setup::{
    device_to_restore, extract_installer, launch_result, Launch, SetupError, Unpacking,
    DRIVER_PACK_URL,
};
use std::io::{Cursor, Write};
use zip::write::SimpleFileOptions;
use zip::{CompressionMethod, ZipWriter};

fn pack(entries: &[(&str, Option<&[u8]>)]) -> Vec<u8> {
    let mut writer = ZipWriter::new(Cursor::new(Vec::new()));
    let options = SimpleFileOptions::default();
    for (name, contents) in entries {
        match contents {
            Some(bytes) => {
                writer.start_file(*name, options).unwrap();
                writer.write_all(bytes).unwrap();
            }
            None => writer.add_directory(*name, options).unwrap(),
        }
    }
    writer.finish().unwrap().into_inner()
}

#[test]
fn all_files_are_unpacked_under_their_bare_names() {
    let driver = vec![7u8; 5000];
    let bytes = pack(&[
        ("vbcable/", None),
        ("vbcable/vbMmeCable64.sys", Some(&driver)),
        ("vbcable/vbcable_setup_X64.exe", Some(b"installer")),
        ("readme.txt", Some(b"hello")),
    ]);
    let extraction = extract_installer(&bytes);
    assert_eq!(extraction.outcome, Ok("vbcable_setup_X64.exe".to_string()));
    let files: Vec<(&str, &[u8])> = extraction
        .files
        .iter()
        .map(|f| (f.file_name.as_str(), f.contents.as_slice()))
        .collect();
    assert_eq!(
        files,
        [
            ("vbMmeCable64.sys", driver.as_slice()),
            ("vbcable_setup_X64.exe", b"installer".as_slice()),
            ("readme.txt", b"hello".as_slice()),
        ]
    );
}

#[test]
fn entries_that_lead_outside_are_passed_over() {
    let bytes = pack(&[
        ("../VBCABLE_Setup_x64.exe", Some(b"other")),
        ("a.txt", Some(b"a")),
    ]);
    let extraction = extract_installer(&bytes);
    assert_eq!(extraction.files.len(), 1);
    assert_eq!(extraction.outcome, Err(SetupError::NoInstaller));
}

#[test]
fn bytes_that_are_no_archive_are_reported() {
    let extraction = extract_installer(b"this is no archive");
    assert!(extraction.files.is_empty());
    let error = extraction.outcome.unwrap_err();
    assert!(matches!(error, SetupError::DamagedPack { .. }));
    assert!(error.message().starts_with("повреждённый архив драйвера: "));
}

#[test]
fn damaged_contents_end_the_unpacking() {
    let mut bytes = pack(&[
        ("first.txt", Some(b"first file")),
        ("VBCABLE_Setup_x64.exe", Some(&[0x41; 4000])),
        ("last.txt", Some(b"last")),
    ]);
    let at = bytes
        .windows(b"VBCABLE_Setup_x64.exe".len())
        .position(|w| w == b"VBCABLE_Setup_x64.exe")
        .unwrap();
    for byte in &mut bytes[at + 21..at + 27] {
        *byte ^= 0xFF;
    }
    let extraction = extract_installer(&bytes);
    assert_eq!(extraction.files.len(), 2);
    assert_eq!(extraction.files[0].contents, b"first file");
    assert_eq!(extraction.files[1].file_name, "VBCABLE_Setup_x64.exe");
    assert_ne!(extraction.files[1].contents, [0x41; 4000]);
    match extraction.outcome {
        Err(SetupError::UnpackFile { file_name, .. }) => {
            assert_eq!(file_name, "VBCABLE_Setup_x64.exe")
        }
        other => panic!("unexpected {other:?}"),
    }
}

#[test]
fn contents_are_kept_up_to_their_fault() {
    let mut writer = ZipWriter::new(Cursor::new(Vec::new()));
    let options = SimpleFileOptions::default().compression_method(CompressionMethod::Stored);
    writer.start_file("VBCABLE_Setup_x64.exe", options).unwrap();
    writer.write_all(b"some installer").unwrap();
    let mut bytes = writer.finish().unwrap().into_inner();
    let at = bytes.windows(4).position(|w| w == b"some").unwrap();
    bytes[at] = b'S';
    let extraction = extract_installer(&bytes);
    assert_eq!(extraction.files.len(), 1);
    assert_eq!(extraction.files[0].contents, b"Some installer");
    assert!(matches!(extraction.outcome, Err(SetupError::UnpackFile { .. })));

    let mut unpacking = Unpacking::new();
    unpacking.file(false, Some("a.sys".into()), vec![1, 2], Some("обрыв".into()));
    unpacking.file(false, Some("VBCABLE_Setup_x64.exe".into()), vec![3], None);
    let extraction = unpacking.finish();
    assert_eq!(extraction.files.len(), 1);
    assert_eq!(extraction.files[0].contents, [1, 2]);
    assert_eq!(
        extraction.outcome.unwrap_err().message(),
        "не удалось распаковать 'a.sys': обрыв"
    );
}

#[test]
fn last_installer_counts_and_failures_stick() {
    let mut unpacking = Unpacking::new();
    unpacking.file(true, Some("VBCABLE_Setup_x64.exe".into()), vec![], None);
    unpacking.file(false, None, vec![1], None);
    unpacking.file(false, Some("VBCABLE_SETUP_X64.EXE".into()), vec![1], None);
    unpacking.file(false, Some("VBCABLE_Setup_x64.exe".into()), vec![2], None);
    let extraction = unpacking.finish();
    assert_eq!(extraction.files.len(), 2);
    assert_eq!(extraction.outcome, Ok("VBCABLE_Setup_x64.exe".to_string()));

    let mut unpacking = Unpacking::new();
    unpacking.file(false, Some("VBCABLE_Setup_x64.exe".into()), vec![2], None);
    unpacking.unreadable("обрыв".into());
    unpacking.file(false, Some("later.txt".into()), vec![3], None);
    unpacking.unreadable("снова".into());
    let extraction = unpacking.finish();
    assert_eq!(extraction.files.len(), 1);
    assert_eq!(extraction.outcome.unwrap_err().message(), "ошибка чтения архива: обрыв");
}

#[test]
fn installer_results() {
    assert_eq!(launch_result(Launch::Refused), Err(SetupError::NotStarted));
    assert_eq!(launch_result(Launch::Detached), Ok(()));
    assert_eq!(launch_result(Launch::Exited { code: 0 }), Ok(()));
    assert_eq!(
        launch_result(Launch::Exited { code: 1603 }).unwrap_err().message(),
        "установщик завершился с кодом 1603"
    );
}

#[test]
fn default_device_is_restored_after_success_alone() {
    let device = || Some("{0.0.0}".to_string());
    assert_eq!(device_to_restore(device(), &Ok(())), device());
    assert_eq!(device_to_restore(None, &Ok(())), None);
    assert_eq!(device_to_restore(device(), &Err(SetupError::NotStarted)), None);
}

#[test]
fn each_failure_has_its_text() {
    let reason = || "e".to_string();
    let file_name = || "x.sys".to_string();
    let texts = [
        (
            SetupError::Download { reason: reason() },
            format!("не удалось скачать драйвер ({DRIVER_PACK_URL}): e"),
        ),
        (
            SetupError::ReadDownload { reason: reason() },
            "ошибка чтения загруженного файла: e".to_string(),
        ),
        (
            SetupError::TemporaryFolder { reason: reason() },
            "не удалось создать временную папку: e".to_string(),
        ),
        (
            SetupError::DamagedPack { reason: reason() },
            "повреждённый архив драйвера: e".to_string(),
        ),
        (
            SetupError::UnreadableEntry { reason: reason() },
            "ошибка чтения архива: e".to_string(),
        ),
        (
            SetupError::CreateFile { file_name: file_name(), reason: reason() },
            "не удалось записать 'x.sys': e".to_string(),
        ),
        (
            SetupError::UnpackFile { file_name: file_name(), reason: reason() },
            "не удалось распаковать 'x.sys': e".to_string(),
        ),
        (
            SetupError::NoInstaller,
            "в архиве драйвера не найден VBCABLE_Setup_x64.exe (изменился формат пака у VB-Audio?)"
                .to_string(),
        ),
        (
            SetupError::NotStarted,
            "не удалось запустить установщик (запрос UAC отклонён?)".to_string(),
        ),
        (
            SetupError::ExitCode { code: 5 },
            "установщик завершился с кодом 5".to_string(),
        ),
    ];
    for (error, text) in texts {
        assert_eq!(error.message(), text);
    }
}
