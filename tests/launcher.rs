use site_launcher::form::{LauncherForm, Message};
use site_launcher::launch::{Launch, LaunchError, Stage};
use site_launcher::plugin_path::{derive_plugin_path, ends_with, has_native_suffix};
use site_launcher::request::LaunchRequest;
use site_launcher::status::{started_message, status_message};

fn request(address: &str, port: &str, directory: &str, filename: &str) -> LaunchRequest {
    LaunchRequest::new(address.to_string(), port.to_string(), directory.to_string(), filename.to_string())
}

/// Runs a launch, answering each outside step in turn, and returns the stages passed.
fn drive(req: LaunchRequest, answers: &[bool]) -> (Launch, Vec<Stage>) {
    let mut launch = Launch::new(req);
    let mut passed = vec![launch.stage()];
    for &a in answers {
        if launch.stage().is_finished() {
            break;
        }
        launch.advance(a);
        passed.push(launch.stage());
    }
    (launch, passed)
}

#[test]
fn path_separator_inserted_only_when_absent() {
    assert_eq!(derive_plugin_path("a/b/", "site.so"), "a/b/site.so");
    assert_eq!(derive_plugin_path("a/b", "site.so"), "a/b/site.so");
}

#[test]
fn path_of_empty_directory_starts_with_separator() {
    assert_eq!(derive_plugin_path("", "site.so"), "/site.so");
    assert_eq!(derive_plugin_path("/", "x.dll"), "/x.dll");
}

#[test]
fn path_keeps_non_ascii_text() {
    assert_eq!(derive_plugin_path("сайт", "модуль.so"), "сайт/модуль.so");
}

#[test]
fn native_suffixes_recognised() {
    assert!(has_native_suffix("a/b/site.so"));
    assert!(has_native_suffix("C:/site.dll"));
    assert!(has_native_suffix("/lib/site.dylib"));
    assert!(!has_native_suffix("site.txt"));
    assert!(!has_native_suffix("site.dylibw"));
    assert!(!has_native_suffix("siteso"));
    assert!(!has_native_suffix("so"));
    assert!(!has_native_suffix(""));
}

#[test]
fn ends_with_on_characters() {
    assert!(ends_with("abc", &['b', 'c']));
    assert!(ends_with("abc", &[]));
    assert!(!ends_with("c", &['b', 'c']));
    assert!(ends_with("порт", &['р', 'т']));
}

#[test]
fn missing_field_detected_for_each_field() {
    assert!(request("", "80", "d", "f.so").has_missing_field());
    assert!(request("127.0.0.1", "", "d", "f.so").has_missing_field());
    assert!(request("127.0.0.1", "80", "", "f.so").has_missing_field());
    assert!(request("127.0.0.1", "80", "d", "").has_missing_field());
    assert!(!request("127.0.0.1", "80", "d", "f.so").has_missing_field());
}

#[test]
fn new_launch_derives_path_and_bind_target() {
    let launch = Launch::new(request("127.0.0.1", "8080", "/srv/site", "site.so"));
    assert_eq!(launch.plugin_path(), "/srv/site/site.so");
    assert_eq!(launch.bind_target(), "127.0.0.1:8080");
    assert_eq!(launch.stage(), Stage::EnterDirectory);
    assert_eq!(launch.request().directory, "/srv/site");
    assert_eq!(launch.status_message(), None);
}

#[test]
fn empty_field_fails_before_any_step() {
    let (launch, passed) = drive(request("127.0.0.1", "", "/srv", "site.so"), &[true, true, true, true, true]);
    assert_eq!(launch.stage(), Stage::Failed(LaunchError::MissingField));
    assert_eq!(passed, vec![Stage::Failed(LaunchError::MissingField)]);
    assert_eq!(launch.status_message().unwrap(), "Вы не ввели все нужные данные");
}

#[test]
fn unavailable_directory_stops_the_launch() {
    let (launch, passed) = drive(request("127.0.0.1", "80", "/nonexistent", "site.so"), &[false, true, true, true, true]);
    assert_eq!(launch.stage(), Stage::Failed(LaunchError::DirectoryUnavailable));
    assert_eq!(passed.len(), 2);
    assert_eq!(launch.status_message().unwrap(), "Не удалось открыть директорию");
}

#[test]
fn missing_plugin_file_reported() {
    let (launch, _) = drive(request("127.0.0.1", "80", "/srv", "site.so"), &[true, false]);
    assert_eq!(launch.stage(), Stage::Failed(LaunchError::PluginFileMissing));
    assert_eq!(launch.status_message().unwrap(), "Файл сайта не существует");
}

#[test]
fn unsupported_extension_even_if_file_exists() {
    let (launch, passed) = drive(request("127.0.0.1", "80", "/srv", "site.txt"), &[true, true, true, true, true]);
    assert_eq!(launch.stage(), Stage::Failed(LaunchError::UnsupportedExtension));
    assert!(!passed.contains(&Stage::ProbeAddress));
    assert!(!passed.contains(&Stage::LoadPlugin));
    assert_eq!(launch.status_message().unwrap(), "Файл должен быть в формате .so, .dll или .dylib");
}

#[test]
fn bound_address_never_loads_plugin() {
    let (launch, passed) = drive(request("127.0.0.1", "80", "/srv", "site.so"), &[true, true, false, true, true]);
    assert_eq!(launch.stage(), Stage::Failed(LaunchError::AddressUnavailable));
    assert!(!passed.contains(&Stage::LoadPlugin));
    assert_eq!(launch.status_message().unwrap(), "IP-адрес недоступен");
}

#[test]
fn unloadable_library_reported() {
    let (launch, _) = drive(request("127.0.0.1", "80", "/srv", "site.dll"), &[true, true, true, false]);
    assert_eq!(launch.stage(), Stage::Failed(LaunchError::PluginLoadFailed));
    assert_eq!(launch.status_message().unwrap(), "Не удалось загрузить библиотеку сайта");
}

#[test]
fn missing_symbol_never_starts() {
    let (launch, passed) = drive(request("127.0.0.1", "80", "/srv", "site.dylib"), &[true, true, true, true, false]);
    assert_eq!(launch.stage(), Stage::Failed(LaunchError::HandshakeFailed));
    assert!(!passed.contains(&Stage::Started));
    assert_eq!(launch.status_message().unwrap(), "Ошибка. не была найдена функция site");
}

#[test]
fn valid_plugin_starts_and_echoes_address() {
    let (launch, passed) = drive(request("127.0.0.1", "8080", "/srv/", "site.so"), &[true, true, true, true, true]);
    assert_eq!(launch.stage(), Stage::Started);
    assert_eq!(
        passed,
        vec![
            Stage::EnterDirectory,
            Stage::CheckFile,
            Stage::ProbeAddress,
            Stage::LoadPlugin,
            Stage::AwaitHandshake,
            Stage::Started,
        ]
    );
    assert_eq!(launch.status_message().unwrap(), "Сервер запущен по адресу http://127.0.0.1:8080");
}

#[test]
fn final_stage_stays_after_more_answers() {
    let mut launch = Launch::new(request("h", "1", "d", "f.so"));
    launch.advance(false);
    assert_eq!(launch.stage(), Stage::Failed(LaunchError::DirectoryUnavailable));
    launch.advance(true);
    assert_eq!(launch.stage(), Stage::Failed(LaunchError::DirectoryUnavailable));
}

#[test]
fn classification_repeats_on_same_request() {
    for _ in 0..2 {
        let req = request("127.0.0.1", "80", "/srv", "site.txt");
        assert!(!req.has_missing_field());
        let (launch, _) = drive(req, &[true, true]);
        assert_eq!(launch.plugin_path(), "/srv/site.txt");
        assert_eq!(launch.stage(), Stage::Failed(LaunchError::UnsupportedExtension));
    }
    assert_eq!(has_native_suffix("/srv/site.txt"), has_native_suffix("/srv/site.txt"));
}

#[test]
fn status_texts() {
    assert_eq!(started_message("0.0.0.0", "1"), "Сервер запущен по адресу http://0.0.0.0:1");
    assert_eq!(status_message(Stage::CheckFile, "a", "b"), None);
    assert_eq!(
        status_message(Stage::Failed(LaunchError::MissingField), "a", "b").unwrap(),
        LaunchError::MissingField.message()
    );
    assert!(Stage::Started.is_finished());
    assert!(!Stage::AwaitHandshake.is_finished());
}

#[test]
fn form_edits_and_start() {
    let mut form = LauncherForm::new();
    assert!(form.update(Message::IpAddress("127.0.0.1".to_string())).is_none());
    assert!(form.update(Message::Port("8080".to_string())).is_none());
    assert!(form.update(Message::Directory("/srv".to_string())).is_none());
    assert!(form.update(Message::FileName("site.so".to_string())).is_none());
    assert_eq!(form.ip_address, "127.0.0.1");
    let req = form.update(Message::Start).unwrap();
    assert_eq!(req.address, "127.0.0.1");
    assert_eq!(req.port, "8080");
    assert_eq!(req.directory, "/srv");
    assert_eq!(req.filename, "site.so");
    assert_eq!(form.filename, "site.so");
    assert_eq!(form.log, "");
}
