//! The status text reported once per launch attempt.
use vstd::prelude::*;
use crate::launch::{LaunchError, Stage};

verus! {

/// The text reported for each kind of failure.
pub open spec fn error_text(e: LaunchError) -> Seq<char> {
    match e {
        LaunchError::DirectoryUnavailable => "Не удалось открыть директорию"@,
        LaunchError::MissingField => "Вы не ввели все нужные данные"@,
        LaunchError::PluginFileMissing => "Файл сайта не существует"@,
        LaunchError::UnsupportedExtension => "Файл должен быть в формате .so, .dll или .dylib"@,
        LaunchError::AddressUnavailable => "IP-адрес недоступен"@,
        LaunchError::PluginLoadFailed => "Не удалось загрузить библиотеку сайта"@,
        LaunchError::HandshakeFailed => "Ошибка. не была найдена функция site"@,
    }
}

/// The text reported when the server has started: its URL, from the
/// request's address and port.
pub open spec fn started_text(address: Seq<char>, port: Seq<char>) -> Seq<char> {
    "Сервер запущен по адресу http://"@ + address + ":"@ + port
}

/// The text for a final stage; none for a stage still in progress.
pub open spec fn status_text(stage: Stage, address: Seq<char>, port: Seq<char>) -> Option<Seq<char>> {
    match stage {
        Stage::Started => Some(started_text(address, port)),
        Stage::Failed(e) => Some(error_text(e)),
        _ => None,
    }
}

impl LaunchError {
    /// The text reported for this failure.
    pub fn message(&self) -> (r: String)
        ensures
            r@ == error_text(*self),
    {
        match self {
            LaunchError::DirectoryUnavailable => String::from_str("Не удалось открыть директорию"),
            LaunchError::MissingField => String::from_str("Вы не ввели все нужные данные"),
            LaunchError::PluginFileMissing => String::from_str("Файл сайта не существует"),
            LaunchError::UnsupportedExtension => String::from_str(
                "Файл должен быть в формате .so, .dll или .dylib",
            ),
            LaunchError::AddressUnavailable => String::from_str("IP-адрес недоступен"),
            LaunchError::PluginLoadFailed => String::from_str(
                "Не удалось загрузить библиотеку сайта",
            ),
            LaunchError::HandshakeFailed => String::from_str("Ошибка. не была найдена функция site"),
        }
    }
}

/// The text reported when the server has started at `address` and `port`.
pub fn started_message(address: &str, port: &str) -> (r: String)
    ensures
        r@ == started_text(address@, port@),
{
    let mut r = String::from_str("Сервер запущен по адресу http://");
    r.append(address);
    r.append(":");
    r.append(port);
    r
}

/// The text for `stage`, or none while the attempt is still in progress.
pub fn status_message(stage: Stage, address: &str, port: &str) -> (r: Option<String>)
    ensures
        r is Some <==> stage.is_final(),
        r is Some ==> status_text(stage, address@, port@) == Some(r.unwrap()@),
{
    match stage {
        Stage::Started => Some(started_message(address, port)),
        Stage::Failed(e) => Some(e.message()),
        _ => None,
    }
}

} // verus!
