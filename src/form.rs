//! The launcher's form: the four texts a user edits, the last status text,
//! and how each message changes them.
use vstd::prelude::*;
use crate::request::{LaunchRequest, RequestView};

verus! {

/// What the user did on the form.
#[derive(Debug, Clone)]
pub enum Message {
    /// The start button was pressed.
    Start,
    IpAddress(String),
    Port(String),
    Directory(String),
    FileName(String),
}

/// The form's contents.
pub struct LauncherForm {
    pub ip_address: String,
    pub port: String,
    pub directory: String,
    pub filename: String,
    /// The status text of the last launch attempt.
    pub log: String,
}

impl LauncherForm {
    /// An empty form.
    pub fn new() -> (f: Self)
        ensures
            f.ip_address@.len() == 0,
            f.port@.len() == 0,
            f.directory@.len() == 0,
            f.filename@.len() == 0,
            f.log@.len() == 0,
    {
        LauncherForm {
            ip_address: String::new(),
            port: String::new(),
            directory: String::new(),
            filename: String::new(),
            log: String::new(),
        }
    }

    /// The request that the form's texts make up.
    pub open spec fn request_view(&self) -> RequestView {
        RequestView {
            address: self.ip_address@,
            port: self.port@,
            directory: self.directory@,
            filename: self.filename@,
        }
    }

    /// Applies a message: an edit replaces its field; a press of the start
    /// button leaves the form as it is and returns the request to launch.
    pub fn update(&mut self, message: Message) -> (r: Option<LaunchRequest>)
        ensures
            match message {
                Message::Start => {
                    &&& *final(self) == *old(self)
                    &&& r is Some
                    &&& r.unwrap()@ == old(self).request_view()
                },
                Message::IpAddress(s) => r is None && *final(self) == (LauncherForm {
                    ip_address: s,
                    ..*old(self)
                }),
                Message::Port(s) => r is None && *final(self) == (LauncherForm {
                    port: s,
                    ..*old(self)
                }),
                Message::Directory(s) => r is None && *final(self) == (LauncherForm {
                    directory: s,
                    ..*old(self)
                }),
                Message::FileName(s) => r is None && *final(self) == (LauncherForm {
                    filename: s,
                    ..*old(self)
                }),
            },
    {
        match message {
            Message::IpAddress(s) => {
                self.ip_address = s;
                None
            },
            Message::Port(s) => {
                self.port = s;
                None
            },
            Message::Directory(s) => {
                self.directory = s;
                None
            },
            Message::FileName(s) => {
                self.filename = s;
                None
            },
            Message::Start => Some(
                LaunchRequest::new(
                    self.ip_address.clone(),
                    self.port.clone(),
                    self.directory.clone(),
                    self.filename.clone(),
                ),
            ),
        }
    }
}

} // verus!
