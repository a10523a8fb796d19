//! The launch of a plugin as a state machine. Each stage names the outside
//! step to perform next; the caller performs it and reports whether it
//! succeeded, and the machine decides the next stage, until the launch has
//! started or failed.
use vstd::prelude::*;
use crate::plugin_path::{derive_plugin_path, has_native_suffix, has_native_suffix_spec, plugin_path_of};
use crate::request::{missing_field, LaunchRequest, RequestView};
use crate::status::{status_message, status_text};

verus! {

/// Why a launch attempt failed.
#[derive(Clone, Copy, Debug, PartialEq, Eq, Structural)]
pub enum LaunchError {
    /// The process cannot change into the requested directory.
    DirectoryUnavailable,
    /// One of address, port, directory or file name is empty.
    MissingField,
    /// The plugin path does not exist.
    PluginFileMissing,
    /// The plugin path does not end in a native-library suffix.
    UnsupportedExtension,
    /// Binding the address and port failed.
    AddressUnavailable,
    /// The shared library could not be loaded.
    PluginLoadFailed,
    /// The library does not export the entry symbol.
    HandshakeFailed,
}

/// Where a launch attempt stands. The non-final stages name the step that
/// the caller performs next.
#[derive(Clone, Copy, Debug, PartialEq, Eq, Structural)]
pub enum Stage {
    /// Change the working directory to the request's directory.
    EnterDirectory,
    /// Check that the plugin path exists.
    CheckFile,
    /// Bind the address and port for a moment, then release them.
    ProbeAddress,
    /// Load the shared library at the plugin path.
    LoadPlugin,
    /// Resolve the entry symbol on the worker thread and wait for its signal.
    AwaitHandshake,
    /// The server runs.
    Started,
    /// The attempt ended with this error.
    Failed(LaunchError),
}

impl Stage {
    pub open spec fn is_final(self) -> bool {
        self is Started || self is Failed
    }

    /// Whether the launch attempt has ended.
    pub fn is_finished(&self) -> (r: bool)
        ensures
            r == self.is_final(),
    {
        match self {
            Stage::Started | Stage::Failed(_) => true,
            _ => false,
        }
    }
}

/// The address and port joined for binding.
pub open spec fn bind_target_of(address: Seq<char>, port: Seq<char>) -> Seq<char> {
    address.push(':') + port
}

/// The first stage: a request with an empty field fails before any step.
pub open spec fn initial_stage(r: RequestView) -> Stage {
    if missing_field(r) {
        Stage::Failed(LaunchError::MissingField)
    } else {
        Stage::EnterDirectory
    }
}

/// The stage after `stage`, given whether its step succeeded. A final stage
/// stays as it is.
pub open spec fn next_stage(stage: Stage, path: Seq<char>, succeeded: bool) -> Stage {
    match stage {
        Stage::EnterDirectory => if succeeded {
            Stage::CheckFile
        } else {
            Stage::Failed(LaunchError::DirectoryUnavailable)
        },
        Stage::CheckFile => if !succeeded {
            Stage::Failed(LaunchError::PluginFileMissing)
        } else if !has_native_suffix_spec(path) {
            Stage::Failed(LaunchError::UnsupportedExtension)
        } else {
            Stage::ProbeAddress
        },
        Stage::ProbeAddress => if succeeded {
            Stage::LoadPlugin
        } else {
            Stage::Failed(LaunchError::AddressUnavailable)
        },
        Stage::LoadPlugin => if succeeded {
            Stage::AwaitHandshake
        } else {
            Stage::Failed(LaunchError::PluginLoadFailed)
        },
        Stage::AwaitHandshake => if succeeded {
            Stage::Started
        } else {
            Stage::Failed(LaunchError::HandshakeFailed)
        },
        _ => stage,
    }
}

/// The stage reached from `stage` when the steps report `answers` in turn.
pub open spec fn run(stage: Stage, path: Seq<char>, answers: Seq<bool>) -> Stage
    decreases answers.len(),
{
    if stage.is_final() || answers.len() == 0 {
        stage
    } else {
        run(next_stage(stage, path, answers[0]), path, answers.drop_first())
    }
}

/// Whether `target` is among the stages passed from `stage` when the steps
/// report `answers` in turn.
pub open spec fn visits(stage: Stage, path: Seq<char>, answers: Seq<bool>, target: Stage) -> bool
    decreases answers.len(),
{
    if stage == target {
        true
    } else if stage.is_final() || answers.len() == 0 {
        false
    } else {
        visits(next_stage(stage, path, answers[0]), path, answers.drop_first(), target)
    }
}

/// How a launch attempt ends, from the request and what each outside step
/// reports: the gates in their order, the first that fails deciding.
pub open spec fn launch_outcome(
    r: RequestView,
    directory_entered: bool,
    file_exists: bool,
    bind_ok: bool,
    loaded: bool,
    symbol_found: bool,
) -> Stage {
    if missing_field(r) {
        Stage::Failed(LaunchError::MissingField)
    } else if !directory_entered {
        Stage::Failed(LaunchError::DirectoryUnavailable)
    } else if !file_exists {
        Stage::Failed(LaunchError::PluginFileMissing)
    } else if !has_native_suffix_spec(plugin_path_of(r.directory, r.filename)) {
        Stage::Failed(LaunchError::UnsupportedExtension)
    } else if !bind_ok {
        Stage::Failed(LaunchError::AddressUnavailable)
    } else if !loaded {
        Stage::Failed(LaunchError::PluginLoadFailed)
    } else if !symbol_found {
        Stage::Failed(LaunchError::HandshakeFailed)
    } else {
        Stage::Started
    }
}

/// A launch attempt in progress.
pub struct Launch {
    request: LaunchRequest,
    plugin_path: String,
    bind_target: String,
    stage: Stage,
}

pub struct LaunchView {
    pub request: RequestView,
    pub plugin_path: Seq<char>,
    pub bind_target: Seq<char>,
    pub stage: Stage,
}

impl View for Launch {
    type V = LaunchView;

    closed spec fn view(&self) -> LaunchView {
        LaunchView {
            request: self.request@,
            plugin_path: self.plugin_path@,
            bind_target: self.bind_target@,
            stage: self.stage,
        }
    }
}

impl Launch {
    /// Starts an attempt: derives the plugin path and the bind target, and
    /// validates the fields, before any outside step.
    pub fn new(request: LaunchRequest) -> (l: Launch)
        ensures
            l@.request == request@,
            l@.plugin_path == plugin_path_of(request@.directory, request@.filename),
            l@.bind_target == bind_target_of(request@.address, request@.port),
            l@.stage == initial_stage(request@),
    {
        let plugin_path = derive_plugin_path(request.directory.as_str(), request.filename.as_str());
        let mut bind_target = request.address.clone();
        bind_target.append(":");
        proof {
            reveal_strlit(":");
        }
        bind_target.append(request.port.as_str());
        assert(bind_target@ =~= bind_target_of(request@.address, request@.port));
        let stage = if request.has_missing_field() {
            Stage::Failed(LaunchError::MissingField)
        } else {
            Stage::EnterDirectory
        };
        Launch { request, plugin_path, bind_target, stage }
    }

    /// Records whether the current stage's step succeeded and moves on.
    pub fn advance(&mut self, succeeded: bool)
        ensures
            final(self)@.request == old(self)@.request,
            final(self)@.plugin_path == old(self)@.plugin_path,
            final(self)@.bind_target == old(self)@.bind_target,
            final(self)@.stage == next_stage(old(self)@.stage, old(self)@.plugin_path, succeeded),
    {
        self.stage = match self.stage {
            Stage::EnterDirectory => if succeeded {
                Stage::CheckFile
            } else {
                Stage::Failed(LaunchError::DirectoryUnavailable)
            },
            Stage::CheckFile => if !succeeded {
                Stage::Failed(LaunchError::PluginFileMissing)
            } else if !has_native_suffix(self.plugin_path.as_str()) {
                Stage::Failed(LaunchError::UnsupportedExtension)
            } else {
                Stage::ProbeAddress
            },
            Stage::ProbeAddress => if succeeded {
                Stage::LoadPlugin
            } else {
                Stage::Failed(LaunchError::AddressUnavailable)
            },
            Stage::LoadPlugin => if succeeded {
                Stage::AwaitHandshake
            } else {
                Stage::Failed(LaunchError::PluginLoadFailed)
            },
            Stage::AwaitHandshake => if succeeded {
                Stage::Started
            } else {
                Stage::Failed(LaunchError::HandshakeFailed)
            },
            other => other,
        };
    }

    pub fn stage(&self) -> (r: Stage)
        ensures
            r == self@.stage,
    {
        self.stage
    }

    pub fn request(&self) -> (r: &LaunchRequest)
        ensures
            r@ == self@.request,
    {
        &self.request
    }

    pub fn plugin_path(&self) -> (r: &str)
        ensures
            r@ == self@.plugin_path,
    {
        self.plugin_path.as_str()
    }

    /// The status text once the attempt has ended; none before.
    pub fn status_message(&self) -> (r: Option<String>)
        ensures
            r is Some <==> self@.stage.is_final(),
            r is Some ==> status_text(self@.stage, self@.request.address, self@.request.port)
                == Some(r.unwrap()@),
    {
        status_message(self.stage, self.request.address.as_str(), self.request.port.as_str())
    }

    /// The `address:port` text to bind.
    pub fn bind_target(&self) -> (r: &str)
        ensures
            r@ == self@.bind_target,
    {
        self.bind_target.as_str()
    }
}

} // verus!
