//! What holds of every launch attempt: the state machine reaches the outcome
//! that the gates decide in their order, and a failing gate stops the steps
//! after it.
use vstd::prelude::*;
use crate::launch::{initial_stage, launch_outcome, run, visits, LaunchError, Stage};
use crate::plugin_path::{has_native_suffix_spec, plugin_path_of};
use crate::request::{missing_field, RequestView};
use crate::status::{started_text, status_text};

verus! {

/// The answers of the five outside steps, in the order they are performed.
pub open spec fn answers_of(
    directory_entered: bool,
    file_exists: bool,
    bind_ok: bool,
    loaded: bool,
    symbol_found: bool,
) -> Seq<bool> {
    seq![directory_entered, file_exists, bind_ok, loaded, symbol_found]
}

/// The stage that the machine reaches for `r` with these answers.
pub open spec fn machine_outcome(
    r: RequestView,
    directory_entered: bool,
    file_exists: bool,
    bind_ok: bool,
    loaded: bool,
    symbol_found: bool,
) -> Stage {
    run(
        initial_stage(r),
        plugin_path_of(r.directory, r.filename),
        answers_of(directory_entered, file_exists, bind_ok, loaded, symbol_found),
    )
}

/// Whether the machine passes `target` for `r` with these answers.
pub open spec fn machine_visits(
    r: RequestView,
    directory_entered: bool,
    file_exists: bool,
    bind_ok: bool,
    loaded: bool,
    symbol_found: bool,
    target: Stage,
) -> bool {
    visits(
        initial_stage(r),
        plugin_path_of(r.directory, r.filename),
        answers_of(directory_entered, file_exists, bind_ok, loaded, symbol_found),
        target,
    )
}

/// Stepping the machine through the five outside steps ends in the outcome
/// that the gates decide, taken in their fixed order.
pub proof fn lemma_machine_decides_outcome(
    r: RequestView,
    directory_entered: bool,
    file_exists: bool,
    bind_ok: bool,
    loaded: bool,
    symbol_found: bool,
)
    ensures
        machine_outcome(r, directory_entered, file_exists, bind_ok, loaded, symbol_found)
            == launch_outcome(r, directory_entered, file_exists, bind_ok, loaded, symbol_found),
{
    let a = answers_of(directory_entered, file_exists, bind_ok, loaded, symbol_found);
    assert(a.drop_first() =~= seq![file_exists, bind_ok, loaded, symbol_found]);
    assert(a.drop_first().drop_first() =~= seq![bind_ok, loaded, symbol_found]);
    assert(a.drop_first().drop_first().drop_first() =~= seq![loaded, symbol_found]);
    assert(a.drop_first().drop_first().drop_first().drop_first() =~= seq![symbol_found]);
    assert(a.drop_first().drop_first().drop_first().drop_first().drop_first() =~= Seq::<bool>::empty());
    reveal_with_fuel(run, 6);
}

/// Unfolds the answer list one step at a time, for the lemmas below.
proof fn lemma_answers_unfold(a: Seq<bool>, d: bool, e: bool, b: bool, l: bool, f: bool)
    requires
        a == answers_of(d, e, b, l, f),
    ensures
        a.len() == 5,
        a[0] == d,
        a.drop_first() =~= seq![e, b, l, f],
        a.drop_first()[0] == e,
        a.drop_first().drop_first() =~= seq![b, l, f],
        a.drop_first().drop_first()[0] == b,
        a.drop_first().drop_first().drop_first() =~= seq![l, f],
        a.drop_first().drop_first().drop_first()[0] == l,
        a.drop_first().drop_first().drop_first().drop_first() =~= seq![f],
        a.drop_first().drop_first().drop_first().drop_first()[0] == f,
        a.drop_first().drop_first().drop_first().drop_first().drop_first() =~= Seq::<bool>::empty(),
{
}

/// A request with an empty field fails with `MissingField` before any
/// outside step: the directory is not entered, the address is not probed and
/// no library is loaded.
pub proof fn lemma_missing_field_stops_everything(
    r: RequestView,
    directory_entered: bool,
    file_exists: bool,
    bind_ok: bool,
    loaded: bool,
    symbol_found: bool,
)
    requires
        missing_field(r),
    ensures
        machine_outcome(r, directory_entered, file_exists, bind_ok, loaded, symbol_found)
            == Stage::Failed(LaunchError::MissingField),
        !machine_visits(r, directory_entered, file_exists, bind_ok, loaded, symbol_found, Stage::EnterDirectory),
        !machine_visits(r, directory_entered, file_exists, bind_ok, loaded, symbol_found, Stage::ProbeAddress),
        !machine_visits(r, directory_entered, file_exists, bind_ok, loaded, symbol_found, Stage::LoadPlugin),
{
    lemma_machine_decides_outcome(r, directory_entered, file_exists, bind_ok, loaded, symbol_found);
    reveal_with_fuel(visits, 2);
}

/// A complete request whose directory cannot be entered fails with
/// `DirectoryUnavailable`, and no later step is performed.
pub proof fn lemma_unavailable_directory_stops(
    r: RequestView,
    file_exists: bool,
    bind_ok: bool,
    loaded: bool,
    symbol_found: bool,
)
    requires
        !missing_field(r),
    ensures
        machine_outcome(r, false, file_exists, bind_ok, loaded, symbol_found)
            == Stage::Failed(LaunchError::DirectoryUnavailable),
        !machine_visits(r, false, file_exists, bind_ok, loaded, symbol_found, Stage::CheckFile),
        !machine_visits(r, false, file_exists, bind_ok, loaded, symbol_found, Stage::ProbeAddress),
        !machine_visits(r, false, file_exists, bind_ok, loaded, symbol_found, Stage::LoadPlugin),
        !machine_visits(r, false, file_exists, bind_ok, loaded, symbol_found, Stage::AwaitHandshake),
{
    lemma_machine_decides_outcome(r, false, file_exists, bind_ok, loaded, symbol_found);
    lemma_answers_unfold(answers_of(false, file_exists, bind_ok, loaded, symbol_found), false, file_exists, bind_ok, loaded, symbol_found);
    reveal_with_fuel(visits, 3);
}

/// An existing plugin file whose path lacks a native-library suffix fails
/// with `UnsupportedExtension`: the address is not probed and nothing is
/// loaded.
pub proof fn lemma_unsupported_extension_stops(
    r: RequestView,
    bind_ok: bool,
    loaded: bool,
    symbol_found: bool,
)
    requires
        !missing_field(r),
        !has_native_suffix_spec(plugin_path_of(r.directory, r.filename)),
    ensures
        machine_outcome(r, true, true, bind_ok, loaded, symbol_found)
            == Stage::Failed(LaunchError::UnsupportedExtension),
        !machine_visits(r, true, true, bind_ok, loaded, symbol_found, Stage::ProbeAddress),
        !machine_visits(r, true, true, bind_ok, loaded, symbol_found, Stage::LoadPlugin),
{
    lemma_machine_decides_outcome(r, true, true, bind_ok, loaded, symbol_found);
    lemma_answers_unfold(answers_of(true, true, bind_ok, loaded, symbol_found), true, true, bind_ok, loaded, symbol_found);
    reveal_with_fuel(visits, 4);
}

/// Where the address and port cannot be bound, the launch fails with
/// `AddressUnavailable` and the plugin is never loaded.
pub proof fn lemma_unavailable_address_stops(
    r: RequestView,
    loaded: bool,
    symbol_found: bool,
)
    requires
        !missing_field(r),
        has_native_suffix_spec(plugin_path_of(r.directory, r.filename)),
    ensures
        machine_outcome(r, true, true, false, loaded, symbol_found)
            == Stage::Failed(LaunchError::AddressUnavailable),
        !machine_visits(r, true, true, false, loaded, symbol_found, Stage::LoadPlugin),
        !machine_visits(r, true, true, false, loaded, symbol_found, Stage::AwaitHandshake),
{
    lemma_machine_decides_outcome(r, true, true, false, loaded, symbol_found);
    lemma_answers_unfold(answers_of(true, true, false, loaded, symbol_found), true, true, false, loaded, symbol_found);
    reveal_with_fuel(visits, 5);
}

/// A plugin that loads but lacks the entry symbol fails with
/// `HandshakeFailed`, and the launch never reaches the started stage.
pub proof fn lemma_missing_symbol_never_starts(r: RequestView)
    requires
        !missing_field(r),
        has_native_suffix_spec(plugin_path_of(r.directory, r.filename)),
    ensures
        machine_outcome(r, true, true, true, true, false)
            == Stage::Failed(LaunchError::HandshakeFailed),
        !machine_visits(r, true, true, true, true, false, Stage::Started),
{
    lemma_machine_decides_outcome(r, true, true, true, true, false);
    lemma_answers_unfold(answers_of(true, true, true, true, false), true, true, true, true, false);
    reveal_with_fuel(visits, 7);
}

/// A plugin with the entry symbol, on an available address and port, starts
/// the server, and the status text ends with the address and the port,
/// separated by a colon.
pub proof fn lemma_started_echoes_address(r: RequestView)
    requires
        !missing_field(r),
        has_native_suffix_spec(plugin_path_of(r.directory, r.filename)),
    ensures
        machine_outcome(r, true, true, true, true, true) == Stage::Started,
        status_text(Stage::Started, r.address, r.port) == Some(started_text(r.address, r.port)),
        ({
            let t = started_text(r.address, r.port);
            let k = t.len() - r.port.len() - 1 - r.address.len();
            &&& 0 <= k
            &&& t.subrange(k, k + r.address.len()) == r.address
            &&& t[k + r.address.len()] == ':'
            &&& t.subrange(t.len() - r.port.len(), t.len() as int) == r.port
        }),
{
    lemma_machine_decides_outcome(r, true, true, true, true, true);
    let t = started_text(r.address, r.port);
    let prefix = "Сервер запущен по адресу http://"@;
    reveal_strlit(":");
    assert(t =~= prefix + r.address + seq![':'] + r.port);
    let k = prefix.len() as int;
    assert(t.subrange(k, k + r.address.len()) =~= r.address);
    assert(t.subrange(t.len() - r.port.len(), t.len() as int) =~= r.port);
}

/// Checking the same request twice, with the same answers from the outside
/// steps, classifies it the same way: the validation, the derived path, the
/// suffix check and the outcome depend on the request's texts alone.
pub proof fn lemma_classification_repeatable(
    a: RequestView,
    b: RequestView,
    directory_entered: bool,
    file_exists: bool,
    bind_ok: bool,
    loaded: bool,
    symbol_found: bool,
)
    requires
        a == b,
    ensures
        missing_field(a) == missing_field(b),
        initial_stage(a) == initial_stage(b),
        plugin_path_of(a.directory, a.filename) == plugin_path_of(b.directory, b.filename),
        has_native_suffix_spec(plugin_path_of(a.directory, a.filename))
            == has_native_suffix_spec(plugin_path_of(b.directory, b.filename)),
        machine_outcome(a, directory_entered, file_exists, bind_ok, loaded, symbol_found)
            == machine_outcome(b, directory_entered, file_exists, bind_ok, loaded, symbol_found),
{
}

} // verus!
