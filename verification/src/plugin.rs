//! The decisions of the plugin that attaches a decoded link to a node.
//!
//! The host owns the tree of nodes and the files behind them. The plugin
//! only decides: the host reports what it found, and the plugin answers with
//! what is to be done next. A node is marked as processed before its data is
//! fetched, so that a node on which decoding was tried and failed can be told
//! from one on which it was never tried.

use vstd::prelude::*;
use crate::error::DecodeError;
use crate::lnk::{parse_lnk, Lnk, LnkView};

verus! {

/// What a finished run reports. A run reports nothing beyond its success.
#[derive(Clone, Copy, Debug, PartialEq, Eq)]
pub struct Results {}

impl Default for Results {
    fn default() -> (results: Results)
        ensures
            results == (Results {  }),
    {
        Results {  }
    }
}

/// Why a run failed.
#[derive(Clone, Copy, Debug, PartialEq, Eq)]
pub enum PluginError {
    /// The node named by the `file` argument does not exist.
    ArgumentNotFound,
    /// The node has no `data` value.
    ValueNotFound,
    /// The `data` value of the node is not a file.
    ValueTypeMismatch,
    /// The file behind the node could not be opened.
    CannotOpen,
    /// The file behind the node could not be read to its end.
    CannotRead,
    /// The bytes of the file are not a shell link.
    Decode(DecodeError),
}

/// What the host reports to the plugin.
#[derive(Debug, PartialEq, Eq)]
pub enum Event {
    /// The run begins.
    Started,
    /// The node named by the `file` argument exists.
    NodeFound,
    /// There is no such node.
    NodeMissing,
    /// The node has a `data` value and it is a file.
    DataFound,
    /// The node has no `data` value.
    DataMissing,
    /// The `data` value of the node is not a file.
    DataNotAFile,
    /// The file could not be opened.
    OpenFailed,
    /// The file was opened but reading it failed.
    ReadFailed,
    /// The file was read; these are its bytes.
    Read(Vec<u8>),
}

/// What the host is to do next.
#[derive(Debug, PartialEq, Eq)]
pub enum Action {
    /// Look up the node named by the `file` argument.
    FindNode,
    /// Mark the node as processed, with no value, under the plugin's name;
    /// then fetch its `data` value.
    MarkAndFetch,
    /// Open the file behind the `data` value and read all of it.
    Read,
    /// Attach the link to the node under the plugin's name and end the run
    /// with these results.
    Attach(Lnk, Results),
    /// Mark the node as processed once more, with no value, and end the run
    /// with this error.
    MarkAndFail(PluginError),
    /// End the run with this error.
    Fail(PluginError),
}

/// The plugin. It keeps nothing between runs.
#[derive(Clone, Copy, Debug, PartialEq, Eq)]
pub struct LnkPlugin {}

impl Default for LnkPlugin {
    fn default() -> (plugin: LnkPlugin)
        ensures
            plugin == (LnkPlugin {  }),
    {
        LnkPlugin {  }
    }
}

/// Whether `action` is the answer to `event`.
pub open spec fn answers(event: Event, action: Action) -> bool {
    match event {
        Event::Started => action is FindNode,
        Event::NodeFound => action is MarkAndFetch,
        Event::NodeMissing => action matches Action::Fail(e) && e == PluginError::ArgumentNotFound,
        Event::DataFound => action is Read,
        Event::DataMissing => action matches Action::Fail(e) && e == PluginError::ValueNotFound,
        Event::DataNotAFile => action matches Action::Fail(e) && e
            == PluginError::ValueTypeMismatch,
        Event::OpenFailed => action matches Action::Fail(e) && e == PluginError::CannotOpen,
        Event::ReadFailed => action matches Action::MarkAndFail(e) && e == PluginError::CannotRead,
        Event::Read(bytes) => match parse_lnk(bytes@) {
            Ok(decoded) => action matches Action::Attach(lnk, _) && lnk@ == decoded,
            Err(error) => action matches Action::MarkAndFail(e) && e == PluginError::Decode(error),
        },
    }
}

/// Whether the node has been marked as processed by the time `action` has
/// been carried out, given that it was marked before or not.
pub open spec fn marked_after(marked_before: bool, action: Action) -> bool {
    marked_before || action is MarkAndFetch || action is MarkAndFail
}

impl LnkPlugin {
    /// The name under which the plugin is registered and under which it
    /// marks nodes and attaches links.
    pub fn name(&self) -> (name: &'static str)
        ensures
            name@ == "lnk"@,
    {
        "lnk"
    }

    /// The category under which the plugin is registered.
    pub fn category(&self) -> (category: &'static str)
        ensures
            category@ == "Windows"@,
    {
        "Windows"
    }

    /// What the plugin does, in a few words.
    pub fn description(&self) -> (description: &'static str)
        ensures
            description@ == "Parse lnk file"@,
    {
        "Parse lnk file"
    }

    /// Decides what is to be done after `event`.
    pub fn step(&self, event: Event) -> (action: Action)
        ensures
            answers(event, action),
    {
        match event {
            Event::Started => Action::FindNode,
            Event::NodeFound => Action::MarkAndFetch,
            Event::NodeMissing => Action::Fail(PluginError::ArgumentNotFound),
            Event::DataFound => Action::Read,
            Event::DataMissing => Action::Fail(PluginError::ValueNotFound),
            Event::DataNotAFile => Action::Fail(PluginError::ValueTypeMismatch),
            Event::OpenFailed => Action::Fail(PluginError::CannotOpen),
            Event::ReadFailed => Action::MarkAndFail(PluginError::CannotRead),
            Event::Read(bytes) => match Lnk::from_file(bytes.as_slice()) {
                Ok(lnk) => Action::Attach(lnk, Results {  }),
                Err(error) => Action::MarkAndFail(PluginError::Decode(error)),
            },
        }
    }
}

/// A link is attached only for bytes that decode, and it is the link that
/// they decode to. Bytes that do not decode leave the node marked, and the
/// run fails with the error of the decoder.
pub proof fn lemma_attach_only_decoded(bytes: Vec<u8>, action: Action)
    requires
        answers(Event::Read(bytes), action),
    ensures
        action is Attach <==> parse_lnk(bytes@) is Ok,
        action matches Action::Attach(lnk, _) ==> parse_lnk(bytes@) == Ok::<LnkView, DecodeError>(
            lnk@,
        ),
        !(action is Attach) ==> marked_after(false, action),
{
}

/// Whatever the host reports once the node has been found, the node is
/// marked when the run ends: no failure after that point leaves it
/// untouched.
pub proof fn lemma_found_node_stays_marked(event: Event, action: Action)
    requires
        answers(event, action),
        !(event is Started),
        !(event is NodeMissing),
    ensures
        marked_after(!(event is NodeFound), action),
{
}

} // verus!
