//! The output bridge: what is done with each event that the helper process
//! gives off.
//!
//! Every line of output is published to the host again. Until an address has
//! been found, every line is also scanned for one; the first that is found is
//! cached, announced to the host and delivered to the waiting start. After
//! that no line is scanned any more.

use crate::pattern::{extracted, PatternView, SuccessPattern};
use vstd::prelude::*;
use vstd::utf8::{decode_utf8, valid_utf8};

verus! {

/// The output channel that a line came on.
#[derive(Clone, Copy, Debug, PartialEq, Eq)]
pub enum Channel {
    /// Standard output.
    Stdout,
    /// Standard error.
    Stderr,
}

/// How a process ended: its exit code, or the signal that ended it.
#[derive(Clone, Copy, Debug, PartialEq, Eq)]
pub struct ExitStatus {
    pub code: Option<i32>,
    pub signal: Option<i32>,
}

/// What the helper process gives off.
#[derive(Debug, PartialEq, Eq)]
pub enum ProcessEvent {
    /// A line on standard output, as bytes.
    Stdout(Vec<u8>),
    /// A line on standard error, as bytes.
    Stderr(Vec<u8>),
    /// The process has ended.
    Terminated(ExitStatus),
    /// Anything else.
    Other,
}

/// A `ProcessEvent` as plain values.
pub enum ProcessEventView {
    Stdout(Seq<u8>),
    Stderr(Seq<u8>),
    Terminated(ExitStatus),
    Other,
}

impl View for ProcessEvent {
    type V = ProcessEventView;

    open spec fn view(&self) -> ProcessEventView {
        match self {
            ProcessEvent::Stdout(bytes) => ProcessEventView::Stdout(bytes@),
            ProcessEvent::Stderr(bytes) => ProcessEventView::Stderr(bytes@),
            ProcessEvent::Terminated(status) => ProcessEventView::Terminated(*status),
            ProcessEvent::Other => ProcessEventView::Other,
        }
    }
}

/// An event that is published to the host.
#[derive(Debug, PartialEq, Eq)]
pub enum HostEvent {
    /// A line of the helper's output, as it came.
    Line(Channel, String),
    /// The tunnel is up under this address.
    Started(String),
    /// The helper process has ended.
    Terminated(ExitStatus),
}

/// A `HostEvent` as plain values.
pub enum HostEventView {
    Line(Channel, Seq<char>),
    Started(Seq<char>),
    Terminated(ExitStatus),
}

impl View for HostEvent {
    type V = HostEventView;

    open spec fn view(&self) -> HostEventView {
        match self {
            HostEvent::Line(channel, line) => HostEventView::Line(*channel, line@),
            HostEvent::Started(url) => HostEventView::Started(url@),
            HostEvent::Terminated(status) => HostEventView::Terminated(*status),
        }
    }
}

/// The name under which the host receives `event`.
pub open spec fn event_name(event: HostEventView) -> Seq<char> {
    match event {
        HostEventView::Line(Channel::Stdout, _) => "tunnel_out"@,
        HostEventView::Line(Channel::Stderr, _) => "tunnel_err"@,
        HostEventView::Started(_) => "tunnel_started"@,
        HostEventView::Terminated(_) => "tunnel_terminated"@,
    }
}

impl HostEvent {
    /// The name under which the host receives this event.
    pub fn name(&self) -> (name: &'static str)
        ensures
            name@ == event_name(self@),
    {
        match self {
            HostEvent::Line(Channel::Stdout, _) => "tunnel_out",
            HostEvent::Line(Channel::Stderr, _) => "tunnel_err",
            HostEvent::Started(_) => "tunnel_started",
            HostEvent::Terminated(_) => "tunnel_terminated",
        }
    }
}

/// One thing that the bridge's caller is to do, in the order given.
#[derive(Debug, PartialEq, Eq)]
pub enum BridgeAction {
    /// Publish the event to the host.
    Publish(HostEvent),
    /// Cache the address in the session.
    CacheUrl(String),
    /// Deliver the address to the start that waits for it.
    Signal(String),
}

/// A `BridgeAction` as plain values.
pub enum ActionView {
    Publish(HostEventView),
    CacheUrl(Seq<char>),
    Signal(Seq<char>),
}

impl View for BridgeAction {
    type V = ActionView;

    open spec fn view(&self) -> ActionView {
        match self {
            BridgeAction::Publish(event) => ActionView::Publish(event@),
            BridgeAction::CacheUrl(url) => ActionView::CacheUrl(url@),
            BridgeAction::Signal(url) => ActionView::Signal(url@),
        }
    }
}

/// The actions in `actions` as plain values.
pub open spec fn action_views(actions: Seq<BridgeAction>) -> Seq<ActionView> {
    actions.map_values(|action: BridgeAction| action@)
}

/// The bridge between one helper process and the host.
#[derive(Debug)]
pub struct OutputBridge {
    pattern: SuccessPattern,
    matched: bool,
}

/// An `OutputBridge` as plain values.
pub struct BridgeView {
    /// How the line with the address is recognised.
    pub pattern: PatternView,
    /// Whether an address has been found.
    pub matched: bool,
}

impl View for OutputBridge {
    type V = BridgeView;

    closed spec fn view(&self) -> BridgeView {
        BridgeView { pattern: self.pattern@, matched: self.matched }
    }
}

/// The text that a line of output stands for: its bytes read as UTF-8, with
/// what is not UTF-8 in them replaced.
pub uninterp spec fn lossy_text(bytes: Seq<u8>) -> Seq<char>;

/// The actions that announce the address `url`, found in the line `line`.
pub open spec fn discovery(channel: Channel, line: Seq<char>, url: Seq<char>) -> Seq<ActionView> {
    seq![
        ActionView::Publish(HostEventView::Line(channel, line)),
        ActionView::CacheUrl(url),
        ActionView::Publish(HostEventView::Started(url)),
        ActionView::Signal(url),
    ]
}

/// The bridge after the line `line` came on `channel`, and what is to be
/// done: the line is published; if no address was found before and the line
/// announces one, that address is cached, announced and delivered.
pub open spec fn line_step(bridge: BridgeView, channel: Channel, line: Seq<char>) -> (
    BridgeView,
    Seq<ActionView>,
) {
    let found = extracted(bridge.pattern, line);
    if !bridge.matched && found is Some {
        (BridgeView { matched: true, ..bridge }, discovery(channel, line, found->0))
    } else {
        (bridge, seq![ActionView::Publish(HostEventView::Line(channel, line))])
    }
}

/// The bridge after `event`, and what is to be done: a line of output is
/// handled as text; the end of the process is published; anything else is
/// passed over.
pub open spec fn event_step(bridge: BridgeView, event: ProcessEventView) -> (
    BridgeView,
    Seq<ActionView>,
) {
    match event {
        ProcessEventView::Stdout(bytes) => line_step(bridge, Channel::Stdout, lossy_text(bytes)),
        ProcessEventView::Stderr(bytes) => line_step(bridge, Channel::Stderr, lossy_text(bytes)),
        ProcessEventView::Terminated(status) => (
            bridge,
            seq![ActionView::Publish(HostEventView::Terminated(status))],
        ),
        ProcessEventView::Other => (bridge, seq![]),
    }
}

/// Calls `String::from_utf8_lossy` and takes the text out of what it
/// returns. The text depends on the bytes alone and is named `lossy_text`;
/// where the bytes are valid UTF-8 it is the text that they encode. Both
/// claims rest on the standard library's documentation and are not proved
/// here.
#[verifier::external_body]
fn decode_line(bytes: &[u8]) -> (text: String)
    ensures
        text@ == lossy_text(bytes@),
        valid_utf8(bytes@) ==> text@ == decode_utf8(bytes@),
{
    String::from_utf8_lossy(bytes).into_owned()
}

impl OutputBridge {
    /// A bridge that has found no address yet.
    pub fn new(pattern: SuccessPattern) -> (bridge: OutputBridge)
        ensures
            bridge@ == (BridgeView { pattern: pattern@, matched: false }),
    {
        OutputBridge { pattern, matched: false }
    }

    /// Whether an address has been found.
    pub fn has_matched(&self) -> (matched: bool)
        ensures
            matched == self@.matched,
    {
        self.matched
    }

    /// Handles one line of output that came on `channel`.
    pub fn handle_line(&mut self, channel: Channel, line: String) -> (actions: Vec<BridgeAction>)
        ensures
            (final(self)@, action_views(actions@)) == line_step(old(self)@, channel, line@),
    {
        let mut actions: Vec<BridgeAction> = Vec::new();
        let found = if self.matched {
            None
        } else {
            self.pattern.extract_url(line.as_str())
        };
        actions.push(BridgeAction::Publish(HostEvent::Line(channel, line)));
        match found {
            Some(url) => {
                self.matched = true;
                actions.push(BridgeAction::CacheUrl(url.clone()));
                actions.push(BridgeAction::Publish(HostEvent::Started(url.clone())));
                actions.push(BridgeAction::Signal(url));
                assert(action_views(actions@) =~= discovery(channel, line@, url@));
            },
            None => {
                assert(action_views(actions@) =~= seq![
                    ActionView::Publish(HostEventView::Line(channel, line@)),
                ]);
            },
        }
        actions
    }

    /// Handles one event of the helper process. A line whose bytes are valid
    /// UTF-8 is handled as the text that they encode.
    pub fn handle_event(&mut self, event: ProcessEvent) -> (actions: Vec<BridgeAction>)
        ensures
            (final(self)@, action_views(actions@)) == event_step(old(self)@, event@),
            match event@ {
                ProcessEventView::Stdout(bytes) => valid_utf8(bytes) ==> (
                    final(self)@,
                    action_views(actions@),
                ) == line_step(old(self)@, Channel::Stdout, decode_utf8(bytes)),
                ProcessEventView::Stderr(bytes) => valid_utf8(bytes) ==> (
                    final(self)@,
                    action_views(actions@),
                ) == line_step(old(self)@, Channel::Stderr, decode_utf8(bytes)),
                _ => true,
            },
    {
        match event {
            ProcessEvent::Stdout(bytes) => {
                let line = decode_line(bytes.as_slice());
                self.handle_line(Channel::Stdout, line)
            },
            ProcessEvent::Stderr(bytes) => {
                let line = decode_line(bytes.as_slice());
                self.handle_line(Channel::Stderr, line)
            },
            ProcessEvent::Terminated(status) => {
                let mut actions: Vec<BridgeAction> = Vec::new();
                actions.push(BridgeAction::Publish(HostEvent::Terminated(status)));
                assert(action_views(actions@) =~= seq![
                    ActionView::Publish(HostEventView::Terminated(status)),
                ]);
                actions
            },
            ProcessEvent::Other => {
                let actions: Vec<BridgeAction> = Vec::new();
                assert(action_views(actions@) =~= Seq::<ActionView>::empty());
                actions
            },
        }
    }
}

} // verus!
