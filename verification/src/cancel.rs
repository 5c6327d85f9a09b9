//! The stream cancellation registry: one slot per stream kind, one live
//! handle per slot at most.

use crate::text::{lowercase, same_text, to_lowercase};
use vstd::prelude::*;
use vstd::string::*;

verus! {

/// The category of a stream; one cancellation slot exists per kind.
#[derive(Clone, Copy, Debug, PartialEq, Eq, Structural)]
pub enum StreamKind {
    Message,
    Preview,
    Group,
    Guide,
}

impl StreamKind {
    /// The name of the UI channel that carries the events of the kind.
    pub open spec fn channel_name(self) -> Seq<char> {
        match self {
            StreamKind::Message => "message-chunk"@,
            StreamKind::Preview => "preview-ask-chunk"@,
            StreamKind::Group => "group-chunk"@,
            StreamKind::Guide => "guide-chunk"@,
        }
    }

    /// The name of the UI channel that carries the events of the kind.
    pub fn channel(&self) -> (name: &'static str)
        ensures
            name@ == self.channel_name(),
    {
        match self {
            StreamKind::Message => "message-chunk",
            StreamKind::Preview => "preview-ask-chunk",
            StreamKind::Group => "group-chunk",
            StreamKind::Guide => "guide-chunk",
        }
    }
}

/// One slot of the registry as a value: how many handles it has issued, and
/// whether the last of them was cancelled.
pub struct SlotView {
    pub serial: nat,
    pub cancelled: bool,
}

/// A handle as a value: its kind and its number among the handles of that kind.
pub struct HandleView {
    pub kind: StreamKind,
    pub serial: nat,
}

/// The registry as a value: one slot per kind.
pub struct RegistryView {
    pub message: SlotView,
    pub preview: SlotView,
    pub group: SlotView,
    pub guide: SlotView,
}

impl RegistryView {
    /// The slot of `kind`.
    pub open spec fn slot(self, kind: StreamKind) -> SlotView {
        match kind {
            StreamKind::Message => self.message,
            StreamKind::Preview => self.preview,
            StreamKind::Group => self.group,
            StreamKind::Guide => self.guide,
        }
    }

    /// The registry with `slot` in place of the slot of `kind`.
    pub open spec fn with_slot(self, kind: StreamKind, slot: SlotView) -> RegistryView {
        match kind {
            StreamKind::Message => RegistryView { message: slot, ..self },
            StreamKind::Preview => RegistryView { preview: slot, ..self },
            StreamKind::Group => RegistryView { group: slot, ..self },
            StreamKind::Guide => RegistryView { guide: slot, ..self },
        }
    }

    /// A registry that has issued no handle yet.
    pub open spec fn empty() -> RegistryView {
        let idle = SlotView { serial: 0, cancelled: false };
        RegistryView { message: idle, preview: idle, group: idle, guide: idle }
    }

    /// `handle` is one of the handles that this registry has issued.
    pub open spec fn issued(self, handle: HandleView) -> bool {
        1 <= handle.serial <= self.slot(handle.kind).serial
    }

    /// A handle is cancelled once its slot has issued a later handle, or
    /// once its slot was cancelled while it held the handle.
    pub open spec fn is_cancelled(self, handle: HandleView) -> bool {
        let slot = self.slot(handle.kind);
        handle.serial != slot.serial || slot.cancelled
    }

    /// The registry after it has issued a fresh handle for `kind`.
    pub open spec fn new_handle(self, kind: StreamKind) -> RegistryView {
        self.with_slot(kind, SlotView { serial: self.slot(kind).serial + 1, cancelled: false })
    }

    /// The handle that `new_handle(kind)` issues.
    pub open spec fn next_handle(self, kind: StreamKind) -> HandleView {
        HandleView { kind, serial: self.slot(kind).serial + 1 }
    }

    /// The registry after the handle of `kind` was cancelled.
    pub open spec fn cancel(self, kind: StreamKind) -> RegistryView {
        self.with_slot(kind, SlotView { serial: self.slot(kind).serial, cancelled: true })
    }

    /// The registry after every kind's handle was cancelled.
    pub open spec fn cancel_all(self) -> RegistryView {
        RegistryView {
            message: SlotView { serial: self.message.serial, cancelled: true },
            preview: SlotView { serial: self.preview.serial, cancelled: true },
            group: SlotView { serial: self.group.serial, cancelled: true },
            guide: SlotView { serial: self.guide.serial, cancelled: true },
        }
    }
}

/// A token that a streaming task polls between chunks. Only the registry
/// makes one.
#[derive(Clone, Copy, Debug, PartialEq, Eq, Structural)]
pub struct CancellationHandle {
    kind: StreamKind,
    serial: u64,
}

impl View for CancellationHandle {
    type V = HandleView;

    closed spec fn view(&self) -> HandleView {
        HandleView { kind: self.kind, serial: self.serial as nat }
    }
}

impl CancellationHandle {
    /// The number of the handle among the handles of its kind, from 1 on.
    pub fn id(&self) -> (id: u64)
        ensures
            id == self@.serial,
    {
        self.serial
    }

    /// The kind of stream that the handle was issued for.
    pub fn kind(&self) -> (kind: StreamKind)
        ensures
            kind == self@.kind,
    {
        self.kind
    }
}

#[derive(Clone, Copy, Debug)]
struct Slot {
    serial: u64,
    cancelled: bool,
}

impl View for Slot {
    type V = SlotView;

    closed spec fn view(&self) -> SlotView {
        SlotView { serial: self.serial as nat, cancelled: self.cancelled }
    }
}

/// The process-wide registry of cancellation handles, one slot per stream
/// kind. Starting a stream of a kind supersedes the running one of that kind.
#[derive(Debug)]
pub struct StreamCancelState {
    message: Slot,
    preview: Slot,
    group: Slot,
    guide: Slot,
}

impl View for StreamCancelState {
    type V = RegistryView;

    closed spec fn view(&self) -> RegistryView {
        RegistryView {
            message: self.message@,
            preview: self.preview@,
            group: self.group@,
            guide: self.guide@,
        }
    }
}

impl StreamCancelState {
    /// A registry that has issued no handle yet.
    pub fn new() -> (registry: StreamCancelState)
        ensures
            registry@ == RegistryView::empty(),
    {
        let idle = Slot { serial: 0, cancelled: false };
        StreamCancelState { message: idle, preview: idle, group: idle, guide: idle }
    }

    fn slot(&self, kind: StreamKind) -> (slot: Slot)
        ensures
            slot@ == self@.slot(kind),
    {
        match kind {
            StreamKind::Message => self.message,
            StreamKind::Preview => self.preview,
            StreamKind::Group => self.group,
            StreamKind::Guide => self.guide,
        }
    }

    fn set_slot(&mut self, kind: StreamKind, slot: Slot)
        ensures
            final(self)@ == old(self)@.with_slot(kind, slot@),
    {
        match kind {
            StreamKind::Message => {
                self.message = slot;
            },
            StreamKind::Preview => {
                self.preview = slot;
            },
            StreamKind::Group => {
                self.group = slot;
            },
            StreamKind::Guide => {
                self.guide = slot;
            },
        }
    }

    /// Whether the slot of `kind` can still issue a handle: it can, until it
    /// has issued `u64::MAX` of them.
    pub fn can_issue(&self, kind: StreamKind) -> (yes: bool)
        ensures
            yes == (self@.slot(kind).serial < u64::MAX),
    {
        self.slot(kind).serial < u64::MAX
    }

    /// Cancels the handle that the slot of `kind` holds, if any, and issues a
    /// fresh handle for the slot. Every earlier handle of the kind is
    /// cancelled from now on; the other kinds are left as they are.
    pub fn new_handle(&mut self, kind: StreamKind) -> (handle: CancellationHandle)
        requires
            old(self)@.slot(kind).serial < u64::MAX,
        ensures
            final(self)@ == old(self)@.new_handle(kind),
            handle@ == old(self)@.next_handle(kind),
            !final(self)@.is_cancelled(handle@),
            forall|earlier: HandleView|
                #![trigger final(self)@.is_cancelled(earlier)]
                old(self)@.issued(earlier) && earlier.kind == kind ==> final(self)@.is_cancelled(
                    earlier,
                ),
    {
        let serial = self.slot(kind).serial + 1;
        self.set_slot(kind, Slot { serial, cancelled: false });
        CancellationHandle { kind, serial }
    }

    /// Cancels the handle that the slot of `kind` holds, without issuing
    /// another. Nothing changes for a slot that holds no live handle.
    pub fn cancel(&mut self, kind: StreamKind)
        ensures
            final(self)@ == old(self)@.cancel(kind),
    {
        let serial = self.slot(kind).serial;
        self.set_slot(kind, Slot { serial, cancelled: true });
    }

    /// Cancels the handle of every kind.
    pub fn cancel_all(&mut self)
        ensures
            final(self)@ == old(self)@.cancel_all(),
    {
        self.message.cancelled = true;
        self.preview.cancelled = true;
        self.group.cancelled = true;
        self.guide.cancelled = true;
    }

    /// Whether `handle` is cancelled. Does not block and changes nothing.
    pub fn is_cancelled(&self, handle: &CancellationHandle) -> (cancelled: bool)
        ensures
            cancelled == self@.is_cancelled(handle@),
    {
        let slot = self.slot(handle.kind);
        handle.serial != slot.serial || slot.cancelled
    }
}

impl Default for StreamCancelState {
    fn default() -> (registry: StreamCancelState)
        ensures
            registry@ == RegistryView::empty(),
    {
        StreamCancelState::new()
    }
}

/// Every handle of a registry that has issued none is cancelled: there is
/// nothing to poll yet.
pub proof fn lemma_empty_registry(handle: HandleView)
    requires
        handle.serial >= 1,
    ensures
        RegistryView::empty().is_cancelled(handle),
        !RegistryView::empty().issued(handle),
{
}

/// Issuing two handles for one kind in succession cancels the first and
/// leaves the second live.
pub proof fn lemma_second_handle_supersedes(registry: RegistryView, kind: StreamKind)
    ensures
        ({
            let first = registry.next_handle(kind);
            let once = registry.new_handle(kind);
            let second = once.next_handle(kind);
            let twice = once.new_handle(kind);
            &&& !once.is_cancelled(first)
            &&& twice.is_cancelled(first)
            &&& !twice.is_cancelled(second)
        }),
{
}

/// A slot has one live handle at most: two handles of one kind that are both
/// live are the same handle.
pub proof fn lemma_one_live_handle(registry: RegistryView, a: HandleView, b: HandleView)
    requires
        a.kind == b.kind,
        !registry.is_cancelled(a),
        !registry.is_cancelled(b),
    ensures
        a == b,
{
}

/// Cancellation is final: no operation of the registry makes a cancelled
/// handle live again.
pub proof fn lemma_cancelled_stays_cancelled(
    registry: RegistryView,
    handle: HandleView,
    kind: StreamKind,
)
    requires
        registry.issued(handle),
        registry.is_cancelled(handle),
    ensures
        registry.new_handle(kind).is_cancelled(handle),
        registry.cancel(kind).is_cancelled(handle),
        registry.cancel_all().is_cancelled(handle),
        registry.new_handle(kind).issued(handle),
        registry.cancel(kind).issued(handle),
        registry.cancel_all().issued(handle),
{
}

/// `cancel` reaches the handle of its kind and no other: handles of other
/// kinds keep their state, and so do they under `new_handle`.
pub proof fn lemma_kinds_are_independent(
    registry: RegistryView,
    handle: HandleView,
    kind: StreamKind,
)
    requires
        handle.kind != kind,
    ensures
        registry.cancel(kind).is_cancelled(handle) == registry.is_cancelled(handle),
        registry.new_handle(kind).is_cancelled(handle) == registry.is_cancelled(handle),
{
}

/// After `cancel(kind)` every handle of the kind is cancelled, and after
/// `cancel_all` every handle is.
pub proof fn lemma_cancel_reaches(registry: RegistryView, handle: HandleView)
    ensures
        registry.cancel(handle.kind).is_cancelled(handle),
        registry.cancel_all().is_cancelled(handle),
{
}

/// What a cancel request is aimed at.
#[derive(Clone, Copy, Debug, PartialEq, Eq, Structural)]
pub enum CancelTarget {
    All,
    Kind(StreamKind),
}

/// The target that a name in lower case stands for: `all`, or the name of a
/// kind. Other names stand for nothing.
pub open spec fn target_named(name: Seq<char>) -> Option<CancelTarget> {
    if name == "all"@ {
        Some(CancelTarget::All)
    } else if name == "message"@ {
        Some(CancelTarget::Kind(StreamKind::Message))
    } else if name == "preview"@ {
        Some(CancelTarget::Kind(StreamKind::Preview))
    } else if name == "group"@ {
        Some(CancelTarget::Kind(StreamKind::Group))
    } else if name == "guide"@ {
        Some(CancelTarget::Kind(StreamKind::Guide))
    } else {
        None
    }
}

/// The target of a cancel request that names `kind`, or nothing, which
/// means all. Upper and lower case are the same in a name.
pub open spec fn requested_target(kind: Option<Seq<char>>) -> Option<CancelTarget> {
    match kind {
        Some(name) => target_named(lowercase(name)),
        None => Some(CancelTarget::All),
    }
}

impl RegistryView {
    /// The registry after a cancel request aimed at `target`.
    pub open spec fn cancel_target(self, target: Option<CancelTarget>) -> RegistryView {
        match target {
            Some(CancelTarget::All) => self.cancel_all(),
            Some(CancelTarget::Kind(kind)) => self.cancel(kind),
            None => self,
        }
    }
}

/// The target that `name`, which is in lower case, stands for.
pub fn target_of(name: &str) -> (target: Option<CancelTarget>)
    ensures
        target == target_named(name@),
{
    if same_text(name, "all") {
        Some(CancelTarget::All)
    } else if same_text(name, "message") {
        Some(CancelTarget::Kind(StreamKind::Message))
    } else if same_text(name, "preview") {
        Some(CancelTarget::Kind(StreamKind::Preview))
    } else if same_text(name, "group") {
        Some(CancelTarget::Kind(StreamKind::Group))
    } else if same_text(name, "guide") {
        Some(CancelTarget::Kind(StreamKind::Guide))
    } else {
        None
    }
}

/// Carries out a cancel request of the UI: it names a kind, whose handle is
/// cancelled, or `all` or nothing, and then every handle is. A name that
/// stands for nothing cancels nothing. The request never fails.
pub fn cancel_stream(
    cancel: &mut StreamCancelState,
    kind: Option<String>,
) -> (done: Result<(), String>)
    ensures
        done is Ok,
        final(cancel)@ == old(cancel)@.cancel_target(
            requested_target(
                match kind {
                    Some(name) => Some(name@),
                    None => None,
                },
            ),
        ),
{
    let target = match kind {
        Some(name) => target_of(to_lowercase(name.as_str()).as_str()),
        None => Some(CancelTarget::All),
    };
    match target {
        Some(CancelTarget::All) => {
            cancel.cancel_all();
        },
        Some(CancelTarget::Kind(k)) => {
            cancel.cancel(k);
        },
        None => {},
    }
    Ok(())
}

} // verus!
