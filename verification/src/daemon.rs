//! The Transformers backend runs in a helper process that answers on one
//! stream of lines. This is the table that leads each answer to the request
//! it belongs to.

use crate::json::{json_document, json_member, member, member_text, parse, text_of_member};
use crate::model::text_view;
use crate::text::same_text;
use vstd::prelude::*;

verus! {

/// What a request to the helper process waits for.
#[derive(Clone, Copy, Debug, PartialEq, Eq, Structural)]
pub enum SlotKind {
    /// The model is being loaded.
    Load,
    /// The model is being unloaded.
    Unload,
    /// Text is being generated.
    Infer,
}

/// One line of the helper process: what the table reads of it.
#[derive(Debug, Clone, PartialEq, Eq)]
pub struct DaemonMessage {
    /// The request that the line belongs to, where it names one.
    pub req_id: Option<String>,
    /// Whether the line has the field `done`.
    pub done: bool,
    /// Whether the line has the field `error`.
    pub error: bool,
    /// Whether the line has the field `loaded`.
    pub loaded: bool,
    /// Whether the line has the field `unloaded`.
    pub unloaded: bool,
    /// The text under `token`, where it is a string.
    pub token: Option<String>,
}

/// A line with its texts as sequences of characters.
pub struct DaemonMessageView {
    pub req_id: Option<Seq<char>>,
    pub done: bool,
    pub error: bool,
    pub loaded: bool,
    pub unloaded: bool,
    pub token: Option<Seq<char>>,
}

impl View for DaemonMessage {
    type V = DaemonMessageView;

    open spec fn view(&self) -> DaemonMessageView {
        DaemonMessageView {
            req_id: text_view(self.req_id),
            done: self.done,
            error: self.error,
            loaded: self.loaded,
            unloaded: self.unloaded,
            token: text_view(self.token),
        }
    }
}

/// What a line says: nothing where it is no JSON.
pub open spec fn message_of(line: Seq<char>) -> Option<DaemonMessageView> {
    match json_document(line) {
        Some(doc) => Some(
            DaemonMessageView {
                req_id: member_text(doc, "req_id"@),
                done: json_member(doc, "done"@) is Some,
                error: json_member(doc, "error"@) is Some,
                loaded: json_member(doc, "loaded"@) is Some,
                unloaded: json_member(doc, "unloaded"@) is Some,
                token: member_text(doc, "token"@),
            },
        ),
        None => None,
    }
}

/// Reads one line of the helper process.
pub fn read_line(line: &str) -> (message: Option<DaemonMessage>)
    ensures
        match message {
            Some(m) => message_of(line@) == Some(m@),
            None => message_of(line@) is None,
        },
{
    let doc = match parse(line) {
        Some(doc) => doc,
        None => {
            return None;
        },
    };
    Some(
        DaemonMessage {
            req_id: text_of_member(&doc, "req_id"),
            done: member(&doc, "done").is_some(),
            error: member(&doc, "error").is_some(),
            loaded: member(&doc, "loaded").is_some(),
            unloaded: member(&doc, "unloaded").is_some(),
            token: text_of_member(&doc, "token"),
        },
    )
}

/// What a line means to the request it belongs to.
#[derive(Debug, Clone, PartialEq, Eq)]
pub enum Signal {
    /// A fragment of generated text.
    Token(String),
    /// What the request waited for has happened, or has failed.
    Complete,
    /// Nothing that concerns the request.
    Nothing,
}

/// What a line means, with its text as a sequence of characters.
pub enum SignalView {
    Token(Seq<char>),
    Complete,
    Nothing,
}

impl View for Signal {
    type V = SignalView;

    open spec fn view(&self) -> SignalView {
        match *self {
            Signal::Token(t) => SignalView::Token(t@),
            Signal::Complete => SignalView::Complete,
            Signal::Nothing => SignalView::Nothing,
        }
    }
}

/// What a line means to a request of the given kind. A load is complete
/// with `loaded`, an unload with `unloaded`, a generation with `done`; each
/// is complete with `error` too. Any other line is a fragment for a
/// generation, the empty one where the line names none, and nothing for a
/// load or an unload.
pub open spec fn signal_of(kind: SlotKind, message: DaemonMessageView) -> SignalView {
    match kind {
        SlotKind::Load => if message.loaded || message.error {
            SignalView::Complete
        } else {
            SignalView::Nothing
        },
        SlotKind::Unload => if message.unloaded || message.error {
            SignalView::Complete
        } else {
            SignalView::Nothing
        },
        SlotKind::Infer => if message.done || message.error {
            SignalView::Complete
        } else {
            SignalView::Token(
                match message.token {
                    Some(t) => t,
                    None => Seq::empty(),
                },
            )
        },
    }
}

/// What a line means to a request of the given kind.
pub fn signal(kind: SlotKind, message: &DaemonMessage) -> (s: Signal)
    ensures
        s@ == signal_of(kind, message@),
{
    match kind {
        SlotKind::Load => if message.loaded || message.error {
            Signal::Complete
        } else {
            Signal::Nothing
        },
        SlotKind::Unload => if message.unloaded || message.error {
            Signal::Complete
        } else {
            Signal::Nothing
        },
        SlotKind::Infer => if message.done || message.error {
            Signal::Complete
        } else {
            Signal::Token(
                match &message.token {
                    Some(t) => t.clone(),
                    None => String::new(),
                },
            )
        },
    }
}

/// One request that waits for its answer.
#[derive(Debug, Clone, PartialEq, Eq)]
pub struct Slot {
    pub req_id: String,
    pub kind: SlotKind,
}

/// The requests that wait for their answers.
pub struct Correlation {
    slots: Vec<Slot>,
}

/// The slots without those of the given request.
pub open spec fn without(slots: Seq<Slot>, req_id: Seq<char>) -> Seq<Slot> {
    slots.filter(|s: Slot| s.req_id@ != req_id)
}

/// The kind of the first slot of the given request, if there is one.
pub open spec fn kind_of(slots: Seq<Slot>, req_id: Seq<char>) -> Option<SlotKind>
    decreases slots.len(),
{
    if slots.len() == 0 {
        None
    } else if slots[0].req_id@ == req_id {
        Some(slots[0].kind)
    } else {
        kind_of(slots.skip(1), req_id)
    }
}

/// Where an answer goes.
#[derive(Debug, Clone, PartialEq, Eq)]
pub struct Delivery {
    /// The kind of the request that the line belongs to, where the line
    /// names a request that waits.
    pub kind: Option<SlotKind>,
    /// What the line means to that request.
    pub signal: Signal,
}

/// What the table does with one line: the request that the line names gets
/// its signal, if it waits; a line with `done` takes its request out of the
/// table, whether or not it waited. A line that names no request changes
/// nothing.
pub open spec fn routed(slots: Seq<Slot>, message: DaemonMessageView) -> (Seq<Slot>, Option<
    SlotKind,
>, SignalView) {
    match message.req_id {
        Some(id) => (
            if message.done {
                without(slots, id)
            } else {
                slots
            },
            kind_of(slots, id),
            match kind_of(slots, id) {
                Some(kind) => signal_of(kind, message),
                None => SignalView::Nothing,
            },
        ),
        None => (slots, None, SignalView::Nothing),
    }
}

impl Correlation {
    /// The slots, in the order in which they were registered.
    pub closed spec fn slots(&self) -> Seq<Slot> {
        self.slots@
    }

    /// A table in which nothing waits.
    pub fn new() -> (table: Self)
        ensures
            table.slots() == Seq::<Slot>::empty(),
    {
        Correlation { slots: Vec::new() }
    }

    fn remove_all(&mut self, req_id: &str)
        ensures
            final(self).slots() == without(old(self).slots(), req_id@),
    {
        let mut kept: Vec<Slot> = Vec::new();
        let ghost all = self.slots@;
        let ghost keep = |s: Slot| s.req_id@ != req_id@;
        let mut i: usize = 0;
        assert(all.take(0).filter(keep) =~= Seq::<Slot>::empty());
        while i < self.slots.len()
            invariant
                0 <= i <= self.slots.len(),
                all == self.slots@,
                keep == (|s: Slot| s.req_id@ != req_id@),
                kept@ == all.take(i as int).filter(keep),
            decreases self.slots.len() - i,
        {
            proof {
                let done = all.take(i as int);
                let next = all.take(i + 1);
                assert(next.drop_last() =~= done);
                assert(next.last() == all[i as int]);
                reveal(Seq::filter);
            }
            if !same_text(self.slots[i].req_id.as_str(), req_id) {
                kept.push(Slot { req_id: self.slots[i].req_id.clone(), kind: self.slots[i].kind });
                assert(kept@.last() == all[i as int]);
            }
            i += 1;
        }
        assert(all.take(all.len() as int) =~= all);
        self.slots = kept;
    }

    /// Lets a request wait for its answer. A request of the same identifier
    /// that waited before waits no longer.
    pub fn register(&mut self, req_id: String, kind: SlotKind)
        ensures
            final(self).slots() == without(old(self).slots(), req_id@).push(Slot { req_id, kind }),
    {
        self.remove_all(req_id.as_str());
        self.slots.push(Slot { req_id, kind });
    }

    /// The kind of the request of the given identifier, if it waits.
    pub fn waiting(&self, req_id: &str) -> (kind: Option<SlotKind>)
        ensures
            kind == kind_of(self.slots(), req_id@),
    {
        let mut i: usize = 0;
        assert(self.slots@.skip(0) =~= self.slots@);
        while i < self.slots.len()
            invariant
                0 <= i <= self.slots.len(),
                kind_of(self.slots@, req_id@) == kind_of(self.slots@.skip(i as int), req_id@),
            decreases self.slots.len() - i,
        {
            let ghost rest = self.slots@.skip(i as int);
            assert(rest.len() > 0 && rest[0] == self.slots@[i as int]);
            assert(rest.skip(1) =~= self.slots@.skip(i + 1));
            if same_text(self.slots[i].req_id.as_str(), req_id) {
                return Some(self.slots[i].kind);
            }
            i += 1;
        }
        None
    }

    /// Leads one line to the request it belongs to.
    pub fn dispatch(&mut self, message: &DaemonMessage) -> (delivery: Delivery)
        ensures
            (final(self).slots(), delivery.kind, delivery.signal@) == routed(
                old(self).slots(),
                message@,
            ),
    {
        let id = match &message.req_id {
            Some(id) => id,
            None => {
                return Delivery { kind: None, signal: Signal::Nothing };
            },
        };
        let kind = self.waiting(id.as_str());
        let s = match kind {
            Some(k) => signal(k, message),
            None => Signal::Nothing,
        };
        if message.done {
            self.remove_all(id.as_str());
        }
        Delivery { kind, signal: s }
    }

    /// The helper process has ended: nothing waits any longer.
    pub fn clear(&mut self)
        ensures
            final(self).slots() == Seq::<Slot>::empty(),
    {
        self.slots.clear();
    }

    /// How many requests wait.
    pub fn len(&self) -> (n: usize)
        ensures
            n == self.slots().len(),
    {
        self.slots.len()
    }
}

} // verus!
