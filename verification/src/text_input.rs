//! `zwp_text_input_v3`, observed only to learn when an application wants typing — the signal
//! that raises a phone's soft keyboard.
//!
//! The compositor is deliberately an empty input method: it accepts `enable`, `disable` and
//! `commit`, and sends `enter`, `leave` and `done`, never a preedit or a commit string. Two
//! details the protocol punishes are kept here:
//!
//! * `enable` is double-buffered: it takes effect on `commit`, not when the request arrives.
//! * `leave` must be sent when focus goes away, and it resets the object's state, or a surface
//!   entered again later looks enabled while its client thinks it is not.
//!
//! Wayland objects are named here by their protocol ids and their client's id; the protocol
//! plumbing that owns the real objects sends what this module decides.

use vstd::prelude::*;

verus! {

/// Per-object state: what `enable`/`disable` asked for, what the last `commit` made real, and
/// the serial of the last `done`.
#[derive(Debug, Clone, Copy, PartialEq, Eq, Default)]
pub struct TextInputData {
    pub pending: bool,
    pub enabled: bool,
    pub serial: u32,
}

/// The requests of a text-input object that matter here; the rest (cursor rectangle,
/// surrounding text, content type) are an input method's inputs and are accepted and ignored.
#[derive(Debug, Clone, Copy, PartialEq, Eq, Structural)]
pub enum TextInputRequest {
    Enable,
    Disable,
    Commit,
    Other,
}

/// The state after `request`, and the serial to answer with `done` (on a commit only).
pub open spec fn spec_request(d: TextInputData, request: TextInputRequest) -> (TextInputData, Option<u32>) {
    match request {
        TextInputRequest::Enable => (TextInputData { pending: true, ..d }, None),
        TextInputRequest::Disable => (TextInputData { pending: false, ..d }, None),
        TextInputRequest::Commit => {
            let serial = (if d.serial < u32::MAX { d.serial + 1 } else { 0 }) as u32;
            (TextInputData { enabled: d.pending, serial, ..d }, Some(serial))
        },
        TextInputRequest::Other => (d, None),
    }
}

impl TextInputData {
    /// A fresh object: nothing asked for, nothing enabled.
    pub fn new() -> (d: Self)
        ensures
            d == (TextInputData { pending: false, enabled: false, serial: 0 }),
    {
        TextInputData { pending: false, enabled: false, serial: 0 }
    }

    /// Apply one request. A commit makes the pending state real and advances the serial
    /// (wrapping), which is returned for the `done` event: the serial must advance on every
    /// commit or a client that tracks it desyncs.
    pub fn request(&mut self, request: TextInputRequest) -> (done: Option<u32>)
        ensures
            (*final(self), done) == spec_request(*old(self), request),
    {
        match request {
            TextInputRequest::Enable => {
                self.pending = true;
                None
            },
            TextInputRequest::Disable => {
                self.pending = false;
                None
            },
            TextInputRequest::Commit => {
                self.enabled = self.pending;
                self.serial = self.serial.wrapping_add(1);
                Some(self.serial)
            },
            TextInputRequest::Other => None,
        }
    }

    /// Focus left this object's surface: leaving resets the client's state per the protocol,
    /// and ours follows.
    pub fn leave(&mut self)
        ensures
            final(self).pending == false,
            final(self).enabled == false,
            final(self).serial == old(self).serial,
    {
        self.pending = false;
        self.enabled = false;
    }
}

/// `enable` is double-buffered: enabling or disabling changes nothing that is in force until a
/// commit, and a commit puts in force exactly the last enable or disable before it.
pub proof fn law_enable_takes_effect_on_commit(d: TextInputData, r: TextInputRequest)
    ensures
        r != TextInputRequest::Commit ==> spec_request(d, r).0.enabled == d.enabled,
        spec_request(spec_request(d, TextInputRequest::Enable).0, TextInputRequest::Commit).0.enabled,
        !spec_request(spec_request(d, TextInputRequest::Disable).0, TextInputRequest::Commit).0.enabled,
        spec_request(d, TextInputRequest::Commit).1 == Some(spec_request(d, TextInputRequest::Commit).0.serial),
        spec_request(d, TextInputRequest::Commit).0.serial != d.serial,
{
}

/// The state after a run of requests, in order.
pub open spec fn after_requests(d: TextInputData, requests: Seq<TextInputRequest>) -> TextInputData
    decreases requests.len(),
{
    if requests.len() == 0 {
        d
    } else {
        spec_request(after_requests(d, requests.drop_last()), requests.last()).0
    }
}

/// What the last `enable` or `disable` of a run asked for: `Some(true)` for an enable,
/// `Some(false)` for a disable, `None` when the run holds neither.
pub open spec fn last_toggle(requests: Seq<TextInputRequest>) -> Option<bool>
    decreases requests.len(),
{
    if requests.len() == 0 {
        None
    } else if requests.last() == TextInputRequest::Enable {
        Some(true)
    } else if requests.last() == TextInputRequest::Disable {
        Some(false)
    } else {
        last_toggle(requests.drop_last())
    }
}

/// Requests other than `enable`, `disable` and `commit` (cursor rectangle, surrounding text,
/// content type) are accepted and ignored: they change nothing and are not answered.
pub proof fn law_other_requests_are_ignored(d: TextInputData)
    ensures
        spec_request(d, TextInputRequest::Other).0 == d,
        spec_request(d, TextInputRequest::Other).1 is None,
{
}

/// Only a commit is answered, and only a commit changes what is in force; `enable` and
/// `disable` change only what is asked for.
pub proof fn law_only_a_commit_is_answered(d: TextInputData, r: TextInputRequest)
    ensures
        spec_request(d, r).1 is Some <==> r == TextInputRequest::Commit,
        r != TextInputRequest::Commit ==> spec_request(d, r).0.enabled == d.enabled && spec_request(
            d,
            r,
        ).0.serial == d.serial,
        r == TextInputRequest::Enable ==> spec_request(d, r).0.pending,
        r == TextInputRequest::Disable ==> !spec_request(d, r).0.pending,
        r == TextInputRequest::Commit ==> spec_request(d, r).0.pending == d.pending,
{
}

/// Whatever a client sends between them, a commit puts in force the last `enable` or
/// `disable` before it (or what was already asked for, when there was none): a client that
/// enables, sends its cursor rectangle, surrounding text and content type, and commits is
/// enabled.
pub proof fn law_a_commit_puts_the_last_toggle_in_force(d: TextInputData, requests: Seq<TextInputRequest>)
    ensures
        after_requests(d, requests.push(TextInputRequest::Commit)).enabled == match last_toggle(requests) {
            Some(on) => on,
            None => d.pending,
        },
{
    lemma_pending_is_the_last_toggle(d, requests);
    assert(requests.push(TextInputRequest::Commit).drop_last() =~= requests);
}

/// What is asked for after a run is its last `enable` or `disable`, or what was asked for
/// before it.
proof fn lemma_pending_is_the_last_toggle(d: TextInputData, requests: Seq<TextInputRequest>)
    ensures
        after_requests(d, requests).pending == match last_toggle(requests) {
            Some(on) => on,
            None => d.pending,
        },
    decreases requests.len(),
{
    if requests.len() > 0 {
        lemma_pending_is_the_last_toggle(d, requests.drop_last());
    }
}

/// A live text-input object: its protocol id, the client that owns it, and its state.
#[derive(Debug, Clone, Copy, PartialEq, Eq)]
pub struct TextInputObject {
    pub id: u64,
    pub client: u64,
    pub data: TextInputData,
}

/// A surface holding keyboard focus: its protocol id and its client.
#[derive(Debug, Clone, Copy, PartialEq, Eq, Structural)]
pub struct FocusSurface {
    pub id: u64,
    pub client: u64,
}

/// What the protocol plumbing must send.
#[derive(Debug, Clone, Copy, PartialEq, Eq, Structural)]
pub enum TextInputEvent {
    Enter { object: u64, surface: u64 },
    Leave { object: u64, surface: u64 },
}

/// Every live text-input object, the surface holding keyboard focus, and whether the focused
/// application is asking for text input.
#[derive(Debug, Clone)]
pub struct TextInputs {
    objects: Vec<TextInputObject>,
    focus: Option<FocusSurface>,
    active: bool,
}

/// Whether some object of the focused surface's client is enabled.
pub open spec fn spec_active(objects: Seq<TextInputObject>, focus: Option<FocusSurface>) -> bool {
    match focus {
        Some(f) => exists|k: int| 0 <= k < objects.len() && objects[k].client == f.client && objects[k].data.enabled,
        None => false,
    }
}

/// The `leave` events for `surface`, one per object of its client, in order.
pub open spec fn leaves(objects: Seq<TextInputObject>, surface: FocusSurface) -> Seq<TextInputEvent>
    decreases objects.len(),
{
    if objects.len() == 0 {
        Seq::empty()
    } else {
        leaves(objects.drop_last(), surface) + if objects.last().client == surface.client {
            seq![TextInputEvent::Leave { object: objects.last().id, surface: surface.id }]
        } else {
            Seq::empty()
        }
    }
}

/// The `enter` events for `surface`, one per object of its client, in order.
pub open spec fn enters(objects: Seq<TextInputObject>, surface: FocusSurface) -> Seq<TextInputEvent>
    decreases objects.len(),
{
    if objects.len() == 0 {
        Seq::empty()
    } else {
        enters(objects.drop_last(), surface) + if objects.last().client == surface.client {
            seq![TextInputEvent::Enter { object: objects.last().id, surface: surface.id }]
        } else {
            Seq::empty()
        }
    }
}

/// The objects after focus leaves `surface`: those of its client reset, the rest unchanged.
pub open spec fn after_leave(objects: Seq<TextInputObject>, surface: FocusSurface) -> Seq<TextInputObject> {
    objects.map_values(
        |o: TextInputObject|
            if o.client == surface.client {
                TextInputObject { data: TextInputData { pending: false, enabled: false, ..o.data }, ..o }
            } else {
                o
            },
    )
}

impl TextInputs {
    /// The live objects.
    pub closed spec fn spec_objects(&self) -> Seq<TextInputObject> {
        self.objects@
    }

    /// The surface holding keyboard focus.
    pub closed spec fn spec_focus(&self) -> Option<FocusSurface> {
        self.focus
    }

    /// The recorded answer to "does the focused application want text input".
    pub closed spec fn spec_active_flag(&self) -> bool {
        self.active
    }

    /// The recorded answer is the true one.
    pub open spec fn consistent(&self) -> bool {
        self.spec_active_flag() == spec_active(self.spec_objects(), self.spec_focus())
    }

    /// No objects, no focus.
    pub fn new() -> (t: Self)
        ensures
            t.spec_objects().len() == 0,
            t.spec_focus() is None,
            !t.spec_active_flag(),
            t.consistent(),
    {
        TextInputs { objects: Vec::new(), focus: None, active: false }
    }

    /// Whether the focused application is asking for text input right now.
    pub fn active(&self) -> (a: bool)
        ensures
            a == self.spec_active_flag(),
    {
        self.active
    }

    /// Recompute the answer from the objects and the focus.
    fn recompute(&mut self)
        ensures
            final(self).spec_objects() == old(self).spec_objects(),
            final(self).spec_focus() == old(self).spec_focus(),
            final(self).consistent(),
    {
        let mut found = false;
        if let Some(f) = self.focus {
            let mut k: usize = 0;
            while k < self.objects.len()
                invariant
                    self.focus == Some(f),
                    k <= self.objects@.len(),
                    found == exists|j: int| 0 <= j < k && self.objects@[j].client == f.client && self.objects@[j].data.enabled,
                decreases self.objects@.len() - k,
            {
                let o = self.objects[k];
                if o.client == f.client && o.data.enabled {
                    found = true;
                }
                k = k + 1;
            }
        }
        self.active = found;
    }

    /// Keyboard focus moved to `surface` (or away). Leaves the old surface's objects — resetting
    /// their state — and enters the new one's; nothing happens when the focus did not change.
    /// Returns the events to send, leaves first.
    pub fn focus_changed(&mut self, surface: Option<FocusSurface>) -> (events: Vec<TextInputEvent>)
        ensures
            match (old(self).spec_focus(), surface) {
                (Some(a), Some(b)) if a.id == b.id => {
                    &&& events@.len() == 0
                    &&& *final(self) == *old(self)
                },
                (None, None) => {
                    &&& events@.len() == 0
                    &&& *final(self) == *old(self)
                },
                (old_focus, new_focus) => {
                    let objects = match old_focus {
                        Some(o) => after_leave(old(self).spec_objects(), o),
                        None => old(self).spec_objects(),
                    };
                    &&& events@ == (match old_focus {
                        Some(o) => leaves(old(self).spec_objects(), o),
                        None => Seq::empty(),
                    }) + (match new_focus {
                        Some(n) => enters(old(self).spec_objects(), n),
                        None => Seq::empty(),
                    })
                    &&& final(self).spec_objects() == objects
                    &&& final(self).spec_focus() == new_focus
                    &&& final(self).consistent()
                },
            },
    {
        let same = match (self.focus, surface) {
            (Some(a), Some(b)) => a.id == b.id,
            (None, None) => true,
            _ => false,
        };
        if same {
            return Vec::new();
        }
        let ghost before = self.objects@;
        let mut events: Vec<TextInputEvent> = Vec::new();
        if let Some(old_focus) = self.focus {
            let mut k: usize = 0;
            while k < self.objects.len()
                invariant
                    k <= self.objects@.len(),
                    self.objects@.len() == before.len(),
                    events@ == leaves(before.subrange(0, k as int), old_focus),
                    forall|j: int|
                        0 <= j < before.len() ==> self.objects@[j] == if j < k {
                            after_leave(before, old_focus)[j]
                        } else {
                            before[j]
                        },
                decreases self.objects@.len() - k,
            {
                let o = self.objects[k];
                proof {
                    assert(before.subrange(0, k + 1).drop_last() =~= before.subrange(0, k as int));
                }
                if o.client == old_focus.client {
                    events.push(TextInputEvent::Leave { object: o.id, surface: old_focus.id });
                    let mut cleared = o;
                    cleared.data.pending = false;
                    cleared.data.enabled = false;
                    self.objects.set(k, cleared);
                }
                k = k + 1;
            }
            proof {
                assert(before.subrange(0, before.len() as int) =~= before);
                assert(self.objects@ =~= after_leave(before, old_focus));
            }
        }
        let ghost left = events@;
        if let Some(new_focus) = surface {
            let mut k: usize = 0;
            while k < self.objects.len()
                invariant
                    k <= self.objects@.len(),
                    self.objects@.len() == before.len(),
                    forall|j: int| 0 <= j < before.len() ==> self.objects@[j].id == before[j].id && self.objects@[j].client == before[j].client,
                    events@ == left + enters(before.subrange(0, k as int), new_focus),
                decreases self.objects@.len() - k,
            {
                let o = self.objects[k];
                proof {
                    assert(before.subrange(0, k + 1).drop_last() =~= before.subrange(0, k as int));
                }
                if o.client == new_focus.client {
                    events.push(TextInputEvent::Enter { object: o.id, surface: new_focus.id });
                }
                proof {
                    assert(events@ =~= left + enters(before.subrange(0, k + 1), new_focus));
                }
                k = k + 1;
            }
            proof {
                assert(before.subrange(0, before.len() as int) =~= before);
            }
        }
        self.focus = surface;
        self.recompute();
        events
    }

    /// A client created a text-input object. It starts disabled; if its client holds the focus
    /// it is entered at once, since no later focus change will carry the `enter`.
    pub fn add_object(&mut self, id: u64, client: u64) -> (enter: Option<TextInputEvent>)
        ensures
            final(self).spec_objects() == old(self).spec_objects().push(
                TextInputObject { id, client, data: TextInputData { pending: false, enabled: false, serial: 0 } },
            ),
            final(self).spec_focus() == old(self).spec_focus(),
            final(self).consistent(),
            enter == match old(self).spec_focus() {
                Some(f) if f.client == client => Some(TextInputEvent::Enter { object: id, surface: f.id }),
                _ => None,
            },
    {
        self.objects.push(TextInputObject { id, client, data: TextInputData::new() });
        self.recompute();
        match self.focus {
            Some(f) if f.client == client => Some(TextInputEvent::Enter { object: id, surface: f.id }),
            _ => None,
        }
    }

    /// A request on object `id`. Returns the serial to answer with `done` on a commit. A request
    /// on an object that is not live changes nothing.
    pub fn object_request(&mut self, id: u64, request: TextInputRequest) -> (done: Option<u32>)
        ensures
            final(self).spec_focus() == old(self).spec_focus(),
            final(self).spec_objects().len() == old(self).spec_objects().len(),
            final(self).consistent(),
            (exists|k: int| 0 <= k < old(self).spec_objects().len() && old(self).spec_objects()[k].id == id) ==> {
                let k = choose|k: int| 0 <= k < old(self).spec_objects().len() && old(self).spec_objects()[k].id == id
                    && forall|j: int| 0 <= j < k ==> old(self).spec_objects()[j].id != id;
                let (next, answer) = spec_request(old(self).spec_objects()[k].data, request);
                &&& done == answer
                &&& final(self).spec_objects() == old(self).spec_objects().update(
                    k,
                    TextInputObject { data: next, ..old(self).spec_objects()[k] },
                )
            },
            !(exists|k: int| 0 <= k < old(self).spec_objects().len() && old(self).spec_objects()[k].id == id) ==> {
                &&& done is None
                &&& final(self).spec_objects() == old(self).spec_objects()
            },
    {
        let mut k: usize = 0;
        while k < self.objects.len()
            invariant
                k <= self.objects@.len(),
                self.objects@ == old(self).objects@,
                self.focus == old(self).focus,
                forall|j: int| 0 <= j < k ==> self.objects@[j].id != id,
            decreases self.objects@.len() - k,
        {
            if self.objects[k].id == id {
                let mut o = self.objects[k];
                let done = o.data.request(request);
                self.objects.set(k, o);
                proof {
                    let w = choose|w: int| 0 <= w < old(self).objects@.len() && old(self).objects@[w].id == id
                        && forall|j: int| 0 <= j < w ==> old(self).objects@[j].id != id;
                    assert(w == k) by {
                        assert(0 <= k < old(self).objects@.len() && old(self).objects@[k as int].id == id
                            && forall|j: int| 0 <= j < k ==> old(self).objects@[j].id != id);
                        if w < k {
                        } else if w > k {
                        }
                    }
                }
                self.recompute();
                return done;
            }
            k = k + 1;
        }
        self.recompute();
        None
    }

    /// Object `id` was destroyed: it no longer counts.
    pub fn remove_object(&mut self, id: u64)
        ensures
            final(self).spec_focus() == old(self).spec_focus(),
            final(self).spec_objects() == old(self).spec_objects().filter(|o: TextInputObject| o.id != id),
            final(self).consistent(),
    {
        let mut kept: Vec<TextInputObject> = Vec::new();
        let mut k: usize = 0;
        while k < self.objects.len()
            invariant
                k <= self.objects@.len(),
                self.objects@ == old(self).objects@,
                kept@ == self.objects@.subrange(0, k as int).filter(|o: TextInputObject| o.id != id),
            decreases self.objects@.len() - k,
        {
            let o = self.objects[k];
            proof {
                assert(self.objects@.subrange(0, k + 1).drop_last() =~= self.objects@.subrange(0, k as int));
                reveal_with_fuel(Seq::<TextInputObject>::filter, 1);
            }
            if o.id != id {
                kept.push(o);
            }
            k = k + 1;
        }
        proof {
            assert(self.objects@.subrange(0, self.objects@.len() as int) =~= self.objects@);
        }
        self.objects = kept;
        self.recompute();
    }
}

} // verus!
