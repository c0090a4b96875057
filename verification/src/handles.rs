//! The capability surface exposed to guest code: a store of typed handles to
//! host-owned objects.
//!
//! Guest code never sees host memory; it holds opaque handle identifiers
//! into this store. Every operation checks the tagged variant behind a handle
//! before touching it: a handle of the wrong concrete type yields a reported
//! error and leaves the store untouched.

use vstd::prelude::*;

verus! {

/// A note object owned by the host; the beat position travels as its IEEE
/// 754 bit pattern so that the store carries no floating-point state.
#[derive(Clone, Copy, PartialEq, Eq, Structural, Debug)]
pub struct ColorNote {
    /// Bit pattern of the note's 32-bit beat position.
    pub beat_bits: u32,
}

/// The host's active domain aggregate: an ordered collection of notes.
#[derive(Clone, PartialEq, Eq, Debug)]
pub struct Beatmap {
    /// The notes added so far, in insertion order.
    pub notes: Vec<ColorNote>,
}

/// What one handle stands for: a closed set of exposable host types, told
/// apart by pattern matching rather than by reflective downcasts.
#[derive(Clone, PartialEq, Eq, Debug)]
pub enum HandleValue {
    /// The domain aggregate.
    Beatmap(Beatmap),
    /// A single note.
    ColorNote(ColorNote),
}

/// The model of a handle's content.
#[verifier::ext_equal]
pub enum HandleVal {
    Beatmap(Seq<ColorNote>),
    ColorNote(ColorNote),
}

impl View for HandleValue {
    type V = HandleVal;

    open spec fn view(&self) -> HandleVal {
        match self {
            HandleValue::Beatmap(b) => HandleVal::Beatmap(b.notes@),
            HandleValue::ColorNote(n) => HandleVal::ColorNote(*n),
        }
    }
}

impl DeepView for HandleValue {
    type V = HandleVal;

    open spec fn deep_view(&self) -> HandleVal {
        self.view()
    }
}

/// Why a capability operation rejected a handle.
#[derive(Clone, Copy, PartialEq, Eq, Structural, Debug)]
pub enum BindingError {
    /// The guest passed a null reference.
    NullHandle,
    /// The identifier does not name a live entry of the store.
    UnknownHandle,
    /// The entry behind the handle is of the wrong concrete type.
    TypeMismatch,
}

/// The identifier under which the host's beatmap aggregate is exposed to the
/// guest as an immutable global.
pub const BEATMAP_HANDLE: usize = 0;

/// The store of host objects reachable from guest code. Entry
/// `BEATMAP_HANDLE` always holds the beatmap aggregate.
pub struct HandleStore {
    entries: Vec<HandleValue>,
}

impl View for HandleStore {
    type V = Seq<HandleVal>;

    closed spec fn view(&self) -> Seq<HandleVal> {
        self.entries.deep_view()
    }
}

/// What `add_color_note` must answer for given handles: the precise error,
/// or leave to act.
pub open spec fn spec_add_note_check(
    s: Seq<HandleVal>,
    beatmap_h: Option<usize>,
    note_h: Option<usize>,
) -> Result<(), BindingError> {
    if beatmap_h is None || note_h is None {
        Err(BindingError::NullHandle)
    } else if beatmap_h.unwrap() >= s.len() || note_h.unwrap() >= s.len() {
        Err(BindingError::UnknownHandle)
    } else if !(s[beatmap_h.unwrap() as int] is Beatmap) || !(s[note_h.unwrap() as int] is ColorNote) {
        Err(BindingError::TypeMismatch)
    } else {
        Ok(())
    }
}

/// The store after a successful `add_color_note`: only the beatmap entry
/// changes, by appending the note behind `note_h`.
pub open spec fn spec_add_note_effect(s: Seq<HandleVal>, beatmap_h: usize, note_h: usize) -> Seq<
    HandleVal,
>
    recommends
        spec_add_note_check(s, Some(beatmap_h), Some(note_h)) is Ok,
{
    s.update(
        beatmap_h as int,
        HandleVal::Beatmap(s[beatmap_h as int]->Beatmap_0.push(s[note_h as int]->ColorNote_0)),
    )
}

/// Capability isolation law: a binding handed live handles of which one has
/// the wrong concrete type answers exactly the type-mismatch error — and so,
/// by the contract of `HandleStore::add_color_note`, leaves every entry of
/// the store exactly as it was; no entry is read as, or written through, a
/// type it does not have.
pub proof fn lemma_capability_isolation(
    s: Seq<HandleVal>,
    beatmap_h: Option<usize>,
    note_h: Option<usize>,
)
    requires
        beatmap_h is Some,
        note_h is Some,
        beatmap_h.unwrap() < s.len(),
        note_h.unwrap() < s.len(),
        !(s[beatmap_h.unwrap() as int] is Beatmap) || !(s[note_h.unwrap() as int] is ColorNote),
    ensures
        spec_add_note_check(s, beatmap_h, note_h) == Err::<(), BindingError>(
            BindingError::TypeMismatch,
        ),
{
}

impl HandleValue {
    /// An owned copy with the same content.
    pub fn duplicate(&self) -> (r: HandleValue)
        ensures
            r@ == self@,
    {
        match self {
            HandleValue::Beatmap(b) => HandleValue::Beatmap(
                Beatmap { notes: vstd::slice::slice_to_vec(b.notes.as_slice()) },
            ),
            HandleValue::ColorNote(n) => HandleValue::ColorNote(*n),
        }
    }
}

impl HandleStore {
    /// An owned copy of the whole store, for host-side inspection.
    pub fn duplicate(&self) -> (r: HandleStore)
        ensures
            r@ == self@,
    {
        let mut entries: Vec<HandleValue> = Vec::new();
        let mut i: usize = 0;
        proof {
            assert(entries.deep_view() =~= self@.take(0));
        }
        while i < self.entries.len()
            invariant
                i <= self.entries.len(),
                entries.deep_view() == self@.take(i as int),
            decreases self.entries.len() - i,
        {
            let ghost pre = entries.deep_view();
            let dup = self.entries[i].duplicate();
            proof {
                assert(dup@ == self@[i as int]);
            }
            entries.push(dup);
            proof {
                assert(entries.deep_view() =~= pre.push(dup@));
                assert(pre.push(dup@) =~= self@.take(i as int + 1));
            }
            i = i + 1;
        }
        proof {
            assert(self@.take(self@.len() as int) =~= self@);
        }
        HandleStore { entries }
    }

    /// A fresh store holding only the host's (empty) beatmap aggregate at
    /// `BEATMAP_HANDLE`.
    pub fn new() -> (r: HandleStore)
        ensures
            r@ == seq![HandleVal::Beatmap(Seq::<ColorNote>::empty())],
    {
        let mut entries: Vec<HandleValue> = Vec::new();
        entries.push(HandleValue::Beatmap(Beatmap { notes: Vec::new() }));
        let r = HandleStore { entries };
        proof {
            assert(r@ =~= seq![HandleVal::Beatmap(Seq::<ColorNote>::empty())]);
        }
        r
    }

    /// The number of live handles.
    pub fn len(&self) -> (n: usize)
        ensures
            n == self@.len(),
    {
        self.entries.len()
    }

    /// The content behind handle `h`, for host-side inspection.
    pub fn get(&self, h: usize) -> (r: Option<&HandleValue>)
        ensures
            h < self@.len() ==> (r matches Some(v) && v@ == self@[h as int]),
            h >= self@.len() ==> r is None,
    {
        if h < self.entries.len() {
            Some(&self.entries[h])
        } else {
            None
        }
    }

    /// The number of notes in the beatmap aggregate.
    pub fn beatmap_note_count(&self) -> (n: usize)
        requires
            self@.len() > 0,
            self@[BEATMAP_HANDLE as int] is Beatmap,
        ensures
            n == self@[BEATMAP_HANDLE as int]->Beatmap_0.len(),
    {
        match &self.entries[BEATMAP_HANDLE] {
            HandleValue::Beatmap(b) => b.notes.len(),
            HandleValue::ColorNote(_) => vstd::pervasive::unreached(),
        }
    }

    /// A factory binding: mints a new note object owned by the store and
    /// hands back the fresh handle under which the guest reaches it.
    pub fn create_color_note(&mut self, beat_bits: u32) -> (h: usize)
        ensures
            h == old(self)@.len(),
            final(self)@ == old(self)@.push(HandleVal::ColorNote(ColorNote { beat_bits })),
    {
        let h = self.entries.len();
        self.entries.push(HandleValue::ColorNote(ColorNote { beat_bits }));
        proof {
            assert(self@ =~= old(self)@.push(HandleVal::ColorNote(ColorNote { beat_bits })));
        }
        h
    }

    /// An instance-method binding: appends the note behind `note_h` to the
    /// beatmap behind `beatmap_h`. A null, unknown or wrongly typed handle
    /// yields the corresponding error and leaves every entry of the store
    /// exactly as it was.
    pub fn add_color_note(&mut self, beatmap_h: Option<usize>, note_h: Option<usize>) -> (r:
        Result<(), BindingError>)
        ensures
            r == spec_add_note_check(old(self)@, beatmap_h, note_h),
            r is Err ==> final(self)@ == old(self)@,
            r is Ok ==> final(self)@ == spec_add_note_effect(old(self)@, beatmap_h.unwrap(), note_h.unwrap()),
    {
        let (bh, nh) = match (beatmap_h, note_h) {
            (Some(bh), Some(nh)) => (bh, nh),
            _ => {
                return Err(BindingError::NullHandle);
            },
        };
        if bh >= self.entries.len() || nh >= self.entries.len() {
            return Err(BindingError::UnknownHandle);
        }
        let note: ColorNote = match &self.entries[nh] {
            HandleValue::ColorNote(n) => *n,
            HandleValue::Beatmap(_) => {
                return Err(BindingError::TypeMismatch);
            },
        };
        match &mut self.entries[bh] {
            HandleValue::Beatmap(b) => {
                b.notes.push(note);
                proof {
                    assert(self@ =~= spec_add_note_effect(old(self)@, bh, nh));
                }
                Ok(())
            },
            HandleValue::ColorNote(_) => {
                proof {
                    assert(self@ =~= old(self)@);
                }
                Err(BindingError::TypeMismatch)
            },
        }
    }

    /// The guest-facing result code of `add_color_note`: zero on success,
    /// a positive code naming the rejection otherwise.
    pub fn add_color_note_code(&mut self, beatmap_h: Option<usize>, note_h: Option<usize>) -> (c:
        i32)
        ensures
            c == 0 <==> spec_add_note_check(old(self)@, beatmap_h, note_h) is Ok,
            c == 0 ==> final(self)@ == spec_add_note_effect(old(self)@, beatmap_h.unwrap(), note_h.unwrap()),
            c != 0 ==> final(self)@ == old(self)@ && c == spec_binding_error_code(
                spec_add_note_check(old(self)@, beatmap_h, note_h)->Err_0,
            ),
    {
        match self.add_color_note(beatmap_h, note_h) {
            Ok(()) => 0,
            Err(BindingError::NullHandle) => 1,
            Err(BindingError::UnknownHandle) => 2,
            Err(BindingError::TypeMismatch) => 3,
        }
    }
}

/// The numeric code under which each rejection is reported to the guest.
pub open spec fn spec_binding_error_code(e: BindingError) -> i32 {
    match e {
        BindingError::NullHandle => 1,
        BindingError::UnknownHandle => 2,
        BindingError::TypeMismatch => 3,
    }
}

} // verus!
