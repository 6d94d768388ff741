//! Addresses in the memory of the host: where to read and write, how to
//! find a routine in a virtual table, and how to find a pattern of bytes.

use vstd::prelude::*;
use vstd::layout::*;
use crate::interface::Interface;
use crate::utils::error::{Error, ErrorKind};
use crate::utils::platform::Platform;

verus! {

/// The answer of the host to a request for an object: a view that may hold
/// the address 0. [`NotNull::get`] tells the two cases apart.
pub struct NotNull<T: Interface> {
    ptr: T,
}

impl<T: Interface> NotNull<T> {
    /// The address that the host answered with.
    pub closed spec fn address(&self) -> usize {
        self.ptr.address()
    }

    /// The answer that holds `ptr`.
    pub fn new(ptr: T) -> (answer: Self)
        ensures
            answer.address() == ptr.address(),
    {
        NotNull { ptr }
    }

    /// The view, unless it holds the address 0.
    pub fn get(self) -> (view: Option<T>)
        ensures
            view is None <==> self.address() == 0,
            view is Some ==> view->0.address() == self.address(),
    {
        if !self.ptr.is_null() {
            return Some(self.ptr);
        }
        None
    }

    /// The view, whatever address it holds.
    pub fn unwrap(self) -> (view: T)
        ensures
            view.address() == self.address(),
    {
        self.ptr
    }
}

/// Where a value at `offset` bytes into the object at `base` is read. The
/// read is not guarded: the caller answers for the object being there.
pub fn read_address(base: usize, offset: usize) -> (address: usize)
    requires
        base + offset <= usize::MAX,
    ensures
        address == base + offset,
{
    base + offset
}

/// Where a value at `offset` bytes into the object at `base` is written, or
/// `None` where there is no object: a write to no object is left out.
pub fn write_address(base: usize, offset: usize) -> (address: Option<usize>)
    requires
        base + offset <= usize::MAX,
    ensures
        address == if base == 0 {
            None
        } else {
            Some((base + offset) as usize)
        },
{
    if base == 0 {
        None
    } else {
        Some(base + offset)
    }
}

/// Whether `sig` matches the bytes of `image` that start at `at`: each byte
/// of `sig` is 0, which matches any byte, or equals the byte it lies on.
pub open spec fn matches_at(image: Seq<u8>, sig: Seq<u8>, at: int) -> bool {
    &&& 0 <= at < image.len()
    &&& at + sig.len() <= image.len()
    &&& forall|j: int| 0 <= j < sig.len() ==> sig[j] == 0 || #[trigger] image[at + j] == sig[j]
}

/// Whether `sig` matches the bytes of `image` that start at `at`.
fn pattern_matches(image: &[u8], sig: &[u8], at: usize) -> (matches: bool)
    requires
        at < image@.len(),
        at + sig@.len() <= image@.len(),
    ensures
        matches == matches_at(image@, sig@, at as int),
{
    let size = image.len();
    let mut j: usize = 0;
    while j < sig.len()
        invariant
            j <= sig@.len(),
            size == image@.len(),
            at + sig@.len() <= image@.len(),
            forall|k: int| 0 <= k < j ==> sig@[k] == 0 || #[trigger] image@[at + k] == sig@[k],
        decreases sig@.len() - j,
    {
        if sig[j] != 0 && image[at + j] != sig[j] {
            return false;
        }
        j += 1;
    }
    true
}

/// Where the pattern `sig` first matches in `image`, the bytes of a loaded
/// module, counted from the start of the image. A byte 0 in `sig` matches
/// any byte. A match starts inside the image and ends inside it.
pub fn pattern_scan(image: &[u8], sig: &[u8]) -> (found: Option<usize>)
    ensures
        found is Some ==> matches_at(image@, sig@, found->0 as int),
        found is Some ==> forall|at: int| 0 <= at < found->0 ==> !matches_at(image@, sig@, at),
        found is None ==> forall|at: int| !matches_at(image@, sig@, at),
{
    if sig.len() > image.len() {
        return None;
    }
    let last = image.len() - sig.len();
    let mut i: usize = 0;
    while i < image.len() && i <= last
        invariant
            last == image@.len() - sig@.len(),
            forall|at: int| 0 <= at < i ==> !matches_at(image@, sig@, at),
        decreases image@.len() - i,
    {
        if pattern_matches(image, sig, i) {
            return Some(i);
        }
        i += 1;
    }
    None
}

/// The number of bytes of a machine word, which is the size of a slot of a
/// virtual table.
pub open spec fn word_size() -> nat {
    size_of::<usize>()
}

/// Where slot `idx` of the virtual table at `vtable` lies.
pub open spec fn slot_address(vtable: usize, idx: isize) -> int {
    vtable + idx * word_size()
}

/// A lookup of a virtual function, under way or done. The lookup itself
/// reads no memory: while it is under way it names the word it wants, and
/// goes on when it is handed that word.
#[derive(Debug)]
pub enum VirtualLookup {
    /// The word at `at` is wanted: the pointer to the virtual table, which
    /// is the first word of the object.
    ReadVtable { at: usize, idx: isize },
    /// The word at `at` is wanted: the slot of the virtual table.
    ReadSlot { at: usize },
    /// The lookup is done: the slot holds the address `routine`.
    Found { routine: usize },
    /// The lookup is done, and has failed.
    Failed { error: Error },
}

/// A [`VirtualLookup`] with the text of its error as characters.
pub enum LookupView {
    ReadVtable { at: usize, idx: isize },
    ReadSlot { at: usize },
    Found { routine: usize },
    Failed { kind: ErrorKind, text: Seq<char> },
}

impl View for VirtualLookup {
    type V = LookupView;

    open spec fn view(&self) -> LookupView {
        match self {
            VirtualLookup::ReadVtable { at, idx } => LookupView::ReadVtable { at: *at, idx: *idx },
            VirtualLookup::ReadSlot { at } => LookupView::ReadSlot { at: *at },
            VirtualLookup::Found { routine } => LookupView::Found { routine: *routine },
            VirtualLookup::Failed { error } => LookupView::Failed {
                kind: error.spec_kind(),
                text: error.text(),
            },
        }
    }
}

/// The failure of a lookup on an object at the address 0.
pub open spec fn null_base() -> LookupView {
    LookupView::Failed { kind: ErrorKind::Null, text: "VTable ptr is null-ptr."@ }
}

/// The failure of a lookup that found the address 0 in the slot.
pub open spec fn empty_slot() -> LookupView {
    LookupView::Failed { kind: ErrorKind::NotFound, text: "VTable index not found."@ }
}

/// The lookup of slot `idx` of the object at `vtable_ptr`, before any word
/// was read.
pub open spec fn lookup_start(vtable_ptr: usize, idx: isize) -> LookupView {
    if vtable_ptr == 0 {
        null_base()
    } else {
        LookupView::ReadVtable { at: vtable_ptr, idx }
    }
}

/// The lookup `lookup` after the word it wanted was read as `word`. A lookup
/// that is done stays as it is.
pub open spec fn lookup_next(lookup: LookupView, word: usize) -> LookupView {
    match lookup {
        LookupView::ReadVtable { at, idx } => LookupView::ReadSlot {
            at: slot_address(word, idx) as usize,
        },
        LookupView::ReadSlot { at } => if word == 0 {
            empty_slot()
        } else {
            LookupView::Found { routine: word }
        },
        done => done,
    }
}

/// What a lookup of slot `idx` of the object at `vtable_ptr` comes to in a
/// memory that holds the word `memory(a)` at each address `a`: the first
/// word of the object points to the virtual table, and the routine is the
/// word in slot `idx` of that table.
pub open spec fn resolve(memory: spec_fn(usize) -> usize, vtable_ptr: usize, idx: isize)
    -> LookupView {
    if vtable_ptr == 0 {
        null_base()
    } else {
        let routine = memory(slot_address(memory(vtable_ptr), idx) as usize);
        if routine == 0 {
            empty_slot()
        } else {
            LookupView::Found { routine }
        }
    }
}

/// A lookup that is handed, twice, the word that the memory holds where it
/// wants to read, is done and has come to what [`resolve`] says.
pub proof fn lemma_lookup_resolves(memory: spec_fn(usize) -> usize, vtable_ptr: usize, idx: isize)
    ensures
        ({
            let start = lookup_start(vtable_ptr, idx);
            let first = lookup_next(start, memory(vtable_ptr));
            let second = lookup_next(first, memory(slot_address(memory(vtable_ptr), idx) as usize));
            &&& second == resolve(memory, vtable_ptr, idx)
            &&& second is Found || second is Failed
            &&& vtable_ptr != 0 ==> start == (LookupView::ReadVtable { at: vtable_ptr, idx })
            &&& vtable_ptr != 0 ==> first == (LookupView::ReadSlot {
                at: slot_address(memory(vtable_ptr), idx) as usize,
            })
        }),
{
}

/// Where slot `idx` of the virtual table at `vtable` lies, as a number that
/// may lie outside the addresses.
fn slot_position(vtable: usize, idx: isize) -> (at: i128)
    ensures
        at == slot_address(vtable, idx),
{
    broadcast use layout_of_primitives;

    let word: usize = core::mem::size_of::<usize>();
    assert(word == 4 || word == 8);
    let step: i128 = if word == 4 {
        (idx as i128) * 4
    } else {
        (idx as i128) * 8
    };
    (vtable as i128) + step
}

/// Whether slot `idx` of the virtual table at `vtable` lies at an address.
pub fn slot_in_reach(vtable: usize, idx: isize) -> (reachable: bool)
    ensures
        reachable == (0 <= slot_address(vtable, idx) <= usize::MAX),
{
    let at = slot_position(vtable, idx);
    0 <= at && at <= (usize::MAX as i128)
}

/// Begins the lookup of the routine in slot `idx` of the virtual table of
/// the object at `vtable_ptr`. On an object at the address 0 the lookup
/// fails at once with [`Error::Null`].
pub fn get_virtual_function(vtable_ptr: usize, idx: isize) -> (lookup: VirtualLookup)
    ensures
        lookup@ == lookup_start(vtable_ptr, idx),
{
    if vtable_ptr != 0 {
        VirtualLookup::ReadVtable { at: vtable_ptr, idx }
    } else {
        VirtualLookup::Failed { error: Error::null("VTable ptr is null-ptr.") }
    }
}

/// Begins the lookup of the method with the slot index `index` of the
/// object at `base`, on the platform `platform`: the index is shifted by
/// what the platform asks for, the same for every method of every object.
pub fn dispatch(platform: Platform, base: usize, index: isize) -> (lookup: VirtualLookup)
    requires
        index + platform.spec_index_bias() <= isize::MAX,
    ensures
        lookup@ == lookup_start(base, (index + platform.spec_index_bias()) as isize),
{
    get_virtual_function(base, platform.slot_index(index))
}

impl VirtualLookup {
    /// The address of the word that the lookup wants next, if it is not done.
    pub fn wanted(&self) -> (at: Option<usize>)
        ensures
            at == match self@ {
                LookupView::ReadVtable { at, idx } => Some(at),
                LookupView::ReadSlot { at } => Some(at),
                _ => None,
            },
    {
        match self {
            VirtualLookup::ReadVtable { at, idx } => Some(*at),
            VirtualLookup::ReadSlot { at } => Some(*at),
            _ => None,
        }
    }

    /// Whether [`VirtualLookup::supply`] can be handed `word`: whether the
    /// slot that `word` leads to lies at an address.
    pub fn accepts(&self, word: usize) -> (accepted: bool)
        ensures
            accepted == (self@ matches LookupView::ReadVtable { at, idx } ==> 0 <= slot_address(
                word,
                idx,
            ) <= usize::MAX),
    {
        match self {
            VirtualLookup::ReadVtable { at, idx } => slot_in_reach(word, *idx),
            _ => true,
        }
    }

    /// Goes on with the lookup, given the word `word` that was read at the
    /// address the lookup wanted. A slot that holds the address 0 makes the
    /// lookup fail with [`Error::NotFound`].
    pub fn supply(self, word: usize) -> (next: VirtualLookup)
        requires
            self@ matches LookupView::ReadVtable { at, idx } ==> 0 <= slot_address(word, idx)
                <= usize::MAX,
        ensures
            next@ == lookup_next(self@, word),
    {
        match self {
            VirtualLookup::ReadVtable { at, idx } => {
                let slot = slot_position(word, idx);
                VirtualLookup::ReadSlot { at: slot as usize }
            },
            VirtualLookup::ReadSlot { at } => {
                if word == 0 {
                    VirtualLookup::Failed { error: Error::not_found("VTable index not found.") }
                } else {
                    VirtualLookup::Found { routine: word }
                }
            },
            VirtualLookup::Found { routine } => VirtualLookup::Found { routine },
            VirtualLookup::Failed { error } => VirtualLookup::Failed { error },
        }
    }

    /// The outcome of the lookup, once it is done.
    pub fn outcome(self) -> (outcome: Option<Result<usize, Error>>)
        ensures
            match self@ {
                LookupView::Found { routine } => outcome == Some(
                    Ok::<usize, Error>(routine),
                ),
                LookupView::Failed { kind, text } => {
                    &&& outcome matches Some(Err(e))
                    &&& e.spec_kind() == kind
                    &&& e.text() == text
                },
                _ => outcome is None,
            },
    {
        match self {
            VirtualLookup::Found { routine } => Some(Ok(routine)),
            VirtualLookup::Failed { error } => Some(Err(error)),
            _ => None,
        }
    }
}

} // verus!
