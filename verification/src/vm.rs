//! The host-visible state of one embedded VM: numbered transfer slots, the
//! attached foreign-class registry, the error-event queue, script-level
//! variables, and the table of live handles.
//!
//! The embedded VM itself is a C library behind a function-pointer ABI; the
//! unverified shell owns the raw instance and forwards every operation here
//! so that the state change and the returned value are the ones stated below.
//! Numbers cross the boundary as the raw bit pattern of their IEEE
//! representation: the payload is opaque to this layer and the shell converts
//! at the edge.

use vstd::prelude::*;
use vstd::string::StringExecFns;
use vstd::string::StrSliceExecFns;
use vstd::utf8::{encode_utf8, valid_utf8};

use crate::errors::{ForeignSendError, VMError, WrenError, WrenErrorView};
use crate::outcome::{assemble_runtime_error, spec_runtime_error, RunStatus};
use crate::registry::{keyed_lookup, lemma_keyed_lookup_at, lemma_keyed_lookup_none,
    lemma_keyed_lookup_prepend, spec_get_foreign_class, LibraryView, ModuleLibrary};
use crate::signature::FunctionSignature;

verus! {

broadcast use {
    vstd::std_specs::vec::axiom_vec_index_decreases,
    vstd::std_specs::vec::axiom_vec_decreases_to_view,
    vstd::seq::axiom_seq_index_decreases,
    vstd::seq_lib::group_seq_lib_default,
};

/// The envelope stored in the VM heap for every foreign instance: the host
/// object it owns (named here by an identifier the host chose) together with
/// the compile-time tag of its host type. The tag is checked on every access
/// before the object is reinterpreted.
#[derive(Debug, Clone, Copy, PartialEq, Eq, Structural)]
pub struct ForeignObject {
    pub object: u64,
    pub type_id: u64,
}

/// One value held in a transfer slot.
#[derive(Debug)]
pub enum SlotValue {
    /// A number, carried as the raw bit pattern of its IEEE representation;
    /// the payload is opaque to this layer.
    Num(u64),
    Bool(bool),
    List(Vec<SlotValue>),
    Null,
    /// A VM string: a byte sequence (the VM does not require valid UTF-8).
    Str(Vec<u8>),
    Foreign(ForeignObject),
    /// A value of a kind this layer does not classify further (a class
    /// object, a fiber, a range, ...).
    Unknown,
}

/// The mathematical value of a slot.
pub enum ValueView {
    Num(u64),
    Bool(bool),
    List(Seq<ValueView>),
    Null,
    Str(Seq<u8>),
    Foreign(ForeignObject),
    Unknown,
}

/// The mathematical value a slot value denotes.
pub open spec fn value_view(v: SlotValue) -> ValueView
    decreases v,
    via value_view_decreases
{
    match v {
        SlotValue::Num(bits) => ValueView::Num(bits),
        SlotValue::Bool(b) => ValueView::Bool(b),
        SlotValue::List(items) => ValueView::List(list_view(items@)),
        SlotValue::Null => ValueView::Null,
        SlotValue::Str(bytes) => ValueView::Str(bytes@),
        SlotValue::Foreign(fo) => ValueView::Foreign(fo),
        SlotValue::Unknown => ValueView::Unknown,
    }
}

/// The mathematical values of a sequence of slot values.
pub open spec fn list_view(items: Seq<SlotValue>) -> Seq<ValueView>
    decreases items,
    via list_view_decreases
{
    if items.len() == 0 {
        Seq::empty()
    } else {
        list_view(items.drop_last()).push(value_view(items.last()))
    }
}

#[via_fn]
proof fn value_view_decreases(v: SlotValue) {
    match v {
        SlotValue::List(items) => {
            assert(decreases_to!(v => items));
            assert(decreases_to!(items => items@));
        },
        _ => {},
    }
}

#[via_fn]
proof fn list_view_decreases(items: Seq<SlotValue>) {
    if items.len() > 0 {
        assert(decreases_to!(items => items.drop_last()));
        assert(decreases_to!(items => items.last()));
    }
}

impl View for SlotValue {
    type V = ValueView;

    open spec fn view(&self) -> ValueView {
        value_view(*self)
    }
}

/// `list_view` is the elementwise image of `value_view`.
pub proof fn lemma_list_view_index(items: Seq<SlotValue>)
    ensures
        list_view(items).len() == items.len(),
        forall|i: int| 0 <= i < items.len() ==> list_view(items)[i] == value_view(items[i]),
    decreases items.len(),
{
    if items.len() > 0 {
        lemma_list_view_index(items.drop_last());
    }
}

impl Clone for SlotValue {
    /// A deep copy that denotes the same mathematical value.
    #[verifier::loop_isolation(false)]
    fn clone(&self) -> (r: Self)
        ensures
            r@ == self@,
        decreases self,
    {
        match self {
            SlotValue::Num(bits) => SlotValue::Num(*bits),
            SlotValue::Bool(b) => SlotValue::Bool(*b),
            SlotValue::List(items) => {
                let mut copy: Vec<SlotValue> = Vec::new();
                let mut i: usize = 0;
                while i < items.len()
                    invariant
                        i <= items@.len(),
                        copy@.len() == i,
                        forall|j: int| 0 <= j < i ==> copy@[j]@ == items@[j]@,
                    decreases items@.len() - i,
                {
                    proof {
                        assert(decreases_to!(*self => *items));
                        assert(decreases_to!(*items => items@));
                    }
                    copy.push(items[i].clone());
                    i = i + 1;
                }
                proof {
                    lemma_list_view_index(copy@);
                    lemma_list_view_index(items@);
                    assert(list_view(copy@) =~= list_view(items@));
                }
                SlotValue::List(copy)
            },
            SlotValue::Null => SlotValue::Null,
            SlotValue::Str(bytes) => SlotValue::Str(bytes.clone()),
            SlotValue::Foreign(fo) => SlotValue::Foreign(*fo),
            SlotValue::Unknown => SlotValue::Unknown,
        }
    }
}

/// The index of a transfer slot.
pub type SlotId = usize;

/// How the VM classifies the value currently in a slot. Every typed getter
/// checks this classification before touching the value: the single
/// mechanism that turns the unchecked dynamically-typed interface into a
/// statically checked one.
#[derive(Debug, Clone, Copy, PartialEq, Eq, Structural)]
pub enum SlotType {
    Num,
    Bool,
    List,
    Null,
    String,
    Foreign,
    Unknown,
}

/// The classification of a slot value.
pub open spec fn classify(v: ValueView) -> SlotType {
    match v {
        ValueView::Num(_) => SlotType::Num,
        ValueView::Bool(_) => SlotType::Bool,
        ValueView::List(_) => SlotType::List,
        ValueView::Null => SlotType::Null,
        ValueView::Str(_) => SlotType::String,
        ValueView::Foreign(_) => SlotType::Foreign,
        ValueView::Unknown => SlotType::Unknown,
    }
}

/// One entry in the handle table: a captured slot value, or a call handle
/// resolved from a canonical signature string.
pub enum HandleEntry {
    Value(SlotValue),
    Callable(String),
}

/// The mathematical value of a handle-table entry.
pub enum HandleEntryView {
    Value(ValueView),
    Callable(Seq<char>),
}

impl View for HandleEntry {
    type V = HandleEntryView;

    open spec fn view(&self) -> HandleEntryView {
        match self {
            HandleEntry::Value(v) => HandleEntryView::Value(v@),
            HandleEntry::Callable(s) => HandleEntryView::Callable(s@),
        }
    }
}

/// An opaque reference to a VM-resident value. Holding it keeps the value
/// alive on the VM side; releasing it happens exactly once, because release
/// consumes the handle.
#[derive(Debug)]
pub struct Handle {
    id: usize,
}

impl Handle {
    /// The position of this handle in the VM's handle table.
    pub closed spec fn id_spec(&self) -> int {
        self.id as int
    }
}

/// A handle specialized to a resolved call signature: repeated calls skip
/// re-resolving the signature string.
#[derive(Debug)]
pub struct FunctionHandle {
    id: usize,
}

impl FunctionHandle {
    /// The position of this handle in the VM's handle table.
    pub closed spec fn id_spec(&self) -> int {
        self.id as int
    }
}

/// How many handle-table entries are still live.
pub open spec fn live_handle_count(handles: Seq<Option<HandleEntryView>>) -> nat
    decreases handles.len(),
{
    if handles.len() == 0 {
        0
    } else {
        live_handle_count(handles.drop_last()) + if handles.last() is Some {
            1nat
        } else {
            0nat
        }
    }
}

/// Releasing one live handle lowers the live count by exactly one and
/// touches no other entry.
pub proof fn lemma_release_decrements_live_count(pre: Seq<Option<HandleEntryView>>, i: int)
    requires
        0 <= i < pre.len(),
        pre[i] is Some,
    ensures
        live_handle_count(pre.update(i, None)) + 1 == live_handle_count(pre),
    decreases pre.len(),
{
    let post = pre.update(i, None);
    if i == pre.len() - 1 {
        assert(post.drop_last() =~= pre.drop_last());
    } else {
        assert(post.drop_last() =~= pre.drop_last().update(i, None));
        lemma_release_decrements_live_count(pre.drop_last(), i);
    }
}

/// The configuration a VM is built from. The output sink and the module
/// loader are host callables that live in the unverified shell; everything
/// the verified layer needs is here.
pub struct VMConfig {
    pub library: Option<ModuleLibrary>,
    pub initial_heap_size: usize,
    pub min_heap_size: usize,
    pub heap_growth_percent: usize,
    /// When set, a module name beginning with the relative-import marker is
    /// rewritten against its importer before resolution.
    pub enable_relative_import: bool,
}

impl VMConfig {
    pub fn new() -> (r: VMConfig)
        ensures
            r.library is None,
            r.initial_heap_size == 1024 * 1024 * 10,
            r.min_heap_size == 1024 * 1024,
            r.heap_growth_percent == 50,
            !r.enable_relative_import,
    {
        VMConfig {
            library: None,
            initial_heap_size: 1024 * 1024 * 10,
            min_heap_size: 1024 * 1024,
            heap_growth_percent: 50,
            enable_relative_import: false,
        }
    }

    /// Attach a foreign-class registry; the built VM owns this snapshot.
    pub fn library(self, l: ModuleLibrary) -> (r: VMConfig)
        ensures
            r.library matches Some(lib) && lib@ == l@,
            r.initial_heap_size == self.initial_heap_size,
            r.min_heap_size == self.min_heap_size,
            r.heap_growth_percent == self.heap_growth_percent,
            r.enable_relative_import == self.enable_relative_import,
    {
        VMConfig { library: Some(l), ..self }
    }

    pub fn no_library(self) -> (r: VMConfig)
        ensures
            r.library is None,
            r.initial_heap_size == self.initial_heap_size,
            r.min_heap_size == self.min_heap_size,
            r.heap_growth_percent == self.heap_growth_percent,
            r.enable_relative_import == self.enable_relative_import,
    {
        VMConfig { library: None, ..self }
    }

    pub fn initial_heap_size(self, ihs: usize) -> (r: VMConfig)
        ensures
            r.initial_heap_size == ihs,
            r.library == self.library,
            r.min_heap_size == self.min_heap_size,
            r.heap_growth_percent == self.heap_growth_percent,
            r.enable_relative_import == self.enable_relative_import,
    {
        VMConfig { initial_heap_size: ihs, ..self }
    }

    pub fn min_heap_size(self, mhs: usize) -> (r: VMConfig)
        ensures
            r.min_heap_size == mhs,
            r.library == self.library,
            r.initial_heap_size == self.initial_heap_size,
            r.heap_growth_percent == self.heap_growth_percent,
            r.enable_relative_import == self.enable_relative_import,
    {
        VMConfig { min_heap_size: mhs, ..self }
    }

    pub fn heap_growth_percent(self, hgp: usize) -> (r: VMConfig)
        ensures
            r.heap_growth_percent == hgp,
            r.library == self.library,
            r.initial_heap_size == self.initial_heap_size,
            r.min_heap_size == self.min_heap_size,
            r.enable_relative_import == self.enable_relative_import,
    {
        VMConfig { heap_growth_percent: hgp, ..self }
    }

    pub fn enable_relative_import(self, eri: bool) -> (r: VMConfig)
        ensures
            r.enable_relative_import == eri,
            r.library == self.library,
            r.initial_heap_size == self.initial_heap_size,
            r.min_heap_size == self.min_heap_size,
            r.heap_growth_percent == self.heap_growth_percent,
    {
        VMConfig { enable_relative_import: eri, ..self }
    }

    /// Build a fresh VM: no slots requested yet, an empty error channel, no
    /// script variables, no live handles, and the configured registry
    /// attached for the lifetime of the VM.
    pub fn build(self) -> (vm: VM)
        ensures
            vm.slots_view() =~= Seq::<ValueView>::empty(),
            vm.errors_view() =~= Seq::<WrenErrorView>::empty(),
            vm.vars_view() =~= Seq::<((Seq<char>, Seq<char>), ValueView)>::empty(),
            vm.handles_view() =~= Seq::<Option<HandleEntryView>>::empty(),
            vm.printed_view() =~= Seq::<Seq<char>>::empty(),
            vm.abort_view() is None,
            match self.library {
                Some(l) => vm.library_view() == Some(l@),
                None => vm.library_view() is None,
            },
    {
        VM {
            slots: Vec::new(),
            library: self.library,
            errors: Vec::new(),
            script_vars: Vec::new(),
            handles: Vec::new(),
            printed: Vec::new(),
            aborted: None,
        }
    }
}

/// Which kind of report the VM's error callback is delivering.
#[derive(Debug, Clone, Copy, PartialEq, Eq, Structural)]
pub enum ErrorKind {
    Compile,
    Runtime,
    StackTrace,
}

/// One embedded VM's host-visible state.
pub struct VM {
    slots: Vec<SlotValue>,
    library: Option<ModuleLibrary>,
    errors: Vec<WrenError>,
    script_vars: Vec<(String, String, SlotValue)>,
    handles: Vec<Option<HandleEntry>>,
    printed: Vec<String>,
    aborted: Option<SlotValue>,
}

impl VM {
    /// The values of the transfer slots; indices are valid over the whole
    /// sequence, whose length is the most recently requested slot count.
    pub closed spec fn slots_view(&self) -> Seq<ValueView> {
        Seq::new(self.slots@.len(), |i: int| self.slots@[i]@)
    }

    /// The queued error events, in emission order.
    pub closed spec fn errors_view(&self) -> Seq<WrenErrorView> {
        self.errors@.map_values(|e: WrenError| e@)
    }

    /// The attached registry, if one was configured.
    pub closed spec fn library_view(&self) -> Option<LibraryView> {
        match self.library {
            Some(ref l) => Some(l@),
            None => None,
        }
    }

    /// The script-level variables, keyed by (module, name), newest
    /// declaration first.
    pub closed spec fn vars_view(&self) -> Seq<((Seq<char>, Seq<char>), ValueView)> {
        Seq::new(
            self.script_vars@.len(),
            |i: int|
                (
                    (self.script_vars@[i].0@, self.script_vars@[i].1@),
                    self.script_vars@[i].2@,
                ),
        )
    }

    /// The handle table; a released entry stays as a tombstone so that
    /// handle identifiers are never reused.
    pub closed spec fn handles_view(&self) -> Seq<Option<HandleEntryView>> {
        Seq::new(
            self.handles@.len(),
            |i: int|
                match self.handles@[i] {
                    Some(e) => Some(e@),
                    None => None,
                },
        )
    }

    /// Every text the print callback has forwarded to the host's output
    /// sink, in order.
    pub closed spec fn printed_view(&self) -> Seq<Seq<char>> {
        self.printed@.map_values(|s: String| s@)
    }

    /// The error value the current fiber was aborted with, if any.
    pub closed spec fn abort_view(&self) -> Option<ValueView> {
        match self.aborted {
            Some(ref v) => Some(v@),
            None => None,
        }
    }
}

/// Everything but the slots is the same in both states.
pub open spec fn only_slots_differ(pre: &VM, post: &VM) -> bool {
    &&& pre.printed_view() == post.printed_view()
    &&& pre.errors_view() == post.errors_view()
    &&& pre.vars_view() == post.vars_view()
    &&& pre.handles_view() == post.handles_view()
    &&& pre.library_view() == post.library_view()
    &&& pre.abort_view() == post.abort_view()
}

/// Everything but the handle table is the same in both states.
pub open spec fn only_handles_differ(pre: &VM, post: &VM) -> bool {
    &&& pre.printed_view() == post.printed_view()
    &&& pre.slots_view() == post.slots_view()
    &&& pre.errors_view() == post.errors_view()
    &&& pre.vars_view() == post.vars_view()
    &&& pre.library_view() == post.library_view()
    &&& pre.abort_view() == post.abort_view()
}

/// Everything but the error queue is the same in both states.
pub open spec fn only_errors_differ(pre: &VM, post: &VM) -> bool {
    &&& pre.printed_view() == post.printed_view()
    &&& pre.slots_view() == post.slots_view()
    &&& pre.vars_view() == post.vars_view()
    &&& pre.handles_view() == post.handles_view()
    &&& pre.library_view() == post.library_view()
    &&& pre.abort_view() == post.abort_view()
}

impl VM {
    /// Make at least `count` slots available. Existing slot values are kept;
    /// newly available slots read as null.
    pub fn ensure_slots(&mut self, count: usize)
        ensures
            only_slots_differ(old(self), final(self)),
            final(self).slots_view().len() == if count > old(self).slots_view().len() {
                count as int
            } else {
                old(self).slots_view().len() as int
            },
            forall|i: int|
                0 <= i < old(self).slots_view().len() ==> final(self).slots_view()[i]
                    == old(self).slots_view()[i],
            forall|i: int|
                old(self).slots_view().len() <= i < final(self).slots_view().len()
                    ==> final(self).slots_view()[i] == ValueView::Null,
    {
        while self.slots.len() < count
            invariant
                self.slots@.len() >= old(self).slots@.len(),
                count > old(self).slots@.len() ==> self.slots@.len() <= count,
                count <= old(self).slots@.len() ==> self.slots@.len() == old(self).slots@.len(),
                forall|i: int|
                    0 <= i < old(self).slots@.len() ==> self.slots@[i] == old(self).slots@[i],
                forall|i: int|
                    old(self).slots@.len() <= i < self.slots@.len() ==> self.slots@[i]
                        is Null,
                only_slots_differ(old(self), self),
            decreases count - self.slots@.len(),
        {
            self.slots.push(SlotValue::Null);
        }
    }

    /// How many slots are currently available.
    pub fn get_slot_count(&self) -> (r: usize)
        ensures
            r == self.slots_view().len(),
    {
        self.slots.len()
    }

    /// Classify the value currently in `slot`.
    pub fn get_slot_type(&self, slot: SlotId) -> (r: SlotType)
        requires
            slot < self.slots_view().len(),
        ensures
            r == classify(self.slots_view()[slot as int]),
    {
        match &self.slots[slot] {
            SlotValue::Num(_) => SlotType::Num,
            SlotValue::Bool(_) => SlotType::Bool,
            SlotValue::List(_) => SlotType::List,
            SlotValue::Null => SlotType::Null,
            SlotValue::Str(_) => SlotType::String,
            SlotValue::Foreign(_) => SlotType::Foreign,
            SlotValue::Unknown => SlotType::Unknown,
        }
    }

    /// Write a boolean into `slot`.
    pub fn set_slot_bool(&mut self, slot: SlotId, val: bool)
        requires
            slot < old(self).slots_view().len(),
        ensures
            only_slots_differ(old(self), final(self)),
            final(self).slots_view() =~= old(self).slots_view().update(
                slot as int,
                ValueView::Bool(val),
            ),
    {
        self.slots[slot] = SlotValue::Bool(val);
    }

    /// Write a number into `slot`, given as the raw bit pattern of its IEEE
    /// representation.
    pub fn set_slot_double(&mut self, slot: SlotId, bits: u64)
        requires
            slot < old(self).slots_view().len(),
        ensures
            only_slots_differ(old(self), final(self)),
            final(self).slots_view() =~= old(self).slots_view().update(
                slot as int,
                ValueView::Num(bits),
            ),
    {
        self.slots[slot] = SlotValue::Num(bits);
    }

    /// Write null into `slot`.
    pub fn set_slot_null(&mut self, slot: SlotId)
        requires
            slot < old(self).slots_view().len(),
        ensures
            only_slots_differ(old(self), final(self)),
            final(self).slots_view() =~= old(self).slots_view().update(
                slot as int,
                ValueView::Null,
            ),
    {
        self.slots[slot] = SlotValue::Null;
    }

    /// Write a byte sequence into `slot` as a VM string.
    pub fn set_slot_bytes(&mut self, slot: SlotId, bytes: &[u8])
        requires
            slot < old(self).slots_view().len(),
        ensures
            only_slots_differ(old(self), final(self)),
            final(self).slots_view() =~= old(self).slots_view().update(
                slot as int,
                ValueView::Str(bytes@),
            ),
    {
        self.slots[slot] = SlotValue::Str(vstd::slice::slice_to_vec(bytes));
    }

    /// Write a string into `slot`; the VM holds its UTF-8 bytes.
    pub fn set_slot_string(&mut self, slot: SlotId, string: &str)
        requires
            slot < old(self).slots_view().len(),
        ensures
            only_slots_differ(old(self), final(self)),
            final(self).slots_view() =~= old(self).slots_view().update(
                slot as int,
                ValueView::Str(encode_utf8(string@)),
            ),
    {
        self.slots[slot] = SlotValue::Str(string.as_bytes_vec());
    }

    /// Start an empty list in `slot`.
    pub fn set_slot_new_list(&mut self, slot: SlotId)
        requires
            slot < old(self).slots_view().len(),
        ensures
            only_slots_differ(old(self), final(self)),
            final(self).slots_view() =~= old(self).slots_view().update(
                slot as int,
                ValueView::List(Seq::empty()),
            ),
    {
        let empty: Vec<SlotValue> = Vec::new();
        proof {
            lemma_list_view_index(empty@);
            assert(list_view(empty@) =~= Seq::<ValueView>::empty());
        }
        self.slots[slot] = SlotValue::List(empty);
    }

    /// The boolean in `slot`, or nothing if the slot holds another kind of
    /// value.
    pub fn get_slot_bool(&self, slot: SlotId) -> (r: Option<bool>)
        requires
            slot < self.slots_view().len(),
        ensures
            r == match self.slots_view()[slot as int] {
                ValueView::Bool(b) => Some(b),
                _ => None::<bool>,
            },
    {
        match &self.slots[slot] {
            SlotValue::Bool(b) => Some(*b),
            _ => None,
        }
    }

    /// The number in `slot` as its raw IEEE bit pattern, or nothing if the
    /// slot holds another kind of value.
    pub fn get_slot_double(&self, slot: SlotId) -> (r: Option<u64>)
        requires
            slot < self.slots_view().len(),
        ensures
            r == match self.slots_view()[slot as int] {
                ValueView::Num(bits) => Some(bits),
                _ => None::<u64>,
            },
    {
        match &self.slots[slot] {
            SlotValue::Num(bits) => Some(*bits),
            _ => None,
        }
    }

    /// The bytes of the VM string in `slot`, or nothing if the slot holds
    /// another kind of value.
    pub fn get_slot_bytes(&self, slot: SlotId) -> (r: Option<Vec<u8>>)
        requires
            slot < self.slots_view().len(),
        ensures
            match self.slots_view()[slot as int] {
                ValueView::Str(bytes) => r matches Some(v) && v@ == bytes,
                _ => r is None,
            },
    {
        match &self.slots[slot] {
            SlotValue::Str(bytes) => Some(vstd::slice::slice_to_vec(bytes.as_slice())),
            _ => None,
        }
    }

    /// The VM string in `slot` decoded as UTF-8, or nothing if the slot
    /// holds another kind of value or bytes that are not valid UTF-8.
    pub fn get_slot_string(&self, slot: SlotId) -> (r: Option<String>)
        requires
            slot < self.slots_view().len(),
        ensures
            match self.slots_view()[slot as int] {
                ValueView::Str(bytes) => (r is Some <==> valid_utf8(bytes)) && (r matches Some(s)
                    ==> encode_utf8(s@) == bytes),
                _ => r is None,
            },
    {
        match &self.slots[slot] {
            SlotValue::Str(bytes) => string_from_utf8(vstd::slice::slice_to_vec(bytes.as_slice())),
            _ => None,
        }
    }

    /// Write the script-level variable `name` of `module` into `slot`: its
    /// declared value, or null if the script never declared it.
    pub fn get_variable(&mut self, module: &str, name: &str, slot: SlotId)
        requires
            slot < old(self).slots_view().len(),
        ensures
            only_slots_differ(old(self), final(self)),
            final(self).slots_view() =~= old(self).slots_view().update(
                slot as int,
                match keyed_lookup(old(self).vars_view(), (module@, name@)) {
                    Some(v) => v,
                    None => ValueView::Null,
                },
            ),
    {
        let val = self.find_variable(module, name);
        self.slots[slot] = val;
    }

    /// Look a script-level variable up by (module, name); null if the script
    /// never declared it.
    fn find_variable(&self, module: &str, name: &str) -> (r: SlotValue)
        ensures
            r@ == match keyed_lookup(self.vars_view(), (module@, name@)) {
                Some(v) => v,
                None => ValueView::Null,
            },
    {
        let module_key = String::from_str(module);
        let name_key = String::from_str(name);
        let ghost vars = self.vars_view();
        let mut i: usize = 0;
        while i < self.script_vars.len()
            invariant
                i <= self.script_vars@.len(),
                module_key@ == module@,
                name_key@ == name@,
                vars == self.vars_view(),
                vars.len() == self.script_vars@.len(),
                forall|j: int| 0 <= j < vars.len() ==> vars[j] == (
                    (self.script_vars@[j].0@, self.script_vars@[j].1@),
                    self.script_vars@[j].2@,
                ),
                forall|j: int| 0 <= j < i ==> vars[j].0 != (module@, name@),
            decreases self.script_vars@.len() - i,
        {
            if self.script_vars[i].0 == module_key && self.script_vars[i].1 == name_key {
                proof {
                    lemma_keyed_lookup_at(vars, (module@, name@), i as int);
                }
                return self.script_vars[i].2.clone();
            }
            i = i + 1;
        }
        proof {
            lemma_keyed_lookup_none(vars, (module@, name@));
        }
        SlotValue::Null
    }

    /// Record a script-level variable, as the embedded VM does when a run
    /// declares one: the stand-in for the script state that later
    /// `get_variable` calls read. A new declaration shadows an older one of
    /// the same (module, name).
    pub fn declare_variable(&mut self, module: &str, name: &str, value: SlotValue)
        ensures
            final(self).vars_view() =~= seq![((module@, name@), value@)] + old(self).vars_view(),
            keyed_lookup(final(self).vars_view(), (module@, name@)) == Some(value@),
            forall|k: (Seq<char>, Seq<char>)|
                k != (module@, name@) ==> keyed_lookup(final(self).vars_view(), k) == keyed_lookup(
                    old(self).vars_view(),
                    k,
                ),
            final(self).slots_view() == old(self).slots_view(),
            final(self).errors_view() == old(self).errors_view(),
            final(self).handles_view() == old(self).handles_view(),
            final(self).printed_view() == old(self).printed_view(),
            final(self).library_view() == old(self).library_view(),
            final(self).abort_view() == old(self).abort_view(),
    {
        let ghost vv = value@;
        self.script_vars.insert(0, (String::from_str(module), String::from_str(name), value));
        proof {
            assert(self.vars_view() =~= seq![((module@, name@), vv)] + old(self).vars_view());
            assert forall|k: (Seq<char>, Seq<char>)| true implies keyed_lookup(self.vars_view(), k)
                == (if k == (module@, name@) {
                Some(vv)
            } else {
                keyed_lookup(old(self).vars_view(), k)
            }) by {
                lemma_keyed_lookup_prepend(old(self).vars_view(), (module@, name@), vv, k);
            }
        }
    }
}

/// Relies on `String::from_utf8`: it returns the decoded string exactly when
/// the bytes are valid UTF-8, and the decoded string's UTF-8 encoding is the
/// given bytes.
#[verifier::external_body]
fn string_from_utf8(bytes: Vec<u8>) -> (r: Option<String>)
    ensures
        r is Some <==> valid_utf8(bytes@),
        r matches Some(s) ==> encode_utf8(s@) == bytes@,
{
    match String::from_utf8(bytes) {
        Ok(s) => Some(s),
        Err(_) => None,
    }
}

/// A string written into a slot reads back as itself: the stored UTF-8
/// bytes are always valid, so the read succeeds, and encoding is injective,
/// so no other string reads back. Together with the contracts of
/// [`VM::set_slot_string`] and [`VM::get_slot_string`] this is the string
/// round trip; the byte round trip is immediate from the contracts of
/// [`VM::set_slot_bytes`] and [`VM::get_slot_bytes`].
pub proof fn lemma_string_slot_round_trip(s: Seq<char>, t: Seq<char>)
    ensures
        valid_utf8(encode_utf8(s)),
        encode_utf8(s) == encode_utf8(t) ==> s == t,
{
    vstd::utf8::encode_utf8_valid_utf8(s);
    if encode_utf8(s) == encode_utf8(t) {
        vstd::utf8::encode_utf8_decode_utf8(s);
        vstd::utf8::encode_utf8_decode_utf8(t);
    }
}

/// Where a new element lands in a list of length `len`: a negative index
/// counts back from one past the end, so `-1` appends.
pub open spec fn insert_index(index: int, len: nat) -> int {
    if index < 0 {
        len + 1 + index
    } else {
        index
    }
}

/// Which element of a list of length `len` an index reads: a negative index
/// counts back from the end, so `-1` is the last element.
pub open spec fn element_index(index: int, len: nat) -> int {
    if index < 0 {
        len + index
    } else {
        index
    }
}

/// The slots after growing to at least `count`: kept values, then nulls.
pub open spec fn grown_slots(slots: Seq<ValueView>, count: int) -> Seq<ValueView> {
    if slots.len() >= count {
        slots
    } else {
        slots + Seq::new((count - slots.len()) as nat, |i: int| ValueView::Null)
    }
}

/// The class a foreign injection resolves against: nothing if no registry is
/// attached, else the registry's (module, class) entry.
pub open spec fn spec_send_class(
    lib: Option<LibraryView>,
    module: Seq<char>,
    class: Seq<char>,
) -> Option<crate::registry::RuntimeClassView> {
    match lib {
        Some(l) => spec_get_foreign_class(l, module, class),
        None => None,
    }
}

impl VM {
    /// Insert the value of `element_slot` into the list in `list_slot`. A
    /// negative index counts back from one past the end, exactly as the VM
    /// defines it: `-1` appends.
    pub fn insert_in_list(&mut self, list_slot: SlotId, index: i32, element_slot: SlotId)
        requires
            list_slot < old(self).slots_view().len(),
            element_slot < old(self).slots_view().len(),
            old(self).slots_view()[list_slot as int] matches ValueView::List(items) && {
                &&& 0 <= insert_index(index as int, items.len())
                &&& insert_index(index as int, items.len()) <= items.len()
                &&& items.len() < usize::MAX
            },
        ensures
            only_slots_differ(old(self), final(self)),
            old(self).slots_view()[list_slot as int] matches ValueView::List(items) ==> final(self).slots_view() =~= old(self).slots_view().update(
                list_slot as int,
                ValueView::List(
                    items.insert(
                        insert_index(index as int, items.len()),
                        old(self).slots_view()[element_slot as int],
                    ),
                ),
            ),
    {
        let elem = self.slots[element_slot].clone();
        let mut taken = SlotValue::Null;
        core::mem::swap(&mut taken, &mut self.slots[list_slot]);
        match taken {
            SlotValue::List(mut items) => {
                proof {
                    lemma_list_view_index(items@);
                }
                let eff: usize = if index >= 0 {
                    index as usize
                } else {
                    let back = (-(index as i64)) as usize;
                    items.len() + 1 - back
                };
                items.insert(eff, elem);
                proof {
                    lemma_list_view_index(items@);
                }
                self.slots[list_slot] = SlotValue::List(items);
                proof {
                    assert(list_view(items@) =~= old(self).slots_view()[list_slot as int]->List_0
                        .insert(
                        insert_index(
                            index as int,
                            old(self).slots_view()[list_slot as int]->List_0.len(),
                        ),
                        old(self).slots_view()[element_slot as int],
                    ));
                }
            },
            _ => {
                proof {
                    assert(false);
                }
            },
        }
    }

    /// Copy an element of the list in `list_slot` into `element_slot`. A
    /// negative index counts back from the end, exactly as the VM defines
    /// it: `-1` reads the last element.
    pub fn get_list_element(&mut self, list_slot: SlotId, index: i32, element_slot: SlotId)
        requires
            list_slot < old(self).slots_view().len(),
            element_slot < old(self).slots_view().len(),
            old(self).slots_view()[list_slot as int] matches ValueView::List(items) && {
                &&& 0 <= element_index(index as int, items.len())
                &&& element_index(index as int, items.len()) < items.len()
            },
        ensures
            only_slots_differ(old(self), final(self)),
            old(self).slots_view()[list_slot as int] matches ValueView::List(items) ==> final(self).slots_view() =~= old(self).slots_view().update(
                element_slot as int,
                items[element_index(index as int, items.len())],
            ),
    {
        let elem = match &self.slots[list_slot] {
            SlotValue::List(items) => {
                proof {
                    lemma_list_view_index(items@);
                }
                let eff: usize = if index >= 0 {
                    index as usize
                } else {
                    let back = (-(index as i64)) as usize;
                    items.len() - back
                };
                items[eff].clone()
            },
            _ => {
                proof {
                    assert(false);
                }
                SlotValue::Null
            },
        };
        self.slots[element_slot] = elem;
    }

    /// How many elements the list in `slot` has.
    pub fn get_list_count(&self, slot: SlotId) -> (r: usize)
        requires
            slot < self.slots_view().len(),
            self.slots_view()[slot as int] is List,
        ensures
            r == self.slots_view()[slot as int]->List_0.len(),
    {
        match &self.slots[slot] {
            SlotValue::List(items) => {
                proof {
                    lemma_list_view_index(items@);
                }
                items.len()
            },
            _ => {
                proof {
                    assert(false);
                }
                0
            },
        }
    }

    /// The foreign object in `slot`, returned only if its envelope's type
    /// tag equals the requested tag: the sole safeguard against type
    /// confusion, since the VM itself knows nothing of host static types.
    pub fn get_slot_foreign(&self, slot: SlotId, type_id: u64) -> (r: Option<u64>)
        requires
            slot < self.slots_view().len(),
        ensures
            r == match self.slots_view()[slot as int] {
                ValueView::Foreign(fo) => if fo.type_id == type_id {
                    Some(fo.object)
                } else {
                    None::<u64>
                },
                _ => None::<u64>,
            },
    {
        match &self.slots[slot] {
            SlotValue::Foreign(fo) => if fo.type_id == type_id {
                Some(fo.object)
            } else {
                None
            },
            _ => None,
        }
    }

    /// Inject an already-constructed host object into `slot` as an instance
    /// of the registered class (module, class), as though the script had
    /// constructed it. The class lookup, the type-tag comparison, and the
    /// script-level class variable each gate the injection; slot 0 is
    /// overwritten with the class variable on the way.
    pub fn set_slot_new_foreign(
        &mut self,
        module: &str,
        class: &str,
        type_id: u64,
        object: u64,
        slot: SlotId,
    ) -> (r: Result<u64, ForeignSendError>)
        requires
            slot < usize::MAX,
        ensures
            only_slots_differ(old(self), final(self)),
            ({
                let g = grown_slots(old(self).slots_view(), slot as int + 1);
                match spec_send_class(old(self).library_view(), module@, class@) {
                    None => r == Err::<u64, _>(ForeignSendError::NoForeignClass) && final(self).slots_view() =~= g,
                    Some(rc) => if rc.type_id != type_id {
                        r == Err::<u64, _>(ForeignSendError::ClassMismatch) && final(self).slots_view() =~= g
                    } else {
                        let classval = match keyed_lookup(old(self).vars_view(), (module@, class@)) {
                            Some(v) => v,
                            None => ValueView::Null,
                        };
                        if classval is Unknown {
                            r == Ok::<_, ForeignSendError>(object) && final(self).slots_view()
                                =~= g.update(0, classval).update(
                                slot as int,
                                ValueView::Foreign(ForeignObject { object, type_id }),
                            )
                        } else {
                            r == Err::<u64, _>(ForeignSendError::NoWrenClass) && final(self).slots_view() =~= g.update(0, classval)
                        }
                    },
                }
            }),
    {
        self.ensure_slots(slot + 1);
        proof {
            assert(self.slots_view() =~= grown_slots(old(self).slots_view(), slot as int + 1));
        }
        let found_tag: Option<u64> = match &self.library {
            None => None,
            Some(lib) => match lib.get_foreign_class(module, class) {
                None => None,
                Some(rc) => Some(rc.type_id),
            },
        };
        match found_tag {
            None => Err(ForeignSendError::NoForeignClass),
            Some(tag) => {
                if tag != type_id {
                    Err(ForeignSendError::ClassMismatch)
                } else {
                    self.get_variable(module, class, 0);
                    match self.get_slot_type(0) {
                        SlotType::Unknown => {
                            self.slots[slot] = SlotValue::Foreign(
                                ForeignObject { object, type_id },
                            );
                            Ok(object)
                        },
                        _ => Err(ForeignSendError::NoWrenClass),
                    }
                }
            },
        }
    }

    /// Capture the value in `slot` behind a fresh handle, creating a VM-side
    /// hold on it.
    pub fn get_slot_handle(&mut self, slot: SlotId) -> (h: Handle)
        requires
            slot < old(self).slots_view().len(),
        ensures
            only_handles_differ(old(self), final(self)),
            h.id_spec() == old(self).handles_view().len(),
            final(self).handles_view() =~= old(self).handles_view().push(
                Some(HandleEntryView::Value(old(self).slots_view()[slot as int])),
            ),
    {
        let v = self.slots[slot].clone();
        let id = self.handles.len();
        self.handles.push(Some(HandleEntry::Value(v)));
        Handle { id }
    }

    /// Write the value a live handle holds back into `slot`.
    pub fn set_slot_handle(&mut self, slot: SlotId, handle: &Handle)
        requires
            slot < old(self).slots_view().len(),
            0 <= handle.id_spec() < old(self).handles_view().len(),
            old(self).handles_view()[handle.id_spec()] matches Some(HandleEntryView::Value(_)),
        ensures
            only_slots_differ(old(self), final(self)),
            old(self).handles_view()[handle.id_spec()] matches Some(HandleEntryView::Value(v))
                ==> final(self).slots_view() =~= old(self).slots_view().update(slot as int, v),
    {
        let stored = match &self.handles[handle.id] {
            Some(HandleEntry::Value(v)) => v.clone(),
            _ => {
                proof {
                    assert(false);
                }
                SlotValue::Null
            },
        };
        self.slots[slot] = stored;
    }

    /// Resolve a call handle for `signature`, so that repeated calls skip
    /// re-resolving the canonical string.
    pub fn make_call_handle(&mut self, signature: FunctionSignature) -> (h: FunctionHandle)
        ensures
            only_handles_differ(old(self), final(self)),
            h.id_spec() == old(self).handles_view().len(),
            final(self).handles_view() =~= old(self).handles_view().push(
                Some(HandleEntryView::Callable(signature.spec_wren_string())),
            ),
    {
        let key = signature.as_wren_string();
        let id = self.handles.len();
        self.handles.push(Some(HandleEntry::Callable(key)));
        FunctionHandle { id }
    }

    /// Release a handle's VM-side hold. The handle is consumed, so the
    /// release happens exactly once; the live count drops by exactly one and
    /// no other entry is touched.
    pub fn release_handle(&mut self, handle: Handle)
        requires
            0 <= handle.id_spec() < old(self).handles_view().len(),
            old(self).handles_view()[handle.id_spec()] is Some,
        ensures
            only_handles_differ(old(self), final(self)),
            final(self).handles_view() =~= old(self).handles_view().update(
                handle.id_spec(),
                None,
            ),
            live_handle_count(final(self).handles_view()) + 1 == live_handle_count(
                old(self).handles_view(),
            ),
    {
        self.handles[handle.id] = None;
        proof {
            assert(self.handles_view() =~= old(self).handles_view().update(
                handle.id_spec(),
                None,
            ));
            lemma_release_decrements_live_count(old(self).handles_view(), handle.id_spec());
        }
    }

    /// Release a call handle's VM-side hold, exactly once, as
    /// [`Self::release_handle`] does for a value handle.
    pub fn release_function_handle(&mut self, handle: FunctionHandle)
        requires
            0 <= handle.id_spec() < old(self).handles_view().len(),
            old(self).handles_view()[handle.id_spec()] is Some,
        ensures
            only_handles_differ(old(self), final(self)),
            final(self).handles_view() =~= old(self).handles_view().update(
                handle.id_spec(),
                None,
            ),
            live_handle_count(final(self).handles_view()) + 1 == live_handle_count(
                old(self).handles_view(),
            ),
    {
        self.handles[handle.id] = None;
        proof {
            assert(self.handles_view() =~= old(self).handles_view().update(
                handle.id_spec(),
                None,
            ));
            lemma_release_decrements_live_count(old(self).handles_view(), handle.id_spec());
        }
    }

    /// Route one report from the VM's error callback onto the error channel,
    /// preserving emission order: a compile report keeps its module and
    /// line, a runtime report is just its message, a stack-trace report
    /// names the frame's module, line and function.
    pub fn on_error(&mut self, kind: ErrorKind, module: &str, line: i32, message: &str)
        ensures
            only_errors_differ(old(self), final(self)),
            final(self).errors_view() =~= old(self).errors_view().push(
                match kind {
                    ErrorKind::Compile => WrenErrorView::Compile {
                        module: module@,
                        line: line as int,
                        message: message@,
                    },
                    ErrorKind::Runtime => WrenErrorView::Runtime { message: message@ },
                    ErrorKind::StackTrace => WrenErrorView::StackTrace {
                        module: module@,
                        line: line as int,
                        function: message@,
                    },
                },
            ),
    {
        let event = match kind {
            ErrorKind::Compile => WrenError::Compile(
                String::from_str(module),
                line,
                String::from_str(message),
            ),
            ErrorKind::Runtime => WrenError::Runtime(String::from_str(message)),
            ErrorKind::StackTrace => WrenError::StackTrace(
                String::from_str(module),
                line,
                String::from_str(message),
            ),
        };
        self.errors.push(event);
    }

    /// Forward one text from the VM's print callback to the host's output
    /// sink, in emission order.
    pub fn on_print(&mut self, message: &str)
        ensures
            final(self).printed_view() =~= old(self).printed_view().push(message@),
            final(self).slots_view() == old(self).slots_view(),
            final(self).errors_view() == old(self).errors_view(),
            final(self).vars_view() == old(self).vars_view(),
            final(self).handles_view() == old(self).handles_view(),
            final(self).library_view() == old(self).library_view(),
            final(self).abort_view() == old(self).abort_view(),
    {
        self.printed.push(String::from_str(message));
    }

    /// The texts forwarded to the output sink so far, in order.
    pub fn printed(&self) -> (r: &Vec<String>)
        ensures
            r@.map_values(|s: String| s@) == self.printed_view(),
    {
        &self.printed
    }

    /// Abort the current fiber, reading the error value from `slot`.
    pub fn abort_fiber(&mut self, slot: SlotId)
        requires
            slot < old(self).slots_view().len(),
        ensures
            final(self).abort_view() == Some(old(self).slots_view()[slot as int]),
            final(self).slots_view() == old(self).slots_view(),
            final(self).errors_view() == old(self).errors_view(),
            final(self).vars_view() == old(self).vars_view(),
            final(self).handles_view() == old(self).handles_view(),
            final(self).printed_view() == old(self).printed_view(),
            final(self).library_view() == old(self).library_view(),
    {
        self.aborted = Some(self.slots[slot].clone());
    }

    /// Assemble the result of an `interpret` run from its reported status,
    /// draining the error channel. A clean run leaves the channel alone; a
    /// compile failure takes the first event, which the VM emitted before it
    /// stopped; a runtime failure drains everything into one structured
    /// error, frames in emission order.
    pub fn interpret_outcome(&mut self, status: RunStatus) -> (r: Result<(), VMError>)
        requires
            status is CompileError ==> old(self).errors_view().len() > 0 && old(self).errors_view()[0] is Compile,
        ensures
            only_errors_differ(old(self), final(self)),
            match status {
                RunStatus::Success => r is Ok && final(self).errors_view() == old(self).errors_view(),
                RunStatus::CompileError => final(self).errors_view() =~= old(
                    self,
                ).errors_view().drop_first() && (r matches Err(e) && e@ matches
                    crate::errors::VMErrorView::Compile { module, line, error } && (old(
                    self,
                ).errors_view()[0] matches WrenErrorView::Compile { module: m, line: l, message }
                    && module == m && line == l && error == message)),
                RunStatus::RuntimeError => final(self).errors_view().len() == 0 && (r matches Err(
                    e,
                ) && e@ == spec_runtime_error(old(self).errors_view())),
            },
    {
        match status {
            RunStatus::Success => Ok(()),
            RunStatus::CompileError => {
                let ev = self.errors.remove(0);
                proof {
                    assert(self.errors_view() =~= old(self).errors_view().drop_first());
                }
                match ev {
                    WrenError::Compile(module, line, message) => Err(
                        VMError::Compile { module, line, error: message },
                    ),
                    _ => {
                        proof {
                            assert(false);
                        }
                        Ok(())
                    },
                }
            },
            RunStatus::RuntimeError => {
                let mut drained: Vec<WrenError> = Vec::new();
                core::mem::swap(&mut drained, &mut self.errors);
                proof {
                    assert(self.errors_view() =~= Seq::<WrenErrorView>::empty());
                    assert(drained@.map_values(|e: WrenError| e@) == old(self).errors_view());
                }
                Err(assemble_runtime_error(&drained))
            },
        }
    }

    /// Assemble the result of a `call` from its reported status, draining
    /// the error channel. A call never compiles, so a compile status cannot
    /// arise here.
    pub fn call_outcome(&mut self, status: RunStatus) -> (r: Result<(), VMError>)
        requires
            !(status is CompileError),
        ensures
            only_errors_differ(old(self), final(self)),
            match status {
                RunStatus::Success => r is Ok && final(self).errors_view() == old(self).errors_view(),
                RunStatus::CompileError => false,
                RunStatus::RuntimeError => final(self).errors_view().len() == 0 && (r matches Err(
                    e,
                ) && e@ == spec_runtime_error(old(self).errors_view())),
            },
    {
        match status {
            RunStatus::Success => Ok(()),
            RunStatus::CompileError => {
                proof {
                    assert(false);
                }
                Ok(())
            },
            RunStatus::RuntimeError => {
                let mut drained: Vec<WrenError> = Vec::new();
                core::mem::swap(&mut drained, &mut self.errors);
                proof {
                    assert(self.errors_view() =~= Seq::<WrenErrorView>::empty());
                    assert(drained@.map_values(|e: WrenError| e@) == old(self).errors_view());
                }
                Err(assemble_runtime_error(&drained))
            },
        }
    }
}

} // verus!
