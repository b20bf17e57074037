//! The foreign-class registry: module -> class -> native bindings.
//!
//! A registered class carries the allocation and finalization trampolines the
//! VM calls for instances, a method table resolved lazily by canonical
//! signature string and staticness, and the compile-time tag of the host type
//! it stands for. The registry is built once and attached to a VM at
//! creation; after that the VM's bind callbacks only look things up.
//!
//! Native function pointers cannot be inspected by this layer; each is named
//! by an opaque identifier the host chose (`pointer`, `construct`,
//! `destruct`), and host types are named by an opaque tag (`type_id`).

use vstd::prelude::*;
use vstd::string::StringExecFns;

use crate::signature::FunctionSignature;

verus! {

/// A native method bound to a script-visible signature.
pub struct MethodPointer {
    pub is_static: bool,
    pub signature: FunctionSignature,
    pub pointer: u64,
}

/// The mathematical value of one method-table entry: its staticness, its
/// canonical resolution key, and the identifier of its native function.
pub struct MethodPointerView {
    pub is_static: bool,
    pub key: Seq<char>,
    pub pointer: u64,
}

impl View for MethodPointer {
    type V = MethodPointerView;

    open spec fn view(&self) -> MethodPointerView {
        MethodPointerView {
            is_static: self.is_static,
            key: self.signature.spec_wren_string(),
            pointer: self.pointer,
        }
    }
}

/// The method table of one registered class.
pub struct ClassObjectPointers {
    pub function_pointers: Vec<MethodPointer>,
}

impl View for ClassObjectPointers {
    type V = Seq<MethodPointerView>;

    open spec fn view(&self) -> Seq<MethodPointerView> {
        Seq::new(self.function_pointers@.len(), |i: int| self.function_pointers@[i]@)
    }
}

/// One registered class: allocation and finalization trampolines, the method
/// table, and the tag of the host type its instances envelop.
pub struct RuntimeClass {
    pub construct: u64,
    pub destruct: u64,
    pub methods: ClassObjectPointers,
    pub type_id: u64,
}

/// The mathematical value of a registered class.
pub struct RuntimeClassView {
    pub construct: u64,
    pub destruct: u64,
    pub methods: Seq<MethodPointerView>,
    pub type_id: u64,
}

impl View for RuntimeClass {
    type V = RuntimeClassView;

    open spec fn view(&self) -> RuntimeClassView {
        RuntimeClassView {
            construct: self.construct,
            destruct: self.destruct,
            methods: self.methods@,
            type_id: self.type_id,
        }
    }
}

/// The mathematical value of a module: its classes as a keyed sequence,
/// newest registration first.
pub type ModuleView = Seq<(Seq<char>, RuntimeClassView)>;

/// The mathematical value of a module library: its modules as a keyed
/// sequence, newest registration first.
pub type LibraryView = Seq<(Seq<char>, ModuleView)>;

/// The first entry with the given key, if any: registration shadows older
/// entries of the same key.
pub open spec fn keyed_lookup<K, V>(entries: Seq<(K, V)>, key: K) -> Option<V>
    decreases entries.len(),
{
    if entries.len() == 0 {
        None
    } else if entries[0].0 == key {
        Some(entries[0].1)
    } else {
        keyed_lookup(entries.drop_first(), key)
    }
}

/// If position `i` holds the first entry with `key`, the lookup returns it.
pub proof fn lemma_keyed_lookup_at<K, V>(entries: Seq<(K, V)>, key: K, i: int)
    requires
        0 <= i < entries.len(),
        entries[i].0 == key,
        forall|j: int| 0 <= j < i ==> entries[j].0 != key,
    ensures
        keyed_lookup(entries, key) == Some(entries[i].1),
    decreases i,
{
    if i > 0 {
        lemma_keyed_lookup_at(entries.drop_first(), key, i - 1);
    }
}

/// If no entry holds `key`, the lookup returns nothing.
pub proof fn lemma_keyed_lookup_none<K, V>(entries: Seq<(K, V)>, key: K)
    requires
        forall|j: int| 0 <= j < entries.len() ==> entries[j].0 != key,
    ensures
        keyed_lookup(entries, key) is None,
    decreases entries.len(),
{
    if entries.len() > 0 {
        lemma_keyed_lookup_none(entries.drop_first(), key);
    }
}

/// Prepending an entry shadows its key and leaves every other key as it was.
pub proof fn lemma_keyed_lookup_prepend<K, V>(
    entries: Seq<(K, V)>,
    key: K,
    value: V,
    probe: K,
)
    ensures
        keyed_lookup(seq![(key, value)] + entries, probe) == if probe == key {
            Some(value)
        } else {
            keyed_lookup(entries, probe)
        },
{
    let combined = seq![(key, value)] + entries;
    assert(combined[0] == (key, value));
    assert(combined.drop_first() =~= entries);
}

/// The class registered in `lib` under (module, class), if any.
pub open spec fn spec_get_foreign_class(
    lib: LibraryView,
    module: Seq<char>,
    class: Seq<char>,
) -> Option<RuntimeClassView> {
    match keyed_lookup(lib, module) {
        Some(md) => keyed_lookup(md, class),
        None => None,
    }
}

/// The pointer of the first method-table entry matching the staticness and
/// the canonical key, if any.
pub open spec fn first_method_match(
    methods: Seq<MethodPointerView>,
    is_static: bool,
    key: Seq<char>,
) -> Option<u64>
    decreases methods.len(),
{
    if methods.len() == 0 {
        None
    } else if methods[0].is_static == is_static && methods[0].key == key {
        Some(methods[0].pointer)
    } else {
        first_method_match(methods.drop_first(), is_static, key)
    }
}

/// What bind-foreign-method resolves: look the class up, then take the first
/// matching method-table entry.
pub open spec fn spec_bind_foreign_method(
    lib: LibraryView,
    module: Seq<char>,
    class: Seq<char>,
    is_static: bool,
    key: Seq<char>,
) -> Option<u64> {
    match spec_get_foreign_class(lib, module, class) {
        Some(rc) => first_method_match(rc.methods, is_static, key),
        None => None,
    }
}

/// A group of host classes published under one module name.
pub struct Module {
    classes: Vec<(String, RuntimeClass)>,
}

impl View for Module {
    type V = ModuleView;

    closed spec fn view(&self) -> ModuleView {
        Seq::new(self.classes@.len(), |i: int| (self.classes@[i].0@, self.classes@[i].1@))
    }
}

impl Module {
    pub fn new() -> (r: Module)
        ensures
            r@ =~= Seq::<(Seq<char>, RuntimeClassView)>::empty(),
    {
        Module { classes: Vec::new() }
    }

    /// Register a class under `name`: its allocation and finalization
    /// trampolines, its method table, and the tag of the host type it wraps.
    /// A later registration of the same name shadows an earlier one.
    pub fn class(
        &mut self,
        name: &str,
        construct: u64,
        destruct: u64,
        methods: ClassObjectPointers,
        type_id: u64,
    )
        ensures
            final(self)@ =~= seq![
                (
                    name@,
                    RuntimeClassView { construct, destruct, methods: methods@, type_id },
                ),
            ] + old(self)@,
            keyed_lookup(final(self)@, name@) == Some(
                RuntimeClassView { construct, destruct, methods: methods@, type_id },
            ),
            forall|k: Seq<char>|
                k != name@ ==> keyed_lookup(final(self)@, k) == keyed_lookup(old(self)@, k),
    {
        let rc = RuntimeClass { construct, destruct, methods, type_id };
        let ghost rcv = rc@;
        self.classes.insert(0, (String::from_str(name), rc));
        proof {
            assert(self@ =~= seq![(name@, rcv)] + old(self)@);
            assert forall|k: Seq<char>| true implies keyed_lookup(self@, k) == (if k == name@ {
                Some(rcv)
            } else {
                keyed_lookup(old(self)@, k)
            }) by {
                lemma_keyed_lookup_prepend(old(self)@, name@, rcv, k);
            }
        }
    }

    /// The registered class of the given name, if any.
    pub fn find_class(&self, class: &str) -> (r: Option<&RuntimeClass>)
        ensures
            match keyed_lookup(self@, class@) {
                Some(v) => r matches Some(rc) && rc@ == v,
                None => r is None,
            },
    {
        let key = String::from_str(class);
        let mut i: usize = 0;
        while i < self.classes.len()
            invariant
                i <= self.classes@.len(),
                key@ == class@,
                self@.len() == self.classes@.len(),
                forall|j: int| 0 <= j < self@.len() ==> self@[j] == (
                    self.classes@[j].0@,
                    self.classes@[j].1@,
                ),
                forall|j: int| 0 <= j < i ==> self@[j].0 != class@,
            decreases self.classes@.len() - i,
        {
            if self.classes[i].0 == key {
                proof {
                    lemma_keyed_lookup_at(self@, class@, i as int);
                }
                return Some(&self.classes[i].1);
            }
            i = i + 1;
        }
        proof {
            lemma_keyed_lookup_none(self@, class@);
        }
        None
    }
}

/// The whole registry: modules keyed by name.
pub struct ModuleLibrary {
    modules: Vec<(String, Module)>,
}

impl View for ModuleLibrary {
    type V = LibraryView;

    closed spec fn view(&self) -> LibraryView {
        Seq::new(self.modules@.len(), |i: int| (self.modules@[i].0@, self.modules@[i].1@))
    }
}

impl ModuleLibrary {
    pub fn new() -> (r: ModuleLibrary)
        ensures
            r@ =~= Seq::<(Seq<char>, ModuleView)>::empty(),
    {
        ModuleLibrary { modules: Vec::new() }
    }

    /// Publish a module under `name`. A later publication of the same name
    /// shadows an earlier one.
    pub fn module(&mut self, name: &str, modl: Module)
        ensures
            final(self)@ =~= seq![(name@, modl@)] + old(self)@,
            keyed_lookup(final(self)@, name@) == Some(modl@),
            forall|k: Seq<char>|
                k != name@ ==> keyed_lookup(final(self)@, k) == keyed_lookup(old(self)@, k),
    {
        let ghost mv = modl@;
        self.modules.insert(0, (String::from_str(name), modl));
        proof {
            assert(self@ =~= seq![(name@, mv)] + old(self)@);
            assert forall|k: Seq<char>| true implies keyed_lookup(self@, k) == (if k == name@ {
                Some(mv)
            } else {
                keyed_lookup(old(self)@, k)
            }) by {
                lemma_keyed_lookup_prepend(old(self)@, name@, mv, k);
            }
        }
    }

    /// The class registered under (module, class), if any.
    pub fn get_foreign_class(&self, module: &str, class: &str) -> (r: Option<&RuntimeClass>)
        ensures
            match spec_get_foreign_class(self@, module@, class@) {
                Some(v) => r matches Some(rc) && rc@ == v,
                None => r is None,
            },
    {
        let key = String::from_str(module);
        let mut i: usize = 0;
        while i < self.modules.len()
            invariant
                i <= self.modules@.len(),
                key@ == module@,
                self@.len() == self.modules@.len(),
                forall|j: int| 0 <= j < self@.len() ==> self@[j] == (
                    self.modules@[j].0@,
                    self.modules@[j].1@,
                ),
                forall|j: int| 0 <= j < i ==> self@[j].0 != module@,
            decreases self.modules@.len() - i,
        {
            if self.modules[i].0 == key {
                proof {
                    lemma_keyed_lookup_at(self@, module@, i as int);
                }
                return self.modules[i].1.find_class(class);
            }
            i = i + 1;
        }
        proof {
            lemma_keyed_lookup_none(self@, module@);
        }
        None
    }

    /// Resolve a foreign method exactly as the VM's bind callback does: look
    /// the class up by (module, class), then take the first method-table
    /// entry whose staticness and canonical signature string both match.
    pub fn bind_foreign_method(
        &self,
        module: &str,
        class: &str,
        is_static: bool,
        signature: &str,
    ) -> (r: Option<u64>)
        ensures
            r == spec_bind_foreign_method(self@, module@, class@, is_static, signature@),
    {
        let key = String::from_str(signature);
        match self.get_foreign_class(module, class) {
            None => None,
            Some(rc) => {
                let ghost methods = rc.methods@;
                let mut i: usize = 0;
                while i < rc.methods.function_pointers.len()
                    invariant
                        i <= methods.len(),
                        key@ == signature@,
                        methods == rc.methods@,
                        spec_get_foreign_class(self@, module@, class@) == Some(rc@),
                        methods.len() == rc.methods.function_pointers@.len(),
                        forall|j: int| 0 <= j < methods.len() ==> methods[j]
                            == rc.methods.function_pointers@[j]@,
                        forall|j: int|
                            0 <= j < i ==> !(methods[j].is_static == is_static && methods[j].key
                                == signature@),
                    decreases methods.len() - i,
                {
                    let mp = &rc.methods.function_pointers[i];
                    let mp_key = mp.signature.as_wren_string();
                    if mp.is_static == is_static && mp_key == key {
                        proof {
                            lemma_first_method_match_at(methods, is_static, signature@, i as int);
                        }
                        return Some(mp.pointer);
                    }
                    i = i + 1;
                }
                proof {
                    lemma_first_method_match_none(methods, is_static, signature@);
                }
                None
            },
        }
    }

    /// Resolve a foreign class exactly as the VM's bind callback does: the
    /// allocation and finalization trampolines of the registered class, if
    /// any.
    pub fn bind_foreign_class(&self, module: &str, class: &str) -> (r: Option<(u64, u64)>)
        ensures
            match spec_get_foreign_class(self@, module@, class@) {
                Some(rc) => r == Some((rc.construct, rc.destruct)),
                None => r is None,
            },
    {
        match self.get_foreign_class(module, class) {
            Some(rc) => Some((rc.construct, rc.destruct)),
            None => None,
        }
    }
}

/// If position `i` holds the first matching method, the scan returns its
/// pointer.
pub proof fn lemma_first_method_match_at(
    methods: Seq<MethodPointerView>,
    is_static: bool,
    key: Seq<char>,
    i: int,
)
    requires
        0 <= i < methods.len(),
        methods[i].is_static == is_static,
        methods[i].key == key,
        forall|j: int|
            0 <= j < i ==> !(methods[j].is_static == is_static && methods[j].key == key),
    ensures
        first_method_match(methods, is_static, key) == Some(methods[i].pointer),
    decreases i,
{
    if i > 0 {
        lemma_first_method_match_at(methods.drop_first(), is_static, key, i - 1);
    }
}

/// If no entry matches, the scan returns nothing.
pub proof fn lemma_first_method_match_none(
    methods: Seq<MethodPointerView>,
    is_static: bool,
    key: Seq<char>,
)
    requires
        forall|j: int|
            0 <= j < methods.len() ==> !(methods[j].is_static == is_static && methods[j].key
                == key),
    ensures
        first_method_match(methods, is_static, key) is None,
    decreases methods.len(),
{
    if methods.len() > 0 {
        lemma_first_method_match_none(methods.drop_first(), is_static, key);
    }
}

/// Binding resolution is exact: it answers with a pointer precisely when a
/// matching entry is registered, and the pointer is the first matching
/// entry's — never another class's, never a non-matching signature's.
pub proof fn lemma_bind_foreign_method_exact(
    lib: LibraryView,
    module: Seq<char>,
    class: Seq<char>,
    is_static: bool,
    key: Seq<char>,
)
    ensures
        match spec_bind_foreign_method(lib, module, class, is_static, key) {
            Some(p) => spec_get_foreign_class(lib, module, class) matches Some(rc) && exists|j: int|
                0 <= j < rc.methods.len() && rc.methods[j].is_static == is_static
                    && rc.methods[j].key == key && rc.methods[j].pointer == p && (forall|l: int|
                    0 <= l < j ==> !(rc.methods[l].is_static == is_static && rc.methods[l].key
                        == key)),
            None => match spec_get_foreign_class(lib, module, class) {
                Some(rc) => forall|j: int|
                    0 <= j < rc.methods.len() ==> !(rc.methods[j].is_static == is_static
                        && rc.methods[j].key == key),
                None => true,
            },
        },
{
    match spec_get_foreign_class(lib, module, class) {
        Some(rc) => {
            lemma_first_method_match_exact(rc.methods, is_static, key);
        },
        None => {},
    }
}

/// The first-match scan is exact: a pointer comes with the position of the
/// first matching entry; nothing comes only when nothing matches.
pub proof fn lemma_first_method_match_exact(
    methods: Seq<MethodPointerView>,
    is_static: bool,
    key: Seq<char>,
)
    ensures
        match first_method_match(methods, is_static, key) {
            Some(p) => exists|j: int|
                0 <= j < methods.len() && methods[j].is_static == is_static && methods[j].key == key
                    && methods[j].pointer == p && (forall|l: int|
                    0 <= l < j ==> !(methods[l].is_static == is_static && methods[l].key == key)),
            None => forall|j: int|
                0 <= j < methods.len() ==> !(methods[j].is_static == is_static && methods[j].key
                    == key),
        },
    decreases methods.len(),
{
    if methods.len() > 0 {
        if methods[0].is_static == is_static && methods[0].key == key {
            assert(methods[0].pointer == first_method_match(methods, is_static, key)->Some_0);
        } else {
            lemma_first_method_match_exact(methods.drop_first(), is_static, key);
            match first_method_match(methods.drop_first(), is_static, key) {
                Some(p) => {
                    let j = choose|j: int|
                        0 <= j < methods.drop_first().len() && methods.drop_first()[j].is_static
                            == is_static && methods.drop_first()[j].key == key
                            && methods.drop_first()[j].pointer == p && (forall|l: int|
                            0 <= l < j ==> !(methods.drop_first()[l].is_static == is_static
                                && methods.drop_first()[l].key == key));
                    assert(methods[j + 1].is_static == is_static && methods[j + 1].key == key
                        && methods[j + 1].pointer == p);
                    assert forall|l: int| 0 <= l < j + 1 implies !(methods[l].is_static
                        == is_static && methods[l].key == key) by {
                        if l > 0 {
                            assert(methods[l] == methods.drop_first()[l - 1]);
                        }
                    }
                },
                None => {
                    assert(forall|j: int|
                        1 <= j < methods.len() ==> methods[j] == methods.drop_first()[j - 1]);
                },
            }
        }
    }
}

} // verus!
