//! A table of entry points.
//!
//! Requester and oracle share no interface definition: all that ties a call
//! to an entry point is the selector derived from its name. A registry keeps
//! the names of one namespace in one place, each with its selector, so that
//! the side that embeds a selector and the side that routes by it read the
//! same list.

use crate::selector::{get_sighash, same_selector, sighash, SELECTOR_BYTES};
use vstd::prelude::*;
use vstd::utf8::encode_utf8;

verus! {

/// The selector of the entry point `name` in `namespace`, both given as
/// text.
pub open spec fn selector_of(namespace: Seq<char>, name: Seq<char>) -> Seq<u8> {
    sighash(encode_utf8(namespace), encode_utf8(name))
}

/// Whether `found` is what resolving `selector` in `registry` gives: the
/// index of the first name that has this selector, or `None` where no name
/// has it.
pub open spec fn is_resolution(registry: RegistryView, selector: Seq<u8>, found: Option<usize>) -> bool {
    match found {
        Some(index) => {
            &&& index < registry.names.len()
            &&& selector_of(registry.namespace, registry.names[index as int]) == selector
            &&& forall|j: int|
                0 <= j < index ==> selector_of(registry.namespace, #[trigger] registry.names[j])
                    != selector
        },
        None => forall|j: int|
            0 <= j < registry.names.len() ==> selector_of(
                registry.namespace,
                #[trigger] registry.names[j],
            ) != selector,
    }
}

/// One entry point: its name, and the selector by which it is addressed.
struct EntryPoint {
    name: String,
    selector: [u8; 8],
}

/// The entry points of one namespace, in the order in which they were
/// registered.
pub struct SelectorRegistry {
    namespace: String,
    entries: Vec<EntryPoint>,
}

/// A `SelectorRegistry` as a mathematical value: its namespace and the names
/// registered, in order. The selectors follow from these.
pub struct RegistryView {
    pub namespace: Seq<char>,
    pub names: Seq<Seq<char>>,
}

impl View for SelectorRegistry {
    type V = RegistryView;

    closed spec fn view(&self) -> RegistryView {
        RegistryView {
            namespace: self.namespace@,
            names: Seq::new(self.entries@.len(), |i: int| self.entries@[i].name@),
        }
    }
}

impl SelectorRegistry {
    /// Every entry holds the selector of its own name.
    #[verifier::type_invariant]
    spec fn well_formed(self) -> bool {
        forall|i: int|
            0 <= i < self.entries@.len() ==> (#[trigger] self.entries@[i]).selector@
                == selector_of(self.namespace@, self.entries@[i].name@)
    }

    /// An empty registry for `namespace`.
    pub fn new(namespace: &str) -> (registry: SelectorRegistry)
        ensures
            registry@.namespace == namespace@,
            registry@.names == Seq::<Seq<char>>::empty(),
    {
        let registry = SelectorRegistry { namespace: namespace.to_owned(), entries: Vec::new() };
        assert(registry@.names =~= Seq::<Seq<char>>::empty());
        registry
    }

    /// The number of entry points registered.
    pub fn len(&self) -> (count: usize)
        ensures
            count == self@.names.len(),
    {
        self.entries.len()
    }

    /// The registry with the entry point `name` added at the end.
    pub fn register(self, name: &str) -> (registry: SelectorRegistry)
        ensures
            registry@.namespace == self@.namespace,
            registry@.names == self@.names.push(name@),
    {
        proof {
            use_type_invariant(&self);
        }
        let selector = get_sighash(self.namespace.as_str(), name);
        let SelectorRegistry { namespace, entries } = self;
        let mut entries = entries;
        entries.push(EntryPoint { name: name.to_owned(), selector });
        let registry = SelectorRegistry { namespace, entries };
        assert(registry@.names =~= self@.names.push(name@));
        registry
    }

    /// The selector of the entry point registered at `index`.
    pub fn selector_at(&self, index: usize) -> (selector: Option<[u8; 8]>)
        ensures
            match selector {
                Some(bytes) => index < self@.names.len() && bytes@ == selector_of(
                    self@.namespace,
                    self@.names[index as int],
                ),
                None => index >= self@.names.len(),
            },
    {
        proof {
            use_type_invariant(self);
        }
        if index < self.entries.len() {
            Some(self.entries[index].selector)
        } else {
            None
        }
    }

    /// The name of the entry point registered at `index`.
    pub fn name_at(&self, index: usize) -> (name: Option<&str>)
        ensures
            match name {
                Some(text) => index < self@.names.len() && text@ == self@.names[index as int],
                None => index >= self@.names.len(),
            },
    {
        if index < self.entries.len() {
            Some(self.entries[index].name.as_str())
        } else {
            None
        }
    }

    /// Finds the entry point that `selector` addresses: the index of the
    /// first entry registered whose name has this selector, `None` where no
    /// name has it.
    pub fn resolve(&self, selector: &[u8; 8]) -> (found: Option<usize>)
        ensures
            is_resolution(self@, selector@, found),
    {
        proof {
            use_type_invariant(self);
        }
        let mut i: usize = 0;
        while i < self.entries.len()
            invariant
                i <= self.entries@.len(),
                self.well_formed(),
                forall|j: int|
                    0 <= j < i ==> selector_of(self@.namespace, #[trigger] self@.names[j])
                        != selector@,
            decreases self.entries@.len() - i,
        {
            if same_selector(&self.entries[i].selector, selector) {
                return Some(i);
            }
            i += 1;
        }
        None
    }

    /// Routes a call by the selector at the head of its payload: the entry
    /// point that the first eight bytes address. A payload of fewer than
    /// eight bytes addresses nothing.
    pub fn route(&self, payload: &[u8]) -> (found: Option<usize>)
        ensures
            payload@.len() < SELECTOR_BYTES ==> found is None,
            payload@.len() >= SELECTOR_BYTES ==> is_resolution(
                self@,
                payload@.subrange(0, SELECTOR_BYTES as int),
                found,
            ),
    {
        if payload.len() < SELECTOR_BYTES {
            return None;
        }
        let mut selector: [u8; 8] = [0u8; 8];
        let mut i: usize = 0;
        while i < SELECTOR_BYTES
            invariant
                i <= SELECTOR_BYTES,
                payload@.len() >= SELECTOR_BYTES,
                forall|j: int| 0 <= j < i ==> selector@[j] == payload@[j],
            decreases SELECTOR_BYTES - i,
        {
            selector[i] = payload[i];
            i += 1;
        }
        assert(selector@ =~= payload@.subrange(0, SELECTOR_BYTES as int));
        self.resolve(&selector)
    }
}

/// Routing finds what was registered: in a registry that holds a name, the
/// selector of that name resolves to an entry point with that very selector,
/// at or before the place of the name.
pub proof fn lemma_registered_name_resolves(
    registry: RegistryView,
    index: int,
    found: Option<usize>,
)
    requires
        0 <= index < registry.names.len(),
        is_resolution(registry, selector_of(registry.namespace, registry.names[index]), found),
    ensures
        found matches Some(first) && first <= index && selector_of(
            registry.namespace,
            registry.names[first as int],
        ) == selector_of(registry.namespace, registry.names[index]),
{
}

/// Routing never invents an entry point: a selector that no registered name
/// has resolves to nothing.
pub proof fn lemma_unknown_selector_resolves_to_nothing(
    registry: RegistryView,
    selector: Seq<u8>,
    found: Option<usize>,
)
    requires
        forall|j: int|
            0 <= j < registry.names.len() ==> selector_of(
                registry.namespace,
                #[trigger] registry.names[j],
            ) != selector,
        is_resolution(registry, selector, found),
    ensures
        found is None,
{
}

} // verus!
