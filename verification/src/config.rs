//! Configurations: the desired set of components, each under a stable identifier.

use vstd::prelude::*;

verus! {

/// The role of a component in the pipeline.
#[derive(Clone, Copy, Debug, PartialEq, Eq, Structural)]
pub enum ComponentKind {
    Source,
    Transform,
    Sink,
}

/// One component of a configuration.
///
/// `revision` stands for the component's settings: two descriptions of a component
/// carry the same revision exactly when their settings are the same.
#[derive(Clone, Copy, Debug, PartialEq, Eq, Structural)]
pub struct Component {
    pub id: u64,
    pub kind: ComponentKind,
    pub revision: u64,
}

/// How a component of one configuration stands against another configuration.
#[derive(Clone, Copy, Debug, PartialEq, Eq, Structural)]
pub enum Change {
    /// The other configuration has no component under this identifier.
    Added,
    /// The other configuration has a different component under this identifier.
    Changed,
    /// The other configuration has the very same component.
    Unchanged,
}

/// Some component of `s` carries the identifier `id`.
pub open spec fn has_id(s: Seq<Component>, id: u64) -> bool {
    exists|i: int| 0 <= i < s.len() && (#[trigger] s[i]).id == id
}

/// No two components of `s` share an identifier.
pub open spec fn distinct_ids(s: Seq<Component>) -> bool {
    forall|i: int, j: int| 0 <= i < j < s.len() ==> (#[trigger] s[i]).id != (#[trigger] s[j]).id
}

/// A position of `s` that holds the identifier `id`, if there is one.
pub open spec fn index_of(s: Seq<Component>, id: u64) -> int {
    choose|i: int| 0 <= i < s.len() && (#[trigger] s[i]).id == id
}

/// The component of `s` under the identifier `id`.
pub open spec fn find(s: Seq<Component>, id: u64) -> Option<Component> {
    if has_id(s, id) {
        Some(s[index_of(s, id)])
    } else {
        None
    }
}

/// The identifiers of `s`, in order.
pub open spec fn ids(s: Seq<Component>) -> Seq<u64> {
    Seq::new(s.len(), |i: int| s[i].id)
}

/// How the component `c` stands against the configuration `other`.
pub open spec fn classify(other: Seq<Component>, c: Component) -> Change {
    match find(other, c.id) {
        None => Change::Added,
        Some(o) => if o == c {
            Change::Unchanged
        } else {
            Change::Changed
        },
    }
}

/// The identifiers of the components of `s` that stand against `other` as
/// `class` says, in the order of `s`.
pub open spec fn ids_in_class(other: Seq<Component>, s: Seq<Component>, class: Change) -> Seq<u64>
    decreases s.len(),
{
    if s.len() == 0 {
        Seq::empty()
    } else {
        let init = ids_in_class(other, s.drop_last(), class);
        if classify(other, s.last()) == class {
            init.push(s.last().id)
        } else {
            init
        }
    }
}

/// In a sequence with distinct identifiers, the component found under an
/// identifier is the one that stands at any position holding it.
pub proof fn lemma_find_at(s: Seq<Component>, k: int)
    requires
        distinct_ids(s),
        0 <= k < s.len(),
    ensures
        has_id(s, s[k].id),
        index_of(s, s[k].id) == k,
        find(s, s[k].id) == Some(s[k]),
{
}

/// A configuration: components in a fixed order, no two under one identifier.
#[derive(Debug, PartialEq, Eq)]
pub struct Configuration {
    components: Vec<Component>,
}

impl View for Configuration {
    type V = Seq<Component>;

    closed spec fn view(&self) -> Seq<Component> {
        self.components@
    }
}

impl Clone for Configuration {
    /// A configuration with the same components.
    fn clone(&self) -> (r: Self)
        ensures
            r@ == self@,
    {
        proof {
            use_type_invariant(self);
        }
        let n = self.components.len();
        let mut components: Vec<Component> = Vec::new();
        let mut i: usize = 0;
        while i < n
            invariant
                n == self.components.len(),
                i <= n,
                components@ == self@.take(i as int),
            decreases n - i,
        {
            components.push(self.components[i]);
            i += 1;
        }
        Configuration { components }
    }
}

impl Configuration {
    /// Every configuration keeps its identifiers distinct.
    #[verifier::type_invariant]
    pub open spec fn wf(&self) -> bool {
        distinct_ids(self@)
    }

    /// The configuration made of `components`, unless two of them share an
    /// identifier.
    pub fn new(components: Vec<Component>) -> (r: Option<Configuration>)
        ensures
            match r {
                Some(c) => distinct_ids(components@) && c@ == components@,
                None => !distinct_ids(components@),
            },
    {
        let n = components.len();
        let mut i: usize = 0;
        while i < n
            invariant
                n == components.len(),
                i <= n,
                forall|a: int, b: int|
                    0 <= a < b < i ==> (#[trigger] components@[a]).id != (
                    #[trigger] components@[b]).id,
            decreases n - i,
        {
            let mut j: usize = 0;
            while j < i
                invariant
                    j <= i < n,
                    n == components.len(),
                    forall|a: int|
                        0 <= a < j ==> (#[trigger] components@[a]).id != components@[i as int].id,
                decreases i - j,
            {
                if components[j].id == components[i].id {
                    return None;
                }
                j += 1;
            }
            i += 1;
        }
        Some(Configuration { components })
    }

    /// The configuration without components.
    pub fn empty() -> (r: Configuration)
        ensures
            r@ == Seq::<Component>::empty(),
    {
        Configuration { components: Vec::new() }
    }

    /// The number of components.
    pub fn len(&self) -> (n: usize)
        ensures
            n == self@.len(),
    {
        self.components.len()
    }

    /// The component at position `i`, if there is one.
    pub fn get(&self, i: usize) -> (r: Option<Component>)
        ensures
            r == if i < self@.len() {
                Some(self@[i as int])
            } else {
                None
            },
    {
        if i < self.components.len() {
            Some(self.components[i])
        } else {
            None
        }
    }

    /// The component at position `i`.
    pub(crate) fn at(&self, i: usize) -> (c: Component)
        requires
            i < self@.len(),
        ensures
            c == self@[i as int],
    {
        self.components[i]
    }

    /// The identifiers, in order.
    pub fn ids(&self) -> (r: Vec<u64>)
        ensures
            r@ == ids(self@),
    {
        let n = self.components.len();
        let mut out: Vec<u64> = Vec::new();
        let mut i: usize = 0;
        while i < n
            invariant
                n == self.components.len(),
                i <= n,
                out@ == ids(self@).take(i as int),
            decreases n - i,
        {
            out.push(self.components[i].id);
            i += 1;
        }
        out
    }

    /// The component under the identifier `id`, if there is one.
    pub fn find(&self, id: u64) -> (r: Option<Component>)
        ensures
            r == find(self@, id),
    {
        proof {
            use_type_invariant(self);
        }
        let n = self.components.len();
        let mut i: usize = 0;
        while i < n
            invariant
                n == self.components.len(),
                i <= n,
                distinct_ids(self@),
                forall|k: int| 0 <= k < i ==> (#[trigger] self@[k]).id != id,
            decreases n - i,
        {
            if self.components[i].id == id {
                return Some(self.components[i]);
            }
            i += 1;
        }
        None
    }

    /// Whether a component stands under the identifier `id`.
    pub fn contains(&self, id: u64) -> (b: bool)
        ensures
            b == has_id(self@, id),
    {
        self.find(id).is_some()
    }

    /// How the component `c` of another configuration stands against this one.
    pub fn classify(&self, c: Component) -> (r: Change)
        ensures
            r == classify(self@, c),
    {
        match self.find(c.id) {
            None => Change::Added,
            Some(o) => if o == c {
                Change::Unchanged
            } else {
                Change::Changed
            },
        }
    }

    /// The identifiers of this configuration's components that stand against
    /// `other` as `class` says, in this configuration's order.
    pub fn ids_in_class(&self, other: &Configuration, class: Change) -> (r: Vec<u64>)
        ensures
            r@ == ids_in_class(other@, self@, class),
    {
        let n = self.components.len();
        let mut out: Vec<u64> = Vec::new();
        let mut i: usize = 0;
        while i < n
            invariant
                n == self.components.len(),
                i <= n,
                out@ == ids_in_class(other@, self@.take(i as int), class),
            decreases n - i,
        {
            let c = self.components[i];
            assert(self@.take(i + 1).drop_last() =~= self@.take(i as int));
            if other.classify(c) == class {
                out.push(c.id);
            }
            i += 1;
        }
        assert(self@.take(n as int) =~= self@);
        out
    }
}

} // verus!
