//! The metadata that every managed object carries: identity, version tokens,
//! labels, annotations, owner references, finalizers and the deletion mark.

use crate::string_map::StringMap;
use crate::text::{
    copy_opt_text, copy_opt_texts, copy_texts, has_text, opt_text, opt_texts, same_opt_text,
    same_opt_texts, texts,
};
use vstd::prelude::*;

verus! {

/// API version and kind of an object.
pub struct TypeMeta {
    pub api_version: String,
    pub kind: String,
}

pub struct TypeMetaView {
    pub api_version: Seq<char>,
    pub kind: Seq<char>,
}

impl View for TypeMeta {
    type V = TypeMetaView;

    open spec fn view(&self) -> TypeMetaView {
        TypeMetaView { api_version: self.api_version@, kind: self.kind@ }
    }
}

/// The view of optional type information.
pub open spec fn opt_types(o: Option<TypeMeta>) -> Option<TypeMetaView> {
    match o {
        Some(t) => Some(t@),
        None => None,
    }
}

impl TypeMeta {
    pub fn duplicate(&self) -> (r: Self)
        ensures
            r@ == self@,
    {
        TypeMeta { api_version: self.api_version.clone(), kind: self.kind.clone() }
    }

    pub fn same(&self, other: &TypeMeta) -> (b: bool)
        ensures
            b == (self@ == other@),
    {
        self.api_version == other.api_version && self.kind == other.kind
    }
}

/// Whether two optional type informations are equal.
pub fn same_opt_types(a: &Option<TypeMeta>, b: &Option<TypeMeta>) -> (r: bool)
    ensures
        r == (opt_types(*a) == opt_types(*b)),
{
    match (a, b) {
        (Some(x), Some(y)) => x.same(y),
        (None, None) => true,
        _ => false,
    }
}

/// A weak back-reference to an owning object: identifier and UID, resolved by
/// lookup and never an embedded object.
pub struct OwnerReference {
    pub api_version: String,
    pub kind: String,
    pub name: String,
    pub uid: String,
}

pub struct OwnerReferenceView {
    pub api_version: Seq<char>,
    pub kind: Seq<char>,
    pub name: Seq<char>,
    pub uid: Seq<char>,
}

impl View for OwnerReference {
    type V = OwnerReferenceView;

    open spec fn view(&self) -> OwnerReferenceView {
        OwnerReferenceView {
            api_version: self.api_version@,
            kind: self.kind@,
            name: self.name@,
            uid: self.uid@,
        }
    }
}

impl OwnerReference {
    pub fn duplicate(&self) -> (r: Self)
        ensures
            r@ == self@,
    {
        OwnerReference {
            api_version: self.api_version.clone(),
            kind: self.kind.clone(),
            name: self.name.clone(),
            uid: self.uid.clone(),
        }
    }

    pub fn same(&self, other: &OwnerReference) -> (b: bool)
        ensures
            b == (self@ == other@),
    {
        self.api_version == other.api_version && self.kind == other.kind && self.name == other.name
            && self.uid == other.uid
    }
}

/// The views of a list of owner references.
pub open spec fn owner_views(v: Seq<OwnerReference>) -> Seq<OwnerReferenceView> {
    Seq::new(v.len(), |i: int| v[i]@)
}

/// The views of an optional list of owner references.
pub open spec fn opt_owner_views(o: Option<Vec<OwnerReference>>) -> Option<Seq<OwnerReferenceView>> {
    match o {
        Some(v) => Some(owner_views(v@)),
        None => None,
    }
}

/// The view of an optional string map.
pub open spec fn opt_map(o: Option<StringMap>) -> Option<Map<Seq<char>, Seq<char>>> {
    match o {
        Some(m) => Some(m@),
        None => None,
    }
}

/// The entries of an optional map, none of them where the map is absent.
pub open spec fn map_or_empty(o: Option<Map<Seq<char>, Seq<char>>>) -> Map<Seq<char>, Seq<char>> {
    match o {
        Some(m) => m,
        None => Map::empty(),
    }
}

/// A copy of an optional string map.
pub fn copy_opt_map(o: &Option<StringMap>) -> (r: Option<StringMap>)
    ensures
        opt_map(r) == opt_map(*o),
{
    match o {
        Some(m) => Some(m.duplicate()),
        None => None,
    }
}

/// Whether two optional string maps are equal.
pub fn same_opt_map(a: &Option<StringMap>, b: &Option<StringMap>) -> (r: bool)
    ensures
        r == (opt_map(*a) == opt_map(*b)),
{
    match (a, b) {
        (Some(x), Some(y)) => x.same(y),
        (None, None) => true,
        _ => false,
    }
}

/// Whether every entry of `a` is an entry of `b`, an absent map counting as empty.
pub fn opt_submap(a: &Option<StringMap>, b: &Option<StringMap>) -> (r: bool)
    ensures
        r == map_or_empty(opt_map(*a)).submap_of(map_or_empty(opt_map(*b))),
{
    match a {
        None => true,
        Some(x) => match b {
            Some(y) => x.is_submap_of(y),
            None => {
                let empty = StringMap::new();
                x.is_submap_of(&empty)
            },
        },
    }
}

/// A copy of a list of owner references.
pub fn copy_owners(v: &Vec<OwnerReference>) -> (r: Vec<OwnerReference>)
    ensures
        owner_views(r@) == owner_views(v@),
{
    let mut r: Vec<OwnerReference> = Vec::new();
    let mut i: usize = 0;
    while i < v.len()
        invariant
            i <= v@.len(),
            r@.len() == i,
            forall|j: int| 0 <= j < i ==> r@[j]@ == v@[j]@,
        decreases v@.len() - i,
    {
        r.push(v[i].duplicate());
        i += 1;
    }
    assert(owner_views(r@) =~= owner_views(v@));
    r
}

/// Whether two lists hold the same owner references in the same order.
pub fn same_owners(a: &Vec<OwnerReference>, b: &Vec<OwnerReference>) -> (r: bool)
    ensures
        r == (owner_views(a@) == owner_views(b@)),
{
    if a.len() != b.len() {
        assert(owner_views(a@).len() != owner_views(b@).len());
        return false;
    }
    let mut i: usize = 0;
    while i < a.len()
        invariant
            i <= a@.len(),
            a@.len() == b@.len(),
            forall|j: int| 0 <= j < i ==> a@[j]@ == b@[j]@,
        decreases a@.len() - i,
    {
        if !a[i].same(&b[i]) {
            assert(owner_views(a@)[i as int] != owner_views(b@)[i as int]);
            return false;
        }
        i += 1;
    }
    assert(owner_views(a@) =~= owner_views(b@));
    true
}

/// Metadata of a managed object.
pub struct ObjectMeta {
    pub name: Option<String>,
    pub generate_name: Option<String>,
    pub namespace: Option<String>,
    pub uid: Option<String>,
    /// Opaque version token that the API server advances when the desired state changes.
    pub generation: Option<i64>,
    /// Opaque version token that the API server advances on every accepted write.
    pub resource_version: Option<String>,
    pub labels: Option<StringMap>,
    pub annotations: Option<StringMap>,
    pub owner_references: Option<Vec<OwnerReference>>,
    /// Tokens that block the physical deletion of the object, in order.
    pub finalizers: Option<Vec<String>>,
    /// Set once deletion was requested.
    pub deletion_timestamp: Option<String>,
    /// The writers that the API server has recorded for the object's fields.
    pub managed_fields: Option<Vec<String>>,
}

pub struct ObjectMetaView {
    pub name: Option<Seq<char>>,
    pub generate_name: Option<Seq<char>>,
    pub namespace: Option<Seq<char>>,
    pub uid: Option<Seq<char>>,
    pub generation: Option<i64>,
    pub resource_version: Option<Seq<char>>,
    pub labels: Option<Map<Seq<char>, Seq<char>>>,
    pub annotations: Option<Map<Seq<char>, Seq<char>>>,
    pub owner_references: Option<Seq<OwnerReferenceView>>,
    pub finalizers: Option<Seq<Seq<char>>>,
    pub deletion_timestamp: Option<Seq<char>>,
    pub managed_fields: Option<Seq<Seq<char>>>,
}

impl View for ObjectMeta {
    type V = ObjectMetaView;

    open spec fn view(&self) -> ObjectMetaView {
        ObjectMetaView {
            name: opt_text(self.name),
            generate_name: opt_text(self.generate_name),
            namespace: opt_text(self.namespace),
            uid: opt_text(self.uid),
            generation: self.generation,
            resource_version: opt_text(self.resource_version),
            labels: opt_map(self.labels),
            annotations: opt_map(self.annotations),
            owner_references: opt_owner_views(self.owner_references),
            finalizers: opt_texts(self.finalizers),
            deletion_timestamp: opt_text(self.deletion_timestamp),
            managed_fields: opt_texts(self.managed_fields),
        }
    }
}

impl ObjectMetaView {
    /// Metadata with nothing set.
    pub open spec fn empty() -> ObjectMetaView {
        ObjectMetaView {
            name: None,
            generate_name: None,
            namespace: None,
            uid: None,
            generation: None,
            resource_version: None,
            labels: None,
            annotations: None,
            owner_references: None,
            finalizers: None,
            deletion_timestamp: None,
            managed_fields: None,
        }
    }

    /// The name, else the name prefix for generated names, else the empty text.
    pub open spec fn name_any(self) -> Seq<char> {
        match self.name {
            Some(n) => n,
            None => match self.generate_name {
                Some(g) => g,
                None => Seq::empty(),
            },
        }
    }

    /// The labels, none where the field is absent.
    pub open spec fn label_map(self) -> Map<Seq<char>, Seq<char>> {
        map_or_empty(self.labels)
    }

    /// The annotations, none where the field is absent.
    pub open spec fn annotation_map(self) -> Map<Seq<char>, Seq<char>> {
        map_or_empty(self.annotations)
    }

    /// The owner references, none where the field is absent.
    pub open spec fn owners(self) -> Seq<OwnerReferenceView> {
        match self.owner_references {
            Some(o) => o,
            None => Seq::empty(),
        }
    }

    /// Whether some owner reference carries the UID.
    pub open spec fn has_owner_uid(self, uid: Seq<char>) -> bool {
        exists|i: int| 0 <= i < self.owners().len() && #[trigger] self.owners()[i].uid == uid
    }

    /// The finalizers, none where the field is absent.
    pub open spec fn finalizer_list(self) -> Seq<Seq<char>> {
        match self.finalizers {
            Some(f) => f,
            None => Seq::empty(),
        }
    }

    /// Whether the token is among the finalizers.
    pub open spec fn has_finalizer(self, token: Seq<char>) -> bool {
        self.finalizer_list().contains(token)
    }

    /// Whether deletion of the object was requested.
    pub open spec fn is_deleting(self) -> bool {
        self.deletion_timestamp is Some
    }
}

impl ObjectMeta {
    /// Metadata with nothing set.
    pub fn new() -> (m: Self)
        ensures
            m@ == ObjectMetaView::empty(),
    {
        ObjectMeta {
            name: None,
            generate_name: None,
            namespace: None,
            uid: None,
            generation: None,
            resource_version: None,
            labels: None,
            annotations: None,
            owner_references: None,
            finalizers: None,
            deletion_timestamp: None,
            managed_fields: None,
        }
    }

    /// Metadata that carries a name and a namespace and nothing else.
    pub fn named(name: Option<String>, namespace: Option<String>) -> (m: Self)
        ensures
            m@ == (ObjectMetaView {
                name: opt_text(name),
                namespace: opt_text(namespace),
                ..ObjectMetaView::empty()
            }),
    {
        let mut m = ObjectMeta::new();
        m.name = name;
        m.namespace = namespace;
        m
    }

    /// A copy of the metadata.
    pub fn duplicate(&self) -> (m: Self)
        ensures
            m@ == self@,
    {
        ObjectMeta {
            name: copy_opt_text(&self.name),
            generate_name: copy_opt_text(&self.generate_name),
            namespace: copy_opt_text(&self.namespace),
            uid: copy_opt_text(&self.uid),
            generation: self.generation,
            resource_version: copy_opt_text(&self.resource_version),
            labels: copy_opt_map(&self.labels),
            annotations: copy_opt_map(&self.annotations),
            owner_references: match &self.owner_references {
                Some(o) => Some(copy_owners(o)),
                None => None,
            },
            finalizers: copy_opt_texts(&self.finalizers),
            deletion_timestamp: copy_opt_text(&self.deletion_timestamp),
            managed_fields: copy_opt_texts(&self.managed_fields),
        }
    }

    /// Whether both hold the same metadata.
    pub fn same(&self, other: &ObjectMeta) -> (b: bool)
        ensures
            b == (self@ == other@),
    {
        let owners = match (&self.owner_references, &other.owner_references) {
            (Some(x), Some(y)) => same_owners(x, y),
            (None, None) => true,
            _ => false,
        };
        let generation = match (self.generation, other.generation) {
            (Some(x), Some(y)) => x == y,
            (None, None) => true,
            _ => false,
        };
        owners && generation && same_opt_text(&self.name, &other.name) && same_opt_text(
            &self.generate_name,
            &other.generate_name,
        ) && same_opt_text(&self.namespace, &other.namespace) && same_opt_text(&self.uid, &other.uid)
            && same_opt_text(&self.resource_version, &other.resource_version) && same_opt_map(
            &self.labels,
            &other.labels,
        ) && same_opt_map(&self.annotations, &other.annotations) && same_opt_texts(
            &self.finalizers,
            &other.finalizers,
        ) && same_opt_text(&self.deletion_timestamp, &other.deletion_timestamp) && same_opt_texts(
            &self.managed_fields,
            &other.managed_fields,
        )
    }

    /// The name, else the name prefix for generated names, else the empty text.
    pub fn name_any(&self) -> (r: String)
        ensures
            r@ == self@.name_any(),
    {
        match &self.name {
            Some(n) => n.clone(),
            None => match &self.generate_name {
                Some(g) => g.clone(),
                None => String::new(),
            },
        }
    }

    /// Whether deletion of the object was requested.
    pub fn is_deleting(&self) -> (b: bool)
        ensures
            b == self@.is_deleting(),
    {
        self.deletion_timestamp.is_some()
    }

    /// Whether the token is among the finalizers.
    pub fn has_finalizer(&self, token: &String) -> (b: bool)
        ensures
            b == self@.has_finalizer(token@),
    {
        match &self.finalizers {
            Some(f) => has_text(f, token),
            None => {
                assert(!Seq::<Seq<char>>::empty().contains(token@));
                false
            },
        }
    }

    /// The finalizers followed by the token.
    pub fn finalizers_with(&self, token: &String) -> (r: Vec<String>)
        ensures
            texts(r@) == self@.finalizer_list().push(token@),
    {
        let mut r = match &self.finalizers {
            Some(f) => copy_texts(f),
            None => Vec::new(),
        };
        proof {
            assert(texts(r@) =~= self@.finalizer_list());
        }
        let ghost before = r@;
        r.push(token.clone());
        proof {
            assert(texts(r@) =~= texts(before).push(token@));
        }
        r
    }

    /// The finalizers other than the token, in their order.
    pub fn finalizers_without(&self, token: &String) -> (r: Vec<String>)
        ensures
            texts(r@) == self@.finalizer_list().filter(|f: Seq<char>| f != token@),
    {
        let ghost keep = |f: Seq<char>| f != token@;
        let mut r: Vec<String> = Vec::new();
        match &self.finalizers {
            Some(f) => {
                let mut i: usize = 0;
                proof {
                    assert(texts(f@).take(0) =~= Seq::<Seq<char>>::empty());
                    assert(texts(r@) =~= Seq::<Seq<char>>::empty());
                }
                while i < f.len()
                    invariant
                        i <= f@.len(),
                        keep == |f: Seq<char>| f != token@,
                        texts(r@) == texts(f@).take(i as int).filter(keep),
                    decreases f@.len() - i,
                {
                    let ghost before = r@;
                    proof {
                        let part = texts(f@).take(i as int);
                        let next = texts(f@).take(i + 1);
                        assert(next =~= part.push(f@[i as int]@));
                        assert(next.drop_last() =~= part);
                        reveal(Seq::filter);
                    }
                    if f[i] != *token {
                        r.push(f[i].clone());
                        proof {
                            assert(texts(r@) =~= texts(before).push(f@[i as int]@));
                        }
                    }
                    i += 1;
                }
                proof {
                    assert(texts(f@).take(i as int) =~= texts(f@));
                }
            },
            None => {
                proof {
                    assert(texts(r@) =~= Seq::<Seq<char>>::empty());
                }
            },
        }
        r
    }
}

} // verus!

verus! {

/// A reference to another object by type, namespace and name, and by UID
/// where the referrer knows which incarnation of the object it means.
pub struct ObjectReference {
    pub api_version: Option<String>,
    pub kind: Option<String>,
    pub name: Option<String>,
    pub namespace: Option<String>,
    pub uid: Option<String>,
}

pub struct ObjectReferenceView {
    pub api_version: Option<Seq<char>>,
    pub kind: Option<Seq<char>>,
    pub name: Option<Seq<char>>,
    pub namespace: Option<Seq<char>>,
    pub uid: Option<Seq<char>>,
}

impl View for ObjectReference {
    type V = ObjectReferenceView;

    open spec fn view(&self) -> ObjectReferenceView {
        ObjectReferenceView {
            api_version: opt_text(self.api_version),
            kind: opt_text(self.kind),
            name: opt_text(self.name),
            namespace: opt_text(self.namespace),
            uid: opt_text(self.uid),
        }
    }
}

impl ObjectReference {
    pub fn duplicate(&self) -> (r: Self)
        ensures
            r@ == self@,
    {
        ObjectReference {
            api_version: copy_opt_text(&self.api_version),
            kind: copy_opt_text(&self.kind),
            name: copy_opt_text(&self.name),
            namespace: copy_opt_text(&self.namespace),
            uid: copy_opt_text(&self.uid),
        }
    }
}

/// Whether two optional booleans are equal.
pub fn same_opt_bool(a: Option<bool>, b: Option<bool>) -> (r: bool)
    ensures
        r == (a == b),
{
    match (a, b) {
        (Some(x), Some(y)) => x == y,
        (None, None) => true,
        _ => false,
    }
}

/// Whether two optional integers are equal.
pub fn same_opt_i64(a: Option<i64>, b: Option<i64>) -> (r: bool)
    ensures
        r == (a == b),
{
    match (a, b) {
        (Some(x), Some(y)) => x == y,
        (None, None) => true,
        _ => false,
    }
}

} // verus!

verus! {

impl ObjectMetaView {
    /// The owner reference that points at an object with this metadata and the
    /// given type, where the object has a name and a UID.
    pub open spec fn owner_ref(self, types: TypeMetaView) -> Option<OwnerReferenceView> {
        if self.name is Some && self.uid is Some {
            Some(
                OwnerReferenceView {
                    api_version: types.api_version,
                    kind: types.kind,
                    name: self.name->0,
                    uid: self.uid->0,
                },
            )
        } else {
            None
        }
    }

    /// The list of owner references that holds [`Self::owner_ref`] where there is one.
    pub open spec fn owner_ref_list(self, types: TypeMetaView) -> Seq<OwnerReferenceView> {
        match self.owner_ref(types) {
            Some(r) => seq![r],
            None => Seq::empty(),
        }
    }
}

impl ObjectMeta {
    /// Computes [`ObjectMetaView::owner_ref`].
    pub fn owner_ref(&self, types: &TypeMeta) -> (r: Option<OwnerReference>)
        ensures
            match r {
                Some(o) => self@.owner_ref(types@) == Some(o@),
                None => self@.owner_ref(types@) is None,
            },
    {
        match (&self.name, &self.uid) {
            (Some(name), Some(uid)) => Some(
                OwnerReference {
                    api_version: types.api_version.clone(),
                    kind: types.kind.clone(),
                    name: name.clone(),
                    uid: uid.clone(),
                },
            ),
            _ => None,
        }
    }

    /// Computes [`ObjectMetaView::owner_ref_list`].
    pub fn owner_ref_list(&self, types: &TypeMeta) -> (r: Vec<OwnerReference>)
        ensures
            owner_views(r@) == self@.owner_ref_list(types@),
    {
        let mut r: Vec<OwnerReference> = Vec::new();
        match self.owner_ref(types) {
            Some(o) => {
                r.push(o);
            },
            None => {},
        }
        assert(owner_views(r@) =~= self@.owner_ref_list(types@));
        r
    }
}

} // verus!

verus! {

/// One observation in the status of an object.
pub struct Condition {
    pub type_: String,
    pub status: String,
    pub reason: String,
    pub message: String,
    pub observed_generation: Option<i64>,
    pub last_transition_time: String,
}

pub struct ConditionView {
    pub type_: Seq<char>,
    pub status: Seq<char>,
    pub reason: Seq<char>,
    pub message: Seq<char>,
    pub observed_generation: Option<i64>,
    pub last_transition_time: Seq<char>,
}

impl View for Condition {
    type V = ConditionView;

    open spec fn view(&self) -> ConditionView {
        ConditionView {
            type_: self.type_@,
            status: self.status@,
            reason: self.reason@,
            message: self.message@,
            observed_generation: self.observed_generation,
            last_transition_time: self.last_transition_time@,
        }
    }
}

impl Condition {
    pub fn duplicate(&self) -> (r: Self)
        ensures
            r@ == self@,
    {
        Condition {
            type_: self.type_.clone(),
            status: self.status.clone(),
            reason: self.reason.clone(),
            message: self.message.clone(),
            observed_generation: self.observed_generation,
            last_transition_time: self.last_transition_time.clone(),
        }
    }
}

/// The views of a list of conditions.
pub open spec fn condition_views(v: Seq<Condition>) -> Seq<ConditionView> {
    Seq::new(v.len(), |i: int| v[i]@)
}

} // verus!
