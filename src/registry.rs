//! The extensions registry: stable integer anchors for the user-defined
//! types, functions and type variations that a schema and its expressions use.
use vstd::prelude::*;

verus! {

/// One registered extension, as the contracts see it: uri, name and anchor.
pub type Entry = (Seq<char>, Seq<char>, u32);

/// The anchor that `(uri, name)` received in `es`, if it was registered there.
pub open spec fn anchor_of(es: Seq<Entry>, uri: Seq<char>, name: Seq<char>) -> Option<u32>
    decreases es.len(),
{
    if es.len() == 0 {
        None
    } else if es[0].0 == uri && es[0].1 == name {
        Some(es[0].2)
    } else {
        anchor_of(es.drop_first(), uri, name)
    }
}

/// The `(uri, name)` pair that holds `anchor` in `es`, if any does.
pub open spec fn name_of(es: Seq<Entry>, anchor: u32) -> Option<(Seq<char>, Seq<char>)>
    decreases es.len(),
{
    if es.len() == 0 {
        None
    } else if es[0].2 == anchor {
        Some((es[0].0, es[0].1))
    } else {
        name_of(es.drop_first(), anchor)
    }
}

/// Every anchor of `es` lies in `[1, counter)`.
pub open spec fn anchors_below(es: Seq<Entry>, counter: nat) -> bool {
    forall|i: int| 0 <= i < es.len() ==> 1 <= #[trigger] es[i].2 && es[i].2 < counter
}

/// No anchor of `a` is an anchor of `b`.
pub open spec fn anchors_disjoint(a: Seq<Entry>, b: Seq<Entry>) -> bool {
    forall|i: int, j: int| 0 <= i < a.len() && 0 <= j < b.len() ==> #[trigger] a[i].2 != #[trigger] b[j].2
}

/// No anchor occurs twice in `es`.
pub open spec fn anchors_distinct(es: Seq<Entry>) -> bool {
    forall|i: int, j: int| 0 <= i < es.len() && 0 <= j < es.len() && i != j ==> #[trigger] es[i].2 != #[trigger] es[j].2
}

/// Registering `(uri, name)` in one namespace: an existing pair keeps its
/// anchor; a new pair takes the counter, which then moves on by one.
pub open spec fn register_in(es: Seq<Entry>, counter: nat, uri: Seq<char>, name: Seq<char>) -> (Seq<Entry>, nat, u32) {
    match anchor_of(es, uri, name) {
        Some(a) => (es, counter, a),
        None => (es.push((uri, name, counter as u32)), counter + 1, counter as u32),
    }
}

/// The three namespaces of a registry.
pub enum Namespace {
    Types,
    Functions,
    Variations,
}

/// What a registry holds: three namespaces and one counter shared by them.
pub struct RegistryModel {
    pub types: Seq<Entry>,
    pub functions: Seq<Entry>,
    pub variations: Seq<Entry>,
    pub counter: nat,
}

impl RegistryModel {
    /// A registry with nothing registered.
    pub open spec fn empty() -> RegistryModel {
        RegistryModel { types: seq![], functions: seq![], variations: seq![], counter: 1 }
    }

    /// Anchors start at 1, stay below the counter, are never shared, and the
    /// counter has moved on once per registration.
    pub open spec fn wf(self) -> bool {
        &&& self.counter == self.types.len() + self.functions.len() + self.variations.len() + 1
        &&& anchors_below(self.types, self.counter)
        &&& anchors_below(self.functions, self.counter)
        &&& anchors_below(self.variations, self.counter)
        &&& anchors_distinct(self.types)
        &&& anchors_distinct(self.functions)
        &&& anchors_distinct(self.variations)
        &&& anchors_disjoint(self.types, self.functions)
        &&& anchors_disjoint(self.types, self.variations)
        &&& anchors_disjoint(self.functions, self.variations)
    }

    /// The entries of one namespace.
    pub open spec fn namespace(self, namespace: Namespace) -> Seq<Entry> {
        match namespace {
            Namespace::Types => self.types,
            Namespace::Functions => self.functions,
            Namespace::Variations => self.variations,
        }
    }

    /// Registering `(uri, name)` in `namespace` needs no new anchor, or
    /// there is one left.
    pub open spec fn can_register(self, namespace: Namespace, uri: Seq<char>, name: Seq<char>) -> bool {
        self.has_room(1) || anchor_of(self.namespace(namespace), uri, name) is Some
    }

    /// Room for `n` more registrations before anchors run out.
    pub open spec fn has_room(self, n: nat) -> bool {
        self.counter + n <= u32::MAX
    }

    pub open spec fn register(self, namespace: Namespace, uri: Seq<char>, name: Seq<char>) -> (RegistryModel, u32) {
        match namespace {
            Namespace::Types => self.register_type(uri, name),
            Namespace::Functions => self.register_function(uri, name),
            Namespace::Variations => self.register_variation(uri, name),
        }
    }

    pub open spec fn register_type(self, uri: Seq<char>, name: Seq<char>) -> (RegistryModel, u32) {
        let (es, c, a) = register_in(self.types, self.counter, uri, name);
        (RegistryModel { types: es, counter: c, ..self }, a)
    }

    pub open spec fn register_function(self, uri: Seq<char>, name: Seq<char>) -> (RegistryModel, u32) {
        let (es, c, a) = register_in(self.functions, self.counter, uri, name);
        (RegistryModel { functions: es, counter: c, ..self }, a)
    }

    pub open spec fn register_variation(self, uri: Seq<char>, name: Seq<char>) -> (RegistryModel, u32) {
        let (es, c, a) = register_in(self.variations, self.counter, uri, name);
        (RegistryModel { variations: es, counter: c, ..self }, a)
    }
}

/// A uri together with a name.
#[derive(Debug)]
pub struct QualifiedName {
    pub uri: String,
    pub name: String,
}

impl QualifiedName {
    pub open spec fn view(&self) -> (Seq<char>, Seq<char>) {
        (self.uri@, self.name@)
    }

    /// Renders the name as `uri#name`.
    pub fn to_text(&self) -> (r: String)
        ensures
            r@ == self.uri@ + "#"@ + self.name@,
    {
        let mut r = self.uri.clone();
        r.append("#");
        r.append(self.name.as_str());
        r
    }
}

/// A registered extension.
#[derive(Debug)]
pub struct ExtensionRecord {
    pub uri: String,
    pub name: String,
    pub anchor: u32,
}

impl ExtensionRecord {
    pub open spec fn view(&self) -> Entry {
        (self.uri@, self.name@, self.anchor)
    }
}

pub open spec fn records_view(rs: Seq<ExtensionRecord>) -> Seq<Entry> {
    rs.map_values(|r: ExtensionRecord| r@)
}

proof fn lemma_anchor_of_skip(es: Seq<Entry>, i: int, uri: Seq<char>, name: Seq<char>)
    requires
        0 <= i < es.len(),
        !(es[i].0 == uri && es[i].1 == name),
    ensures
        anchor_of(es.skip(i), uri, name) == anchor_of(es.skip(i + 1), uri, name),
{
    assert(es.skip(i).drop_first() =~= es.skip(i + 1));
}

proof fn lemma_name_of_skip(es: Seq<Entry>, i: int, anchor: u32)
    requires
        0 <= i < es.len(),
        es[i].2 != anchor,
    ensures
        name_of(es.skip(i), anchor) == name_of(es.skip(i + 1), anchor),
{
    assert(es.skip(i).drop_first() =~= es.skip(i + 1));
}

/// Finds the record of `(uri, name)` in `records`.
fn find_by_name(records: &Vec<ExtensionRecord>, uri: &String, name: &String) -> (r: Option<u32>)
    ensures
        r == anchor_of(records_view(records@), uri@, name@),
{
    let ghost es = records_view(records@);
    assert(es.skip(0) =~= es);
    let mut i: usize = 0;
    while i < records.len()
        invariant
            0 <= i <= records.len(),
            es == records_view(records@),
            anchor_of(es, uri@, name@) == anchor_of(es.skip(i as int), uri@, name@),
        decreases records.len() - i,
    {
        let rec = &records[i];
        if rec.uri == *uri && rec.name == *name {
            assert(es.skip(i as int)[0] == es[i as int]);
            return Some(rec.anchor);
        }
        proof {
            lemma_anchor_of_skip(es, i as int, uri@, name@);
        }
        i = i + 1;
    }
    assert(es.skip(i as int).len() == 0);
    None
}

/// Finds the record that holds `anchor` in `records`.
fn find_by_anchor(records: &Vec<ExtensionRecord>, anchor: u32) -> (r: Option<QualifiedName>)
    ensures
        r matches Some(q) ==> name_of(records_view(records@), anchor) == Some(q@),
        r is None ==> name_of(records_view(records@), anchor) is None,
{
    let ghost es = records_view(records@);
    assert(es.skip(0) =~= es);
    let mut i: usize = 0;
    while i < records.len()
        invariant
            0 <= i <= records.len(),
            es == records_view(records@),
            name_of(es, anchor) == name_of(es.skip(i as int), anchor),
        decreases records.len() - i,
    {
        let rec = &records[i];
        if rec.anchor == anchor {
            assert(es.skip(i as int)[0] == es[i as int]);
            return Some(QualifiedName { uri: rec.uri.clone(), name: rec.name.clone() });
        }
        proof {
            lemma_name_of_skip(es, i as int, anchor);
        }
        i = i + 1;
    }
    assert(es.skip(i as int).len() == 0);
    None
}

/// The registry proper: three namespaces and their shared counter.
#[derive(Debug)]
pub struct RegistryInternal {
    types: Vec<ExtensionRecord>,
    functions: Vec<ExtensionRecord>,
    variations: Vec<ExtensionRecord>,
    counter: u32,
}

/// Registers `(uri, name)` in `records`, drawing a new anchor from `counter`
/// when the pair is new.
fn register_in_records(records: &mut Vec<ExtensionRecord>, counter: &mut u32, uri: String, name: String) -> (r: u32)
    requires
        *old(counter) < u32::MAX || anchor_of(records_view(old(records)@), uri@, name@) is Some,
    ensures
        (records_view(final(records)@), *final(counter) as nat, r) == register_in(
            records_view(old(records)@),
            *old(counter) as nat,
            uri@,
            name@,
        ),
{
    match find_by_name(records, &uri, &name) {
        Some(a) => a,
        None => {
            let anchor = *counter;
            let ghost before = records@;
            records.push(ExtensionRecord { uri, name, anchor });
            assert(records_view(records@) =~= records_view(before).push((uri@, name@, anchor)));
            *counter = anchor + 1;
            anchor
        },
    }
}

proof fn lemma_push_fresh(es: Seq<Entry>, c: nat, uri: Seq<char>, name: Seq<char>)
    requires
        anchors_below(es, c),
        anchors_distinct(es),
        1 <= c < u32::MAX,
    ensures
        anchors_below(es.push((uri, name, c as u32)), c + 1),
        anchors_distinct(es.push((uri, name, c as u32))),
{
    let t = es.push((uri, name, c as u32));
    assert forall|i: int| 0 <= i < t.len() implies 1 <= #[trigger] t[i].2 && t[i].2 < c + 1 by {
        if i < es.len() {
            assert(t[i] == es[i]);
        }
    }
    assert forall|i: int, j: int| 0 <= i < t.len() && 0 <= j < t.len() && i != j implies #[trigger] t[i].2 != #[trigger] t[j].2 by {
        if i < es.len() {
            assert(t[i] == es[i]);
        }
        if j < es.len() {
            assert(t[j] == es[j]);
        }
    }
}

proof fn lemma_push_disjoint(es: Seq<Entry>, other: Seq<Entry>, c: nat, uri: Seq<char>, name: Seq<char>)
    requires
        anchors_below(other, c),
        anchors_disjoint(es, other),
        c < u32::MAX,
    ensures
        anchors_disjoint(es.push((uri, name, c as u32)), other),
        anchors_disjoint(other, es.push((uri, name, c as u32))),
{
    let t = es.push((uri, name, c as u32));
    assert forall|i: int, j: int| 0 <= i < t.len() && 0 <= j < other.len() implies #[trigger] t[i].2 != #[trigger] other[j].2 by {
        if i < es.len() {
            assert(t[i] == es[i]);
        }
    }
    assert forall|i: int, j: int| 0 <= i < other.len() && 0 <= j < t.len() implies #[trigger] other[i].2 != #[trigger] t[j].2 by {
        if j < es.len() {
            assert(t[j] == es[j]);
        }
    }
}

proof fn lemma_below_mono(es: Seq<Entry>, c: nat)
    requires
        anchors_below(es, c),
    ensures
        anchors_below(es, c + 1),
{
}

proof fn lemma_disjoint_sym(a: Seq<Entry>, b: Seq<Entry>)
    requires
        anchors_disjoint(a, b),
    ensures
        anchors_disjoint(b, a),
{
    assert forall|i: int, j: int| 0 <= i < b.len() && 0 <= j < a.len() implies #[trigger] b[i].2 != #[trigger] a[j].2 by {
        assert(a[j].2 != b[i].2);
    }
}

/// Registering keeps a registry well formed.
pub proof fn lemma_register_keeps_wf(m: RegistryModel, namespace: Namespace, uri: Seq<char>, name: Seq<char>)
    requires
        m.wf(),
        m.can_register(namespace, uri, name),
    ensures
        m.register(namespace, uri, name).0.wf(),
{
    let c = m.counter;
    if m.has_room(1) {
        lemma_below_mono(m.types, c);
        lemma_below_mono(m.functions, c);
        lemma_below_mono(m.variations, c);
        if anchor_of(m.types, uri, name) is None {
            lemma_push_fresh(m.types, c, uri, name);
            lemma_push_disjoint(m.types, m.functions, c, uri, name);
            lemma_push_disjoint(m.types, m.variations, c, uri, name);
        }
        if anchor_of(m.functions, uri, name) is None {
            lemma_push_fresh(m.functions, c, uri, name);
            lemma_disjoint_sym(m.types, m.functions);
            lemma_push_disjoint(m.functions, m.types, c, uri, name);
            lemma_push_disjoint(m.functions, m.variations, c, uri, name);
        }
        if anchor_of(m.variations, uri, name) is None {
            lemma_push_fresh(m.variations, c, uri, name);
            lemma_disjoint_sym(m.types, m.variations);
            lemma_disjoint_sym(m.functions, m.variations);
            lemma_push_disjoint(m.variations, m.types, c, uri, name);
            lemma_push_disjoint(m.variations, m.functions, c, uri, name);
        }
    }
}

impl RegistryInternal {
    pub closed spec fn view(&self) -> RegistryModel {
        RegistryModel {
            types: records_view(self.types@),
            functions: records_view(self.functions@),
            variations: records_view(self.variations@),
            counter: self.counter as nat,
        }
    }

    #[verifier::type_invariant]
    closed spec fn inv(&self) -> bool {
        self@.wf()
    }

    /// A registry with nothing registered; the first anchor it hands out is 1.
    pub fn new() -> (r: Self)
        ensures
            r@ == RegistryModel::empty(),
    {
        let r = RegistryInternal { types: Vec::new(), functions: Vec::new(), variations: Vec::new(), counter: 1 };
        assert(records_view(r.types@) =~= seq![]);
        assert(records_view(r.functions@) =~= seq![]);
        assert(records_view(r.variations@) =~= seq![]);
        r
    }

    /// The uri and name registered as the type `anchor`.
    pub fn lookup_type(&self, anchor: u32) -> (r: Option<QualifiedName>)
        ensures
            r matches Some(q) ==> name_of(self@.types, anchor) == Some(q@),
            r is None ==> name_of(self@.types, anchor) is None,
    {
        find_by_anchor(&self.types, anchor)
    }

    /// The uri and name registered as the function `anchor`.
    pub fn lookup_function(&self, anchor: u32) -> (r: Option<QualifiedName>)
        ensures
            r matches Some(q) ==> name_of(self@.functions, anchor) == Some(q@),
            r is None ==> name_of(self@.functions, anchor) is None,
    {
        find_by_anchor(&self.functions, anchor)
    }

    /// The uri and name registered as the type variation `anchor`.
    pub fn lookup_variation(&self, anchor: u32) -> (r: Option<QualifiedName>)
        ensures
            r matches Some(q) ==> name_of(self@.variations, anchor) == Some(q@),
            r is None ==> name_of(self@.variations, anchor) is None,
    {
        find_by_anchor(&self.variations, anchor)
    }

    fn register_in_namespace(&mut self, namespace: Namespace, uri: String, name: String) -> (r: u32)
        requires
            old(self)@.can_register(namespace, uri@, name@),
        ensures
            (final(self)@, r) == old(self)@.register(namespace, uri@, name@),
    {
        let mut taken = RegistryInternal::new();
        core::mem::swap(self, &mut taken);
        proof {
            use_type_invariant(&taken);
            lemma_register_keeps_wf(taken@, namespace, uri@, name@);
        }
        let RegistryInternal { mut types, mut functions, mut variations, mut counter } = taken;
        let r = match namespace {
            Namespace::Types => register_in_records(&mut types, &mut counter, uri, name),
            Namespace::Functions => register_in_records(&mut functions, &mut counter, uri, name),
            Namespace::Variations => register_in_records(&mut variations, &mut counter, uri, name),
        };
        *self = RegistryInternal { types, functions, variations, counter };
        r
    }

    /// Registers a type and returns its anchor.
    pub fn register_type(&mut self, uri: String, name: &str) -> (r: u32)
        requires
            old(self)@.can_register(Namespace::Types, uri@, name@),
        ensures
            (final(self)@, r) == old(self)@.register_type(uri@, name@),
    {
        self.register_in_namespace(Namespace::Types, uri, name.to_owned())
    }

    /// Registers a function and returns its anchor.
    pub fn register_function(&mut self, uri: &str, name: &str) -> (r: u32)
        requires
            old(self)@.can_register(Namespace::Functions, uri@, name@),
        ensures
            (final(self)@, r) == old(self)@.register_function(uri@, name@),
    {
        self.register_in_namespace(Namespace::Functions, uri.to_owned(), name.to_owned())
    }

    /// Registers a type variation and returns its anchor.
    pub fn register_variation(&mut self, uri: String, name: &str) -> (r: u32)
        requires
            old(self)@.can_register(Namespace::Variations, uri@, name@),
        ensures
            (final(self)@, r) == old(self)@.register_variation(uri@, name@),
    {
        self.register_in_namespace(Namespace::Variations, uri, name.to_owned())
    }
}

/// `us` with `u` added at the end, unless it is there already.
pub open spec fn dedup_push(us: Seq<Seq<char>>, u: Seq<char>) -> Seq<Seq<char>> {
    if us.contains(u) {
        us
    } else {
        us.push(u)
    }
}

/// The uris of `es`, each once, in the order in which they first occur.
pub open spec fn collect_uris(es: Seq<Entry>) -> Seq<Seq<char>>
    decreases es.len(),
{
    if es.len() == 0 {
        seq![]
    } else {
        dedup_push(collect_uris(es.drop_last()), es.last().0)
    }
}

proof fn lemma_collect_uris(es: Seq<Entry>)
    ensures
        collect_uris(es).no_duplicates(),
        collect_uris(es).len() <= es.len(),
        forall|i: int| 0 <= i < es.len() ==> collect_uris(es).contains(#[trigger] es[i].0),
    decreases es.len(),
{
    if es.len() > 0 {
        let pre = es.drop_last();
        lemma_collect_uris(pre);
        let us = collect_uris(pre);
        assert forall|i: int| 0 <= i < es.len() implies collect_uris(es).contains(#[trigger] es[i].0) by {
            if i < pre.len() {
                assert(pre[i] == es[i]);
                assert(us.contains(pre[i].0));
                if !us.contains(es.last().0) {
                    let k = choose|k: int| 0 <= k < us.len() && us[k] == pre[i].0;
                    assert(us.push(es.last().0)[k] == pre[i].0);
                }
            } else {
                if !us.contains(es.last().0) {
                    assert(us.push(es.last().0)[us.len() as int] == es.last().0);
                }
            }
        }
    }
}

/// A uri with the anchor that declarations use to refer to it.
#[derive(Debug)]
pub struct ExtensionUri {
    pub anchor: u32,
    pub uri: String,
}

/// What a declaration declares.
#[derive(Debug, Clone, Copy, PartialEq, Eq)]
pub enum DeclarationKind {
    Type,
    Function,
}

/// Binds an anchor to a name and to the anchor of the name's uri.
#[derive(Debug)]
pub struct ExtensionDeclaration {
    pub kind: DeclarationKind,
    pub uri_reference: u32,
    pub anchor: u32,
    pub name: String,
}

/// Hands out uri anchors, 1 for the first uri seen, 2 for the next, and so on.
#[derive(Debug)]
pub struct UriLookup {
    uris: Vec<String>,
}

pub open spec fn strings_view(v: Seq<String>) -> Seq<Seq<char>> {
    v.map_values(|s: String| s@)
}

impl UriLookup {
    pub closed spec fn view(&self) -> Seq<Seq<char>> {
        strings_view(self.uris@)
    }

    pub fn new() -> (r: Self)
        ensures
            r@ == Seq::<Seq<char>>::empty(),
    {
        let r = UriLookup { uris: Vec::new() };
        assert(r@ =~= Seq::<Seq<char>>::empty());
        r
    }

    /// Returns the anchor of `uri`, adding it first if it is new.
    pub fn register(&mut self, uri: String) -> (r: u32)
        requires
            old(self)@.len() < u32::MAX,
        ensures
            final(self)@ == dedup_push(old(self)@, uri@),
            1 <= r <= final(self)@.len(),
            final(self)@[r - 1] == uri@,
    {
        let ghost us = self@;
        let mut i: usize = 0;
        while i < self.uris.len()
            invariant
                0 <= i <= self.uris.len(),
                us == self@,
                self.uris@.len() < u32::MAX,
                forall|j: int| 0 <= j < i ==> us[j] != uri@,
            decreases self.uris.len() - i,
        {
            if self.uris[i] == uri {
                assert(us[i as int] == uri@);
                assert(us.contains(uri@));
                return (i + 1) as u32;
            }
            i = i + 1;
        }
        assert(!us.contains(uri@));
        self.uris.push(uri);
        assert(self@ =~= us.push(uri@));
        self.uris.len() as u32
    }

    /// The uris with their anchors, in order of anchor.
    pub fn to_substrait(self) -> (r: Vec<ExtensionUri>)
        requires
            self@.len() < u32::MAX,
        ensures
            r@.len() == self@.len(),
            forall|i: int| 0 <= i < r@.len() ==> (#[trigger] r@[i]).anchor == i + 1 && r@[i].uri@ == self@[i],
    {
        let mut r: Vec<ExtensionUri> = Vec::new();
        let mut i: usize = 0;
        while i < self.uris.len()
            invariant
                0 <= i <= self.uris@.len(),
                self.uris@.len() < u32::MAX,
                r@.len() == i,
                forall|j: int| 0 <= j < i ==> (#[trigger] r@[j]).anchor == j + 1 && r@[j].uri@ == self@[j],
            decreases self.uris.len() - i,
        {
            r.push(ExtensionUri { anchor: (i + 1) as u32, uri: self.uris[i].clone() });
            i = i + 1;
        }
        r
    }
}

/// `d` declares entry `e` of the given kind, referring to its uri by the
/// uri's anchor in `uris` (anchor `i + 1` for `uris[i]`).
pub open spec fn declares(d: ExtensionDeclaration, kind: DeclarationKind, e: Entry, uris: Seq<Seq<char>>) -> bool {
    &&& d.kind == kind
    &&& d.anchor == e.2
    &&& d.name@ == e.1
    &&& 1 <= d.uri_reference <= uris.len()
    &&& uris[d.uri_reference - 1] == e.0
}

proof fn lemma_collect_push(es: Seq<Entry>, e: Entry)
    ensures
        collect_uris(es.push(e)) == dedup_push(collect_uris(es), e.0),
{
    assert(es.push(e).drop_last() =~= es);
}

/// Declares each of `records`, registering its uri in `uris`.
fn add_declarations(
    records: &Vec<ExtensionRecord>,
    kind: DeclarationKind,
    uris: &mut UriLookup,
    decls: &mut Vec<ExtensionDeclaration>,
    Ghost(before): Ghost<Seq<Entry>>,
    Ghost(kinds): Ghost<Seq<DeclarationKind>>,
)
    requires
        old(uris)@ == collect_uris(before),
        before.len() + records@.len() < u32::MAX,
        old(decls)@.len() == before.len(),
        kinds.len() == before.len(),
        forall|j: int| 0 <= j < before.len() ==> declares(#[trigger] old(decls)@[j], kinds[j], before[j], old(uris)@),
    ensures
        final(uris)@ == collect_uris(before + records_view(records@)),
        final(decls)@.len() == before.len() + records@.len(),
        forall|j: int| 0 <= j < before.len() ==> declares(#[trigger] final(decls)@[j], kinds[j], before[j], final(uris)@),
        forall|j: int| 0 <= j < records@.len() ==> declares(#[trigger] final(decls)@[before.len() + j], kind, records_view(records@)[j], final(uris)@),
{
    let ghost es = records_view(records@);
    let mut i: usize = 0;
    assert(before + es.take(0) =~= before);
    while i < records.len()
        invariant
            0 <= i <= records@.len(),
            es == records_view(records@),
            before.len() + records@.len() < u32::MAX,
            kinds.len() == before.len(),
            uris@ == collect_uris(before + es.take(i as int)),
            decls@.len() == before.len() + i,
            forall|j: int| 0 <= j < before.len() ==> declares(#[trigger] decls@[j], kinds[j], before[j], uris@),
            forall|j: int| 0 <= j < i ==> declares(#[trigger] decls@[before.len() + j], kind, es[j], uris@),
        decreases records.len() - i,
    {
        proof {
            lemma_collect_uris(before + es.take(i as int));
        }
        let ghost old_uris = uris@;
        let record = &records[i];
        let uri_reference = uris.register(record.uri.clone());
        proof {
            assert(before + es.take(i + 1) =~= (before + es.take(i as int)).push(es[i as int]));
            lemma_collect_push(before + es.take(i as int), es[i as int]);
            assert forall|k: int| 0 <= k < old_uris.len() implies #[trigger] uris@[k] == old_uris[k] by {}
        }
        let ghost prev = decls@;
        decls.push(ExtensionDeclaration { kind, uri_reference, anchor: record.anchor, name: record.name.clone() });
        proof {
            assert forall|j: int| 0 <= j < before.len() implies declares(#[trigger] decls@[j], kinds[j], before[j], uris@) by {
                assert(decls@[j] == prev[j]);
                assert(declares(prev[j], kinds[j], before[j], old_uris));
            }
            assert forall|j: int| 0 <= j < i + 1 implies declares(#[trigger] decls@[before.len() + j], kind, es[j], uris@) by {
                if j < i {
                    assert(decls@[before.len() + j] == prev[before.len() + j]);
                    assert(declares(prev[before.len() + j], kind, es[j], old_uris));
                }
            }
        }
        i = i + 1;
    }
    assert(es.take(i as int) =~= es);
}

impl Default for ExtensionsRegistry {
    fn default() -> (r: Self)
        ensures
            r@ == RegistryModel::empty(),
    {
        ExtensionsRegistry::new()
    }
}

/// Keeps track of the extensions that a schema and its expressions use.
///
/// Messages refer to extensions by anchors, small integers that stand for a
/// uri and name. Registering the same uri and name twice gives the same
/// anchor; anchors start at 1 and are never reused.
#[derive(Debug)]
pub struct ExtensionsRegistry {
    internal: RegistryInternal,
}

impl ExtensionsRegistry {
    pub closed spec fn view(&self) -> RegistryModel {
        self.internal@
    }

    /// A registry with nothing registered.
    pub fn new() -> (r: Self)
        ensures
            r@ == RegistryModel::empty(),
    {
        ExtensionsRegistry { internal: RegistryInternal::new() }
    }

    /// Does nothing at run time; tells the verifier that the registry's
    /// model is well formed.
    pub fn note_well_formed(&self)
        ensures
            self@.wf(),
    {
        proof {
            use_type_invariant(&self.internal);
        }
    }

    /// Registers a type and returns its anchor; the same uri and name always
    /// give the same anchor.
    pub fn register_type(&mut self, uri: String, name: &str) -> (r: u32)
        requires
            old(self)@.can_register(Namespace::Types, uri@, name@),
        ensures
            (final(self)@, r) == old(self)@.register_type(uri@, name@),
    {
        self.internal.register_type(uri, name)
    }

    /// Registers a function by uri and name and returns its anchor.
    pub fn register_function_by_name(&mut self, uri: &str, name: &str) -> (r: u32)
        requires
            old(self)@.can_register(Namespace::Functions, uri@, name@),
        ensures
            (final(self)@, r) == old(self)@.register_function(uri@, name@),
    {
        self.internal.register_function(uri, name)
    }

    /// Registers a type variation and returns its anchor.
    pub fn register_variation(&mut self, uri: String, name: &str) -> (r: u32)
        requires
            old(self)@.can_register(Namespace::Variations, uri@, name@),
        ensures
            (final(self)@, r) == old(self)@.register_variation(uri@, name@),
    {
        self.internal.register_variation(uri, name)
    }

    /// Looks up the qualified name of a type anchor.
    pub fn lookup_type(&self, anchor: u32) -> (r: Option<QualifiedName>)
        ensures
            r matches Some(q) ==> name_of(self@.types, anchor) == Some(q@),
            r is None ==> name_of(self@.types, anchor) is None,
    {
        self.internal.lookup_type(anchor)
    }

    /// Looks up the qualified name of a function anchor.
    pub fn lookup_function(&self, anchor: u32) -> (r: Option<QualifiedName>)
        ensures
            r matches Some(q) ==> name_of(self@.functions, anchor) == Some(q@),
            r is None ==> name_of(self@.functions, anchor) is None,
    {
        self.internal.lookup_function(anchor)
    }

    /// Looks up the qualified name of a type variation anchor.
    pub fn lookup_variation(&self, anchor: u32) -> (r: Option<QualifiedName>)
        ensures
            r matches Some(q) ==> name_of(self@.variations, anchor) == Some(q@),
            r is None ==> name_of(self@.variations, anchor) is None,
    {
        self.internal.lookup_variation(anchor)
    }

    /// The uris and declarations that describe the registered types and
    /// functions: each uri once, with anchors 1, 2, ... in order of first use;
    /// one declaration per type, then one per function, in order of
    /// registration.
    pub fn to_substrait(&self) -> (r: (Vec<ExtensionUri>, Vec<ExtensionDeclaration>))
        ensures
            extensions_described(self@, r.0@, r.1@),
    {
        proof {
            use_type_invariant(&self.internal);
        }
        let mut uris = UriLookup::new();
        let mut decls: Vec<ExtensionDeclaration> = Vec::new();
        let ghost types = self@.types;
        let ghost functions = self@.functions;
        let ghost no_entries: Seq<Entry> = seq![];
        let ghost no_kinds: Seq<DeclarationKind> = seq![];
        add_declarations(&self.internal.types, DeclarationKind::Type, &mut uris, &mut decls, Ghost(no_entries), Ghost(no_kinds));
        assert(Seq::<Entry>::empty() + types =~= types);
        let ghost kinds = Seq::new(types.len(), |i: int| DeclarationKind::Type);
        assert forall|j: int| 0 <= j < types.len() implies declares(#[trigger] decls@[j], kinds[j], types[j], uris@) by {
            assert(decls@[0 + j] == decls@[j]);
        }
        add_declarations(&self.internal.functions, DeclarationKind::Function, &mut uris, &mut decls, Ghost(types), Ghost(kinds));
        proof {
            lemma_collect_uris(types + functions);
        }
        let uri_list = uris.to_substrait();
        (uri_list, decls)
    }
}

/// `uris` and `decls` describe the types and functions of `m` as
/// `ExtensionsRegistry::to_substrait` does.
pub open spec fn extensions_described(m: RegistryModel, uris: Seq<ExtensionUri>, decls: Seq<ExtensionDeclaration>) -> bool {
    let all = collect_uris(m.types + m.functions);
    &&& all.no_duplicates()
    &&& uris.len() == all.len()
    &&& forall|i: int| 0 <= i < uris.len() ==> (#[trigger] uris[i]).anchor == i + 1 && uris[i].uri@ == all[i]
    &&& decls.len() == m.types.len() + m.functions.len()
    &&& forall|j: int| 0 <= j < m.types.len() ==> declares(#[trigger] decls[j], DeclarationKind::Type, m.types[j], all)
    &&& forall|j: int| 0 <= j < m.functions.len() ==> declares(#[trigger] decls[m.types.len() + j], DeclarationKind::Function, m.functions[j], all)
}

proof fn lemma_anchor_of_push(es: Seq<Entry>, e: Entry, uri: Seq<char>, name: Seq<char>)
    ensures
        anchor_of(es, uri, name) matches Some(a) ==> anchor_of(es.push(e), uri, name) == Some(a),
        anchor_of(es, uri, name) is None && e.0 == uri && e.1 == name ==> anchor_of(es.push(e), uri, name) == Some(e.2),
    decreases es.len(),
{
    if es.len() > 0 {
        assert(es.push(e).drop_first() =~= es.drop_first().push(e));
        lemma_anchor_of_push(es.drop_first(), e, uri, name);
    } else {
        assert(es.push(e).drop_first() =~= es);
    }
}

proof fn lemma_register_in_stable(es: Seq<Entry>, c: nat, uri: Seq<char>, name: Seq<char>)
    ensures
        ({
            let (es1, c1, a) = register_in(es, c, uri, name);
            register_in(es1, c1, uri, name) == (es1, c1, a)
        }),
{
    lemma_anchor_of_push(es, (uri, name, c as u32), uri, name);
}

/// Registering is idempotent: once `(uri, name)` has an anchor, registering
/// it again in the same namespace returns that anchor and changes nothing.
/// A pair that is new receives the current counter, which no entry of any
/// namespace holds; in an empty registry that is 1.
pub proof fn lemma_register_idempotent(m: RegistryModel, uri: Seq<char>, name: Seq<char>)
    requires
        m.wf(),
        m.has_room(1),
    ensures
        m.register_type(uri, name).0.register_type(uri, name) == m.register_type(uri, name),
        m.register_function(uri, name).0.register_function(uri, name) == m.register_function(uri, name),
        m.register_variation(uri, name).0.register_variation(uri, name) == m.register_variation(uri, name),
        anchor_of(m.types, uri, name) is None ==> m.register_type(uri, name).1 == m.counter,
        anchor_of(m.functions, uri, name) is None ==> m.register_function(uri, name).1 == m.counter,
        anchor_of(m.variations, uri, name) is None ==> m.register_variation(uri, name).1 == m.counter,
        forall|i: int| 0 <= i < m.types.len() ==> (#[trigger] m.types[i]).2 != m.counter,
        forall|i: int| 0 <= i < m.functions.len() ==> (#[trigger] m.functions[i]).2 != m.counter,
        forall|i: int| 0 <= i < m.variations.len() ==> (#[trigger] m.variations[i]).2 != m.counter,
        RegistryModel::empty().register_type(uri, name).1 == 1,
        RegistryModel::empty().register_function(uri, name).1 == 1,
{
    lemma_register_in_stable(m.types, m.counter, uri, name);
    lemma_register_in_stable(m.functions, m.counter, uri, name);
    lemma_register_in_stable(m.variations, m.counter, uri, name);
}

/// Anchors keep their order of first registration: registering a new pair
/// after another new pair gives it a larger anchor.
pub proof fn lemma_register_order(m: RegistryModel, uri1: Seq<char>, name1: Seq<char>, uri2: Seq<char>, name2: Seq<char>)
    requires
        m.wf(),
        m.has_room(2),
        anchor_of(m.types, uri1, name1) is None,
        anchor_of(m.register_type(uri1, name1).0.types, uri2, name2) is None,
    ensures
        m.register_type(uri1, name1).1 < m.register_type(uri1, name1).0.register_type(uri2, name2).1,
{
}

proof fn lemma_anchor_name_agree(es: Seq<Entry>, uri: Seq<char>, name: Seq<char>, a: u32)
    requires
        anchors_distinct(es),
        anchor_of(es, uri, name) == Some(a),
    ensures
        name_of(es, a) == Some((uri, name)),
    decreases es.len(),
{
    if es.len() > 0 && !(es[0].0 == uri && es[0].1 == name) {
        let rest = es.drop_first();
        assert forall|i: int, j: int| 0 <= i < rest.len() && 0 <= j < rest.len() && i != j implies #[trigger] rest[i].2 != #[trigger] rest[j].2 by {
            assert(rest[i] == es[i + 1] && rest[j] == es[j + 1]);
        }
        lemma_anchor_name_agree(rest, uri, name, a);
        assert(name_of(rest, a) == Some((uri, name)));
        if es[0].2 == a {
            lemma_anchor_of_in(rest, uri, name);
            let k = choose|k: int| 0 <= k < rest.len() && rest[k].2 == a;
            assert(es[k + 1].2 == a);
        }
    }
}

proof fn lemma_anchor_of_in(es: Seq<Entry>, uri: Seq<char>, name: Seq<char>)
    ensures
        anchor_of(es, uri, name) matches Some(a) ==> exists|k: int| 0 <= k < es.len() && (#[trigger] es[k]).2 == a,
    decreases es.len(),
{
    if es.len() > 0 {
        if es[0].0 == uri && es[0].1 == name {
            assert(es[0].2 == es[0].2);
        } else {
            lemma_anchor_of_in(es.drop_first(), uri, name);
            if let Some(a) = anchor_of(es, uri, name) {
                let k = choose|k: int| 0 <= k < es.drop_first().len() && (#[trigger] es.drop_first()[k]).2 == a;
                assert(es[k + 1].2 == a);
            }
        }
    }
}

/// After registering a type, its anchor looks up to the uri and name that
/// were registered.
pub proof fn lemma_register_type_lookup(m: RegistryModel, uri: Seq<char>, name: Seq<char>)
    requires
        m.wf(),
        m.can_register(Namespace::Types, uri, name),
    ensures
        name_of(m.register_type(uri, name).0.types, m.register_type(uri, name).1) == Some((uri, name)),
{
    lemma_register_keeps_wf(m, Namespace::Types, uri, name);
    let (m1, a) = m.register_type(uri, name);
    lemma_anchor_of_push(m.types, (uri, name, m.counter as u32), uri, name);
    assert(anchor_of(m1.types, uri, name) == Some(a));
    lemma_anchor_name_agree(m1.types, uri, name, a);
}

/// Registering a type that is already registered changes nothing.
pub proof fn lemma_register_type_stable(m: RegistryModel, uri: Seq<char>, name: Seq<char>)
    ensures
        m.register_type(uri, name).0.register_type(uri, name) == m.register_type(uri, name),
        anchor_of(m.register_type(uri, name).0.types, uri, name) is Some,
{
    lemma_register_in_stable(m.types, m.counter, uri, name);
    lemma_anchor_of_push(m.types, (uri, name, m.counter as u32), uri, name);
}

} // verus!
