//! Field references by name: a parsed path walked through a schema's name
//! tree and nested into one reference, innermost step last.
use vstd::prelude::*;
use crate::error::SubstraitExprError;
use crate::expr::{Literal, LiteralValue, ReferenceSegment};
use crate::path::{ElementV, NamedRefElement, elements_view};
use crate::schema::{FullNodeV, FullSchemaNode, NameNodeV, NamesOnlySchemaNode, full_nodes_view, name_nodes_view};

verus! {

broadcast use vstd::std_specs::vec::group_vec_axioms;

/// The position of the first of `cs` named `name`.
pub open spec fn child_index(cs: Seq<NameNodeV>, name: Seq<char>) -> Option<int> {
    if exists|i: int| 0 <= i < cs.len() && (#[trigger] cs[i]).name == name {
        Some(choose|i: int| 0 <= i < cs.len() && cs[i].name == name && forall|j: int| 0 <= j < i ==> (#[trigger] cs[j]).name != name)
    } else {
        None
    }
}

/// The fields that the step after `e` chooses among: a named field's own
/// fields; list and map steps do not move.
pub open spec fn next_cursor(cs: Seq<NameNodeV>, e: ElementV) -> Seq<NameNodeV> {
    match e {
        ElementV::Name(n) => match child_index(cs, n) {
            Some(i) => cs[i].children,
            None => seq![],
        },
        _ => cs,
    }
}

/// Every named step of `els` names a field, starting among `cs`.
pub open spec fn walk_ok(cs: Seq<NameNodeV>, els: Seq<ElementV>) -> bool
    decreases els.len(),
{
    if els.len() == 0 {
        true
    } else {
        &&& (els[0] matches ElementV::Name(n) ==> child_index(cs, n) is Some)
        &&& walk_ok(next_cursor(cs, els[0]), els.drop_first())
    }
}

/// `seg`, leaving out its child, is the step for `e` among `cs`.
pub open spec fn step_ok(seg: ReferenceSegment, cs: Seq<NameNodeV>, e: ElementV) -> bool {
    match e {
        ElementV::Name(n) => child_index(cs, n) matches Some(i) && seg matches ReferenceSegment::StructField { field, .. }
            && field == i as i32,
        ElementV::ListIndex(k) => seg matches ReferenceSegment::ListElement { offset, .. } && offset == k as i32,
        ElementV::MapLookup(key) => seg matches ReferenceSegment::MapKey { map_key, .. } && !map_key.nullable
            && map_key.variation == 0 && (map_key.literal_type matches LiteralValue::String(s) && s@ == key),
    }
}

pub open spec fn child_of(seg: ReferenceSegment) -> Option<Box<ReferenceSegment>> {
    match seg {
        ReferenceSegment::StructField { child, .. } => child,
        ReferenceSegment::ListElement { child, .. } => child,
        ReferenceSegment::MapKey { child, .. } => child,
    }
}

/// `seg` is the reference for the steps `els`, starting among `cs`: its
/// first step is that of `els[0]`, and it nests the reference for the rest.
pub open spec fn refers(seg: ReferenceSegment, cs: Seq<NameNodeV>, els: Seq<ElementV>) -> bool
    decreases els.len(),
{
    &&& els.len() >= 1
    &&& step_ok(seg, cs, els[0])
    &&& if els.len() == 1 {
        child_of(seg) is None
    } else {
        child_of(seg) matches Some(c) && refers(*c, next_cursor(cs, els[0]), els.drop_first())
    }
}

/// The name tree of a full schema's fields.
pub open spec fn full_as_names(n: FullNodeV) -> NameNodeV
    decreases n,
{
    NameNodeV { name: n.name, children: full_as_names_seq(n.children) }
}

pub open spec fn full_as_names_seq(ns: Seq<FullNodeV>) -> Seq<NameNodeV>
    decreases ns,
{
    Seq::new(ns.len(), |i: int| if 0 <= i < ns.len() { full_as_names(ns[i]) } else { arbitrary() })
}

/// The name tree of `nodes`.
pub fn names_of_full(nodes: &Vec<FullSchemaNode>) -> (r: Vec<NamesOnlySchemaNode>)
    ensures
        name_nodes_view(r@) == full_as_names_seq(full_nodes_view(nodes@)),
    decreases nodes,
{
    let mut r: Vec<NamesOnlySchemaNode> = Vec::new();
    let mut i: usize = 0;
    while i < nodes.len()
        invariant
            0 <= i <= nodes@.len(),
            r@.len() == i,
            forall|j: int| 0 <= j < i ==> (#[trigger] r@[j])@ == full_as_names(nodes@[j]@),
        decreases nodes.len() - i,
    {
        let children = names_of_full(&nodes[i].children);
        r.push(NamesOnlySchemaNode { name: nodes[i].name.clone(), children });
        i = i + 1;
    }
    assert(name_nodes_view(r@) =~= full_as_names_seq(full_nodes_view(nodes@)));
    r
}

fn find_child(cs: &Vec<NamesOnlySchemaNode>, name: &String) -> (r: Option<usize>)
    ensures
        r matches Some(i) ==> child_index(name_nodes_view(cs@), name@) == Some(i as int) && i < cs@.len(),
        r is None ==> child_index(name_nodes_view(cs@), name@) is None,
{
    let ghost v = name_nodes_view(cs@);
    let mut i: usize = 0;
    while i < cs.len()
        invariant
            0 <= i <= cs@.len(),
            v == name_nodes_view(cs@),
            forall|j: int| 0 <= j < i ==> (#[trigger] v[j]).name != name@,
        decreases cs.len() - i,
    {
        if cs[i].name == *name {
            proof {
                assert(v[i as int].name == name@);
                let c = choose|c: int| 0 <= c < v.len() && v[c].name == name@ && forall|j: int| 0 <= j < c ==> (#[trigger] v[j]).name != name@;
                assert(c == i) by {
                    if c < i {
                        assert(v[c].name != name@);
                    } else if i < c {
                        assert(v[i as int].name != name@);
                    }
                }
            }
            return Some(i);
        }
        i = i + 1;
    }
    None
}

fn with_child(seg: ReferenceSegment, child: ReferenceSegment) -> (r: ReferenceSegment)
    ensures
        child_of(r) == Some(Box::new(child)),
        forall|cs: Seq<NameNodeV>, e: ElementV| step_ok(r, cs, e) == step_ok(seg, cs, e),
{
    match seg {
        ReferenceSegment::StructField { field, .. } => ReferenceSegment::StructField { field, child: Some(Box::new(child)) },
        ReferenceSegment::ListElement { offset, .. } => ReferenceSegment::ListElement { offset, child: Some(Box::new(child)) },
        ReferenceSegment::MapKey { map_key, .. } => ReferenceSegment::MapKey { map_key, child: Some(Box::new(child)) },
    }
}

/// The error for a name that is not among the fields at `path`.
fn missing_field(name: &String, path: &String) -> (r: SubstraitExprError)
    ensures
        r.is_invalid_input(),
{
    let mut message = String::from_str("field ");
    message.append(name.as_str());
    message.append(" does not exist at ");
    message.append(path.as_str());
    message.append(" (no matching child)");
    SubstraitExprError::InvalidInput(message)
}

/// The reference for the path steps `els`, walked from the fields `root`:
/// a named step must name a field; list and map steps are not checked.
#[verifier::rlimit(60)]
pub fn reference_for_path(root: &Vec<NamesOnlySchemaNode>, els: Vec<NamedRefElement>) -> (r: Result<
    ReferenceSegment,
    SubstraitExprError,
>)
    requires
        els@.len() >= 1,
    ensures
        r is Ok <==> walk_ok(name_nodes_view(root@), elements_view(els@)),
        r matches Ok(seg) ==> refers(seg, name_nodes_view(root@), elements_view(els@)),
        r matches Err(e) ==> e.is_invalid_input(),
{
    let ghost ev = elements_view(els@);
    let n = els.len();
    let mut cur: &Vec<NamesOnlySchemaNode> = root;
    let mut steps: Vec<ReferenceSegment> = Vec::new();
    let ghost mut cursors: Seq<Seq<NameNodeV>> = seq![name_nodes_view(root@)];
    let mut cur_path = String::new();
    let mut rest = els;
    let mut k: usize = 0;
    while k < n
        invariant
            n == ev.len(),
            ev == elements_view(els@),
            0 <= k <= n,
            rest@.len() == n - k,
            forall|j: int| 0 <= j < rest@.len() ==> (#[trigger] rest@[j])@ == ev[k + j],
            cursors.len() == k + 1,
            cursors[0] == name_nodes_view(root@),
            cursors[k as int] == name_nodes_view(cur@),
            steps@.len() == k,
            forall|j: int| 0 <= j < k ==> step_ok(#[trigger] steps@[j], cursors[j], ev[j]) && child_of(steps@[j]) is None,
            forall|j: int| 0 <= j < k ==> #[trigger] cursors[j + 1] == next_cursor(cursors[j], ev[j]),
            forall|j: int| 0 <= j < k ==> (ev[j] matches ElementV::Name(nm) ==> child_index(#[trigger] cursors[j], nm) is Some),
        decreases n - k,
    {
        let el = rest.remove(0);
        assert(el@ == ev[k as int]);
        let ghost cv = name_nodes_view(cur@);
        match el {
            NamedRefElement::Name(name) => {
                match find_child(cur, &name) {
                    Some(idx) => {
                        if cur_path.as_str().unicode_len() > 0 {
                            cur_path.append(".");
                        }
                        cur_path.append(name.as_str());
                        steps.push(ReferenceSegment::StructField { field: idx as i32, child: None });
                        cur = &cur[idx].children;
                        assert(name_nodes_view(cur@) == cv[idx as int].children);
                    },
                    None => {
                        proof {
                            lemma_walk_fails(cursors, ev, k as int, 0);
                            assert(ev.subrange(0, n as int) =~= ev);
                        }
                        return Err(missing_field(&name, &cur_path));
                    },
                }
            },
            NamedRefElement::ListIndex(idx) => {
                steps.push(ReferenceSegment::ListElement { offset: idx as i32, child: None });
            },
            NamedRefElement::MapLookup(key) => {
                let map_key = Literal { nullable: false, variation: 0, literal_type: LiteralValue::String(key) };
                steps.push(ReferenceSegment::MapKey { map_key, child: None });
            },
        }
        proof {
            cursors = cursors.push(name_nodes_view(cur@));
            assert(rest@.len() == n - (k + 1));
        }
        assert forall|j: int| 0 <= j < rest@.len() implies (#[trigger] rest@[j])@ == ev[k + 1 + j] by {
            assert(rest@[j]@ == ev[k + 1 + j]);
        }
        k = k + 1;
    }
    proof {
        lemma_walk_succeeds(cursors, ev, 0);
        assert(ev.subrange(0, n as int) =~= ev);
    }
    Ok(nest_steps(steps, Ghost(cursors), Ghost(ev)))
}

proof fn lemma_walk_fails(cursors: Seq<Seq<NameNodeV>>, ev: Seq<ElementV>, k: int, j: int)
    requires
        0 <= j <= k < ev.len(),
        cursors.len() >= k + 1,
        forall|i: int| 0 <= i < k ==> #[trigger] cursors[i + 1] == next_cursor(cursors[i], ev[i]),
        ev[k] matches ElementV::Name(nm) && child_index(cursors[k], nm) is None,
    ensures
        !walk_ok(cursors[j], ev.subrange(j, ev.len() as int)),
    decreases k - j,
{
    let sub = ev.subrange(j, ev.len() as int);
    assert(sub[0] == ev[j]);
    if j < k {
        lemma_walk_fails(cursors, ev, k, j + 1);
        assert(sub.drop_first() =~= ev.subrange(j + 1, ev.len() as int));
        assert(cursors[j + 1] == next_cursor(cursors[j], ev[j]));
    }
}

proof fn lemma_walk_succeeds(cursors: Seq<Seq<NameNodeV>>, ev: Seq<ElementV>, j: int)
    requires
        0 <= j <= ev.len(),
        cursors.len() == ev.len() + 1,
        forall|i: int| 0 <= i < ev.len() ==> #[trigger] cursors[i + 1] == next_cursor(cursors[i], ev[i]),
        forall|i: int| 0 <= i < ev.len() ==> (ev[i] matches ElementV::Name(nm) ==> child_index(#[trigger] cursors[i], nm) is Some),
    ensures
        walk_ok(cursors[j], ev.subrange(j, ev.len() as int)),
    decreases ev.len() - j,
{
    let sub = ev.subrange(j, ev.len() as int);
    if j < ev.len() {
        assert(sub[0] == ev[j]);
        lemma_walk_succeeds(cursors, ev, j + 1);
        assert(sub.drop_first() =~= ev.subrange(j + 1, ev.len() as int));
        assert(cursors[j + 1] == next_cursor(cursors[j], ev[j]));
    }
}

/// Nests `steps` into one reference: each step holds the next as its child.
fn nest_steps(steps: Vec<ReferenceSegment>, Ghost(cursors): Ghost<Seq<Seq<NameNodeV>>>, Ghost(ev): Ghost<Seq<ElementV>>) -> (r: ReferenceSegment)
    requires
        steps@.len() >= 1,
        steps@.len() == ev.len(),
        cursors.len() == ev.len() + 1,
        forall|j: int| 0 <= j < ev.len() ==> step_ok(#[trigger] steps@[j], cursors[j], ev[j]) && child_of(steps@[j]) is None,
        forall|j: int| 0 <= j < ev.len() ==> #[trigger] cursors[j + 1] == next_cursor(cursors[j], ev[j]),
    ensures
        refers(r, cursors[0], ev),
{
    let ghost orig = steps@;
    let n = steps.len();
    let mut rest = steps;
    let mut acc = match rest.pop() {
        Some(s) => s,
        None => ReferenceSegment::ListElement { offset: 0, child: None },
    };
    let mut k: usize = n - 1;
    proof {
        let sub = ev.subrange(k as int, n as int);
        assert(sub.len() == 1 && sub[0] == ev[k as int]);
        assert(acc == orig[k as int]);
    }
    while k > 0
        invariant
            n == ev.len(),
            orig.len() == n,
            cursors.len() == n + 1,
            0 <= k < n,
            rest@ == orig.subrange(0, k as int),
            forall|j: int| 0 <= j < ev.len() ==> step_ok(#[trigger] orig[j], cursors[j], ev[j]) && child_of(orig[j]) is None,
            forall|j: int| 0 <= j < ev.len() ==> #[trigger] cursors[j + 1] == next_cursor(cursors[j], ev[j]),
            refers(acc, cursors[k as int], ev.subrange(k as int, n as int)),
        decreases k,
    {
        let s = match rest.pop() {
            Some(s) => s,
            None => ReferenceSegment::ListElement { offset: 0, child: None },
        };
        assert(s == orig[k - 1]);
        assert(step_ok(orig[k - 1], cursors[k - 1], ev[k - 1]));
        acc = with_child(s, acc);
        proof {
            let sub = ev.subrange(k - 1, n as int);
            assert(sub[0] == ev[k - 1]);
            assert(sub.drop_first() =~= ev.subrange(k as int, n as int));
            let j = k - 1;
            assert(cursors[j + 1] == next_cursor(cursors[j], ev[j]));
            assert(step_ok(acc, cursors[k - 1], ev[k - 1]));
        }
        k = k - 1;
    }
    assert(ev.subrange(0, n as int) =~= ev);
    acc
}

} // verus!
