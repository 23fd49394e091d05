//! The walk over a module.
//!
//! The scanner goes through the items of a module in declaration order and
//! looks into free functions only. It walks the descendants of each body
//! once, in the order given, and hands each node to the dispatcher, which
//! routes it by kind. Findings are appended as they come: nothing is
//! reordered, merged or dropped.

use vstd::prelude::*;
use vstd::seq_lib::lemma_flatten_concat;
use crate::diagnostic::{appended, lemma_appended_from_empty, lemma_appended_nothing};
use crate::diagnostic::{lemma_appended_push, lemma_appended_twice};
use crate::diagnostic::{views, Diagnostic, DiagnosticView};
use crate::erasing_op::{erase_op_diagnostics, EraseOp};
use crate::lints::single_match::{check_single_match, single_match_diagnostics};
use crate::module::{FunctionBody, Module, ModuleId, ModuleItem};
use crate::syntax::SyntaxNode;

verus! {

/// Which rules a walk applies.
#[derive(Clone, Copy, Debug, PartialEq, Eq, Structural)]
pub struct RuleSet {
    /// The checks on matches of two arms.
    pub single_match: bool,
    /// The check on erasing operations.
    pub erase_op: bool,
}

impl RuleSet {
    /// Every rule.
    pub open spec fn spec_all() -> RuleSet {
        RuleSet { single_match: true, erase_op: true }
    }

    /// Every rule.
    #[verifier::when_used_as_spec(spec_all)]
    pub fn all() -> (rules: RuleSet)
        ensures
            rules == RuleSet::spec_all(),
    {
        RuleSet { single_match: true, erase_op: true }
    }

    /// The checks on matches of two arms, and nothing else.
    pub open spec fn spec_only_single_match() -> RuleSet {
        RuleSet { single_match: true, erase_op: false }
    }

    /// The checks on matches of two arms, and nothing else.
    #[verifier::when_used_as_spec(spec_only_single_match)]
    pub fn only_single_match() -> (rules: RuleSet)
        ensures
            rules == RuleSet::spec_only_single_match(),
    {
        RuleSet { single_match: true, erase_op: false }
    }

    /// The check on erasing operations, and nothing else.
    pub open spec fn spec_only_erase_op() -> RuleSet {
        RuleSet { single_match: false, erase_op: true }
    }

    /// The check on erasing operations, and nothing else.
    #[verifier::when_used_as_spec(spec_only_erase_op)]
    pub fn only_erase_op() -> (rules: RuleSet)
        ensures
            rules == RuleSet::spec_only_erase_op(),
    {
        RuleSet { single_match: false, erase_op: true }
    }
}

/// What the rules of `rules` report for one node: a match goes to the checks
/// on matches, a binary expression to the check on erasing operations, and
/// every other kind to no rule.
pub open spec fn node_diagnostics(node: SyntaxNode, rules: RuleSet, module: ModuleId) -> Seq<
    DiagnosticView,
> {
    match node {
        SyntaxNode::ExprMatch(m) => if rules.single_match {
            single_match_diagnostics(m, module)
        } else {
            Seq::empty()
        },
        SyntaxNode::ExprBinary(b) => if rules.erase_op {
            erase_op_diagnostics(b, module)
        } else {
            Seq::empty()
        },
        SyntaxNode::ItemExternFunction(_) => Seq::empty(),
        SyntaxNode::Other(_) => Seq::empty(),
    }
}

/// `node_diagnostics` as a function of the node alone.
pub open spec fn per_node(rules: RuleSet, module: ModuleId) -> spec_fn(SyntaxNode) -> Seq<
    DiagnosticView,
> {
    |node: SyntaxNode| node_diagnostics(node, rules, module)
}

/// What is reported for the nodes of one body: the findings of each node, one
/// node after the other.
pub open spec fn body_diagnostics(nodes: Seq<SyntaxNode>, rules: RuleSet, module: ModuleId) -> Seq<
    DiagnosticView,
> {
    nodes.flat_map(per_node(rules, module))
}

/// What is reported for one item: the findings of its body if it is a free
/// function whose body was resolved, and nothing otherwise.
pub open spec fn item_diagnostics(item: ModuleItem, rules: RuleSet, module: ModuleId) -> Seq<
    DiagnosticView,
> {
    match item {
        ModuleItem::FreeFunction(Ok(body)) => body_diagnostics(body.descendants@, rules, module),
        ModuleItem::FreeFunction(Err(_)) => Seq::empty(),
        ModuleItem::ExternFunction => Seq::empty(),
        ModuleItem::Other => Seq::empty(),
    }
}

/// `item_diagnostics` as a function of the item alone.
pub open spec fn per_item(rules: RuleSet, module: ModuleId) -> spec_fn(ModuleItem) -> Seq<
    DiagnosticView,
> {
    |item: ModuleItem| item_diagnostics(item, rules, module)
}

/// What is reported for a list of items: the findings of each item, one item
/// after the other.
pub open spec fn items_diagnostics(items: Seq<ModuleItem>, rules: RuleSet, module: ModuleId) -> Seq<
    DiagnosticView,
> {
    items.flat_map(per_item(rules, module))
}

/// What is reported for a module: the findings of its items, or nothing where
/// its items could not be listed.
pub open spec fn module_diagnostics(module: Module, rules: RuleSet) -> Seq<DiagnosticView> {
    match module.items {
        Ok(items) => items_diagnostics(items@, rules, module.id),
        Err(_) => Seq::empty(),
    }
}

/// The nodes in the body of the item at place `k`, where that item is a free
/// function whose body was resolved.
pub open spec fn resolved_body(module: Module, k: int) -> Option<Seq<SyntaxNode>> {
    match module.items {
        Ok(items) => if 0 <= k < items@.len() {
            match items@[k] {
                ModuleItem::FreeFunction(Ok(body)) => Some(body.descendants@),
                _ => None,
            }
        } else {
            None
        },
        Err(_) => None,
    }
}

/// The node at place `i` in the body of the item at place `k`.
pub open spec fn node_at(module: Module, k: int, i: int) -> SyntaxNode {
    resolved_body(module, k).unwrap()[i]
}

/// The node at `(k, i)` is there: the item at `k` is a free function whose
/// body was resolved, and that body has a node at `i`.
pub open spec fn has_node_at(module: Module, k: int, i: int) -> bool {
    resolved_body(module, k) is Some && 0 <= i < resolved_body(module, k).unwrap().len()
}

/// How many findings the walk has made when it comes to node `i` in the
/// body of the item at place `k`.
pub open spec fn findings_before(module: Module, rules: RuleSet, k: int, i: int) -> int {
    let items = module.items->Ok_0@;
    let nodes = resolved_body(module, k).unwrap();
    (items_diagnostics(items.take(k), rules, module.id).len() + body_diagnostics(
        nodes.take(i),
        rules,
        module.id,
    ).len()) as int
}

/// The module has no free function among its items.
pub open spec fn has_no_free_function(module: Module) -> bool {
    match module.items {
        Ok(items) => forall|i: int| 0 <= i < items@.len() ==> !(#[trigger] items@[i]).is_free_function(),
        Err(_) => true,
    }
}

/// Concatenating lists that are all empty gives the empty list.
proof fn lemma_flatten_of_empties<A>(lists: Seq<Seq<A>>)
    requires
        forall|i: int| 0 <= i < lists.len() ==> (#[trigger] lists[i]).len() == 0,
    ensures
        lists.flatten() == Seq::<A>::empty(),
    decreases lists.len(),
{
    if lists.len() > 0 {
        let rest = lists.drop_first();
        assert forall|i: int| 0 <= i < rest.len() implies (#[trigger] rest[i]).len() == 0 by {
            assert(rest[i] == lists[i + 1]);
        }
        lemma_flatten_of_empties(rest);
        assert(lists.flatten() =~= lists.first() + rest.flatten());
    }
}

/// The findings of a list are those before an element, those of the element,
/// and those behind it.
proof fn lemma_flat_map_split<A, B>(list: Seq<A>, f: spec_fn(A) -> Seq<B>, k: int)
    requires
        0 <= k < list.len(),
    ensures
        list.flat_map(f) == list.take(k).flat_map(f) + f(list[k]) + list.skip(k + 1).flat_map(f),
{
    let head = list.take(k);
    let tail = list.skip(k + 1);
    let one = seq![list[k]];
    assert(list =~= head + one + tail);
    assert((head + one + tail).map_values(f) =~= head.map_values(f) + one.map_values(f)
        + tail.map_values(f));
    lemma_flatten_concat(head.map_values(f) + one.map_values(f), tail.map_values(f));
    lemma_flatten_concat(head.map_values(f), one.map_values(f));
    one.map_values(f).lemma_flatten_singleton();
}

/// The findings of the first `i + 1` elements are those of the first `i`
/// followed by those of the element at `i`.
proof fn lemma_flat_map_step<A, B>(list: Seq<A>, f: spec_fn(A) -> Seq<B>, i: int)
    requires
        0 <= i < list.len(),
    ensures
        list.take(i + 1).flat_map(f) == list.take(i).flat_map(f) + f(list[i]),
{
    list.lemma_map_take_succ(f, i);
    list.take(i).map_values(f).lemma_flatten_push(f(list[i]));
}

/// Each element of a concatenation comes from one of the lists: the place of
/// the list and the place in it are returned.
proof fn lemma_flat_map_source<A, B>(list: Seq<A>, f: spec_fn(A) -> Seq<B>, p: int) -> (at: (
    int,
    int,
))
    requires
        0 <= p < list.flat_map(f).len(),
    ensures
        0 <= at.0 < list.len(),
        0 <= at.1 < f(list[at.0]).len(),
        f(list[at.0])[at.1] == list.flat_map(f)[p],
        p == list.take(at.0).flat_map(f).len() + at.1,
    decreases list.len(),
{
    if list.len() == 0 {
        assert(list.map_values(f) =~= Seq::empty());
        (0, 0)
    } else {
        let n = list.len() - 1;
        lemma_flat_map_step(list, f, n);
        assert(list.take(n + 1) =~= list);
        let shorter = list.take(n);
        if p < shorter.flat_map(f).len() {
            let at = lemma_flat_map_source(shorter, f, p);
            assert(shorter[at.0] == list[at.0]);
            assert(shorter.take(at.0) =~= list.take(at.0));
            at
        } else {
            (n, p - shorter.flat_map(f).len())
        }
    }
}

/// Filtering a concatenation is concatenating what is left of each list.
pub(crate) proof fn lemma_flat_map_filter<A, B>(
    list: Seq<A>,
    f: spec_fn(A) -> Seq<B>,
    g: spec_fn(A) -> Seq<B>,
    keep: spec_fn(B) -> bool,
)
    requires
        forall|x: A| (#[trigger] f(x)).filter(keep) == g(x),
    ensures
        list.flat_map(f).filter(keep) == list.flat_map(g),
    decreases list.len(),
{
    if list.len() == 0 {
        assert(list.map_values(f) =~= Seq::empty());
        assert(list.map_values(g) =~= Seq::empty());
        reveal_with_fuel(Seq::filter, 1);
    } else {
        let n = list.len() - 1;
        let shorter = list.take(n);
        lemma_flat_map_filter(shorter, f, g, keep);
        lemma_flat_map_step(list, f, n);
        lemma_flat_map_step(list, g, n);
        assert(list.take(n + 1) =~= list);
        Seq::filter_distributes_over_add(shorter.flat_map(f), f(list[n]), keep);
    }
}

/// A module without free functions has no findings, whatever the rules.
pub proof fn lemma_no_free_function_no_diagnostics(module: Module, rules: RuleSet)
    requires
        has_no_free_function(module),
    ensures
        module_diagnostics(module, rules) == Seq::<DiagnosticView>::empty(),
{
    if let Ok(items) = module.items {
        let lists = items@.map_values(per_item(rules, module.id));
        assert forall|i: int| 0 <= i < lists.len() implies (#[trigger] lists[i]).len() == 0 by {
            assert(!items@[i].is_free_function());
        }
        lemma_flatten_of_empties(lists);
    }
}

/// Nothing is reported that no node gives.
///
/// Each finding of a module is the one finding of a node in the resolved body
/// of one of its free functions, and it stands where the count of earlier
/// findings puts that node. The place of the function among the items and the
/// place of the node in the body are returned.
pub proof fn lemma_finding_has_a_node(module: Module, rules: RuleSet, p: int) -> (at: (int, int))
    requires
        0 <= p < module_diagnostics(module, rules).len(),
    ensures
        has_node_at(module, at.0, at.1),
        node_diagnostics(node_at(module, at.0, at.1), rules, module.id) == seq![
            module_diagnostics(module, rules)[p],
        ],
        p == findings_before(module, rules, at.0, at.1),
{
    let items = module.items->Ok_0@;
    let item_at = lemma_flat_map_source(items, per_item(rules, module.id), p);
    let nodes = items[item_at.0]->FreeFunction_0->Ok_0.descendants@;
    let node_at = lemma_flat_map_source(nodes, per_node(rules, module.id), item_at.1);
    assert(node_diagnostics(nodes[node_at.0], rules, module.id) =~= seq![
        module_diagnostics(module, rules)[p],
    ]);
    (item_at.0, node_at.0)
}

/// Nothing that a node gives is left out.
///
/// Take a node with a finding, in the resolved body of a free function of the
/// module. The findings of the module hold it, at the place that the count of
/// earlier findings gives, and it covers the span of the node.
pub proof fn lemma_node_finding_is_reported(module: Module, rules: RuleSet, k: int, i: int)
    requires
        has_node_at(module, k, i),
        node_diagnostics(node_at(module, k, i), rules, module.id).len() > 0,
    ensures
        ({
            let node = node_at(module, k, i);
            let all = module_diagnostics(module, rules);
            let p = findings_before(module, rules, k, i);
            &&& 0 <= p < all.len()
            &&& all[p] == node_diagnostics(node, rules, module.id)[0]
            &&& all[p].span == node.span()
        }),
{
    let items = module.items->Ok_0@;
    let nodes = resolved_body(module, k).unwrap();
    lemma_flat_map_split(items, per_item(rules, module.id), k);
    lemma_flat_map_split(nodes, per_node(rules, module.id), i);
    assert(per_item(rules, module.id)(items[k]) == body_diagnostics(nodes, rules, module.id));
}

/// Findings come in the order of the walk.
///
/// Take two nodes that each have a finding, the first in an earlier free
/// function of the module than the second, or before it in the same body.
/// Both findings are reported, that of the first node before that of the
/// second. Each covers the span of its node, so nodes at increasing offsets
/// give findings at increasing offsets.
pub proof fn lemma_findings_in_walk_order(
    module: Module,
    rules: RuleSet,
    k1: int,
    i1: int,
    k2: int,
    i2: int,
)
    requires
        has_node_at(module, k1, i1),
        has_node_at(module, k2, i2),
        k1 < k2 || (k1 == k2 && i1 < i2),
        node_diagnostics(node_at(module, k1, i1), rules, module.id).len() > 0,
        node_diagnostics(node_at(module, k2, i2), rules, module.id).len() > 0,
    ensures
        ({
            let first = node_at(module, k1, i1);
            let second = node_at(module, k2, i2);
            let all = module_diagnostics(module, rules);
            let p = findings_before(module, rules, k1, i1);
            let q = findings_before(module, rules, k2, i2);
            &&& 0 <= p < q < all.len()
            &&& all[p] == node_diagnostics(first, rules, module.id)[0]
            &&& all[q] == node_diagnostics(second, rules, module.id)[0]
            &&& all[p].span == first.span()
            &&& all[q].span == second.span()
            &&& first.span().start < second.span().start ==> all[p].span.start < all[q].span.start
        }),
{
    lemma_node_finding_is_reported(module, rules, k1, i1);
    lemma_node_finding_is_reported(module, rules, k2, i2);
    let items = module.items->Ok_0@;
    let nodes = resolved_body(module, k1).unwrap();
    let f = per_node(rules, module.id);
    let g = per_item(rules, module.id);
    lemma_flat_map_split(nodes, f, i1);
    if k1 == k2 {
        lemma_flat_map_split(nodes.take(i2), f, i1);
        assert(nodes.take(i2).take(i1) =~= nodes.take(i1));
        assert(nodes.take(i2)[i1] == nodes[i1]);
    } else {
        lemma_flat_map_split(items.take(k2), g, k1);
        assert(items.take(k2).take(k1) =~= items.take(k1));
        assert(items.take(k2)[k1] == items[k1]);
        assert(g(items[k1]) == body_diagnostics(nodes, rules, module.id));
    }
}

/// Along the walk no node starts before an earlier one, as it is where the
/// functions stand in source order and each body is given in pre-order.
pub open spec fn walk_starts_in_order(module: Module) -> bool {
    forall|k1: int, i1: int, k2: int, i2: int|
        #![trigger node_at(module, k1, i1), node_at(module, k2, i2)]
        has_node_at(module, k1, i1) && has_node_at(module, k2, i2) && (k1 < k2 || (k1 == k2 && i1
            < i2)) ==> node_at(module, k1, i1).span().start <= node_at(module, k2, i2).span().start
}

/// Findings come in source order where the walk does.
///
/// If along the walk no node starts before an earlier one, no finding starts
/// before an earlier finding.
pub proof fn lemma_findings_in_source_order(module: Module, rules: RuleSet, p: int, q: int)
    requires
        walk_starts_in_order(module),
        0 <= p <= q < module_diagnostics(module, rules).len(),
    ensures
        module_diagnostics(module, rules)[p].span.start <= module_diagnostics(
            module,
            rules,
        )[q].span.start,
{
    if p < q {
        let a = lemma_finding_has_a_node(module, rules, p);
        let b = lemma_finding_has_a_node(module, rules, q);
        let all = module_diagnostics(module, rules);
        assert(node_diagnostics(node_at(module, a.0, a.1), rules, module.id)[0] == all[p]);
        assert(node_diagnostics(node_at(module, b.0, b.1), rules, module.id)[0] == all[q]);
        lemma_node_finding_is_reported(module, rules, a.0, a.1);
        lemma_node_finding_is_reported(module, rules, b.0, b.1);
        if b.0 < a.0 || (b.0 == a.0 && b.1 < a.1) {
            lemma_findings_in_walk_order(module, rules, b.0, b.1, a.0, a.1);
        }
        assert(a.0 < b.0 || (a.0 == b.0 && a.1 < b.1));
        assert(node_at(module, a.0, a.1).span().start <= node_at(module, b.0, b.1).span().start);
    }
}

/// Routes one node by its kind and appends what the rule for that kind finds.
///
/// A match goes to the checks on matches and a binary expression to the check
/// on erasing operations, each only where `rules` has the rule. The other
/// kinds are listed one by one and have no rule.
pub fn dispatch(
    node: &SyntaxNode,
    rules: RuleSet,
    module_id: &ModuleId,
    diagnostics: &mut Vec<Diagnostic>,
)
    ensures
        appended(
            old(diagnostics)@,
            final(diagnostics)@,
            node_diagnostics(*node, rules, *module_id),
        ),
{
    proof {
        lemma_appended_nothing(diagnostics@);
    }
    match node {
        SyntaxNode::ExprMatch(match_expr) => {
            if rules.single_match {
                check_single_match(match_expr, diagnostics, module_id);
            }
        },
        SyntaxNode::ExprBinary(binary_expr) => {
            if rules.erase_op {
                let rule = EraseOp;
                if let Some(found) = rule.check_expr(binary_expr, module_id) {
                    proof {
                        lemma_appended_push(diagnostics@, found);
                    }
                    diagnostics.push(found);
                }
            }
        },
        SyntaxNode::ItemExternFunction(_) => {},
        SyntaxNode::Other(_) => {},
    }
}

/// Walks the descendants of one body in the order given and appends the
/// findings of each.
pub fn scan_body(
    body: &FunctionBody,
    rules: RuleSet,
    module_id: &ModuleId,
    diagnostics: &mut Vec<Diagnostic>,
)
    ensures
        appended(
            old(diagnostics)@,
            final(diagnostics)@,
            body_diagnostics(body.descendants@, rules, *module_id),
        ),
{
    let ghost before = diagnostics@;
    let ghost nodes = body.descendants@;
    proof {
        lemma_appended_nothing(before);
        assert(nodes.take(0).map_values(per_node(rules, *module_id)) =~= Seq::empty());
    }
    let mut i: usize = 0;
    while i < body.descendants.len()
        invariant
            nodes == body.descendants@,
            i <= nodes.len(),
            appended(before, diagnostics@, body_diagnostics(nodes.take(i as int), rules, *module_id)),
        decreases nodes.len() - i,
    {
        let ghost middle = diagnostics@;
        dispatch(&body.descendants[i], rules, module_id, diagnostics);
        proof {
            lemma_appended_twice(
                before,
                middle,
                diagnostics@,
                body_diagnostics(nodes.take(i as int), rules, *module_id),
                node_diagnostics(nodes[i as int], rules, *module_id),
            );
            lemma_flat_map_step(nodes, per_node(rules, *module_id), i as int);
        }
        i += 1;
    }
    proof {
        assert(nodes.take(nodes.len() as int) =~= nodes);
    }
}

/// Walks a module and returns what the rules of `rules` find in it, in the
/// order of the walk.
///
/// Only free functions are looked into. Where the items of the module could
/// not be listed the result is empty, and a free function whose body could
/// not be resolved is passed over.
pub fn scan_module(module: &Module, rules: RuleSet) -> (diagnostics: Vec<Diagnostic>)
    ensures
        views(diagnostics@) == module_diagnostics(*module, rules),
        has_no_free_function(*module) ==> diagnostics@.len() == 0,
        module.items is Err ==> diagnostics@.len() == 0,
{
    let mut diagnostics: Vec<Diagnostic> = Vec::new();
    proof {
        if has_no_free_function(*module) {
            lemma_no_free_function_no_diagnostics(*module, rules);
        }
    }
    match &module.items {
        Err(_) => {
            assert(views(diagnostics@) =~= Seq::empty());
        },
        Ok(items) => {
            let ghost listed = items@;
            proof {
                lemma_appended_nothing(diagnostics@);
                assert(listed.take(0).map_values(per_item(rules, module.id)) =~= Seq::empty());
            }
            let mut k: usize = 0;
            while k < items.len()
                invariant
                    listed == items@,
                    k <= listed.len(),
                    appended(
                        Seq::empty(),
                        diagnostics@,
                        items_diagnostics(listed.take(k as int), rules, module.id),
                    ),
                decreases listed.len() - k,
            {
                let ghost middle = diagnostics@;
                match &items[k] {
                    ModuleItem::FreeFunction(Ok(body)) => {
                        scan_body(body, rules, &module.id, &mut diagnostics);
                    },
                    ModuleItem::FreeFunction(Err(_)) => {
                        proof {
                            lemma_appended_nothing(middle);
                        }
                    },
                    ModuleItem::ExternFunction => {
                        proof {
                            lemma_appended_nothing(middle);
                        }
                    },
                    ModuleItem::Other => {
                        proof {
                            lemma_appended_nothing(middle);
                        }
                    },
                }
                proof {
                    lemma_appended_twice(
                        Seq::empty(),
                        middle,
                        diagnostics@,
                        items_diagnostics(listed.take(k as int), rules, module.id),
                        item_diagnostics(listed[k as int], rules, module.id),
                    );
                    lemma_flat_map_step(listed, per_item(rules, module.id), k as int);
                }
                k += 1;
            }
            proof {
                assert(listed.take(listed.len() as int) =~= listed);
                lemma_appended_from_empty(
                    diagnostics@,
                    items_diagnostics(listed, rules, module.id),
                );
            }
        },
    }
    diagnostics
}

} // verus!
