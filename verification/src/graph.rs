//! The evolution graph: mutations, targets, statuses, hypotheses, patterns and
//! dependencies, kept as sorted sets of nodes and edges.
use vstd::prelude::*;

use crate::contracts::{EvolutionLogEntry, EvolutionStatus};
use crate::text::{
    has_prefix, lemma_lt_irreflexive, lemma_lt_total, lemma_lt_trans, owned, push_str, seq_lt,
    sort_dedup, str_eq, str_lt, strictly_sorted, trim, trimmed, views,
};

verus! {

/// A node of the graph: its id and kind.
#[derive(Clone, Debug)]
pub struct GraphNode {
    pub id: String,
    pub kind: String,
}

/// An edge of the graph: from, to, and the relation between them.
#[derive(Clone, Debug)]
pub struct GraphEdge {
    pub from: String,
    pub to: String,
    pub relation: String,
}

/// The graph: its nodes and edges.
#[derive(Clone, Debug)]
pub struct EvolutionGraph {
    pub nodes: Vec<GraphNode>,
    pub edges: Vec<GraphEdge>,
}

/// A node as the texts that identify it.
pub open spec fn node_key(n: GraphNode) -> Seq<Seq<char>> {
    seq![n.id@, n.kind@]
}

/// An edge as the texts that identify it.
pub open spec fn edge_key(e: GraphEdge) -> Seq<Seq<char>> {
    seq![e.from@, e.to@, e.relation@]
}

/// Lexicographic order on keys of equal length, field by field.
pub open spec fn key_lt(a: Seq<Seq<char>>, b: Seq<Seq<char>>) -> bool
    decreases a.len(),
{
    if a.len() == 0 || b.len() == 0 {
        false
    } else if a[0] == b[0] {
        key_lt(a.drop_first(), b.drop_first())
    } else {
        seq_lt(a[0], b[0])
    }
}

proof fn lemma_key_irreflexive(a: Seq<Seq<char>>)
    ensures
        !key_lt(a, a),
    decreases a.len(),
{
    if a.len() > 0 {
        lemma_key_irreflexive(a.drop_first());
    }
}

proof fn lemma_key_trans(a: Seq<Seq<char>>, b: Seq<Seq<char>>, c: Seq<Seq<char>>)
    requires
        key_lt(a, b),
        key_lt(b, c),
    ensures
        key_lt(a, c),
    decreases a.len(),
{
    if a[0] == b[0] && b[0] == c[0] {
        lemma_key_trans(a.drop_first(), b.drop_first(), c.drop_first());
    } else if a[0] == b[0] {
    } else if b[0] == c[0] {
    } else {
        lemma_lt_trans(a[0], b[0], c[0], 0);
        if a[0] == c[0] {
            lemma_lt_irreflexive(a[0], 0);
            crate::text::lemma_lt_asym(a[0], b[0], 0);
        }
    }
}

proof fn lemma_key_total(a: Seq<Seq<char>>, b: Seq<Seq<char>>)
    requires
        a.len() == b.len(),
        a != b,
    ensures
        key_lt(a, b) || key_lt(b, a),
    decreases a.len(),
{
    if a.len() == 0 {
        assert(a =~= b);
    } else if a[0] == b[0] {
        assert(a.drop_first() != b.drop_first()) by {
            if a.drop_first() == b.drop_first() {
                assert forall|i: int| 0 <= i < a.len() implies a[i] == b[i] by {
                    if i > 0 {
                        assert(a[i] == a.drop_first()[i - 1]);
                        assert(b[i] == b.drop_first()[i - 1]);
                    }
                }
                assert(a =~= b);
            }
        }
        lemma_key_total(a.drop_first(), b.drop_first());
    } else {
        lemma_lt_total(a[0], b[0], 0);
    }
}

/// The keys are strictly increasing (so none repeats).
pub open spec fn keys_sorted(s: Seq<Seq<Seq<char>>>) -> bool {
    forall|i: int, j: int| 0 <= i < j < s.len() ==> key_lt(#[trigger] s[i], #[trigger] s[j])
}

/// The keys of the nodes.
pub open spec fn node_keys(v: Seq<GraphNode>) -> Seq<Seq<Seq<char>>> {
    v.map_values(|n: GraphNode| node_key(n))
}

/// The keys of the edges.
pub open spec fn edge_keys(v: Seq<GraphEdge>) -> Seq<Seq<Seq<char>>> {
    v.map_values(|e: GraphEdge| edge_key(e))
}

/// Keys of one length that are strictly increasing are fixed by the set of
/// them: two such sequences with the same keys are the same sequence.
proof fn lemma_sorted_keys_unique(a: Seq<Seq<Seq<char>>>, b: Seq<Seq<Seq<char>>>, len: nat)
    requires
        keys_sorted(a),
        keys_sorted(b),
        a.to_set() == b.to_set(),
        forall|i: int| 0 <= i < a.len() ==> (#[trigger] a[i]).len() == len,
        forall|i: int| 0 <= i < b.len() ==> (#[trigger] b[i]).len() == len,
    ensures
        a == b,
    decreases a.len(),
{
    if a.len() == 0 {
        if b.len() > 0 {
            assert(b.to_set().contains(b[0]));
        }
        assert(a =~= b);
    } else {
        assert(a.to_set().contains(a[0]));
        assert(b.to_set().contains(a[0]));
        assert(b.len() > 0);
        assert(b.to_set().contains(b[0]));
        assert(a.to_set().contains(b[0]));
        if a[0] != b[0] {
            let j = choose|j: int| 0 <= j < b.len() && b[j] == a[0];
            let k = choose|k: int| 0 <= k < a.len() && a[k] == b[0];
            assert(j > 0 && k > 0);
            assert(key_lt(b[0], b[j]));
            assert(key_lt(a[0], a[k]));
            lemma_key_trans(a[0], b[0], a[0]);
            lemma_key_irreflexive(a[0]);
        }
        let a1 = a.drop_first();
        let b1 = b.drop_first();
        assert(a1.to_set() =~= b1.to_set()) by {
            assert forall|x: Seq<Seq<char>>| a1.to_set().contains(x) implies b1.to_set().contains(x) by {
                let i = choose|i: int| 0 <= i < a1.len() && a1[i] == x;
                assert(a[i + 1] == x);
                assert(key_lt(a[0], a[i + 1]));
                lemma_key_irreflexive(x);
                assert(a.to_set().contains(x));
                let j = choose|j: int| 0 <= j < b.len() && b[j] == x;
                assert(j != 0);
                assert(b1[j - 1] == x);
            }
            assert forall|x: Seq<Seq<char>>| b1.to_set().contains(x) implies a1.to_set().contains(x) by {
                let i = choose|i: int| 0 <= i < b1.len() && b1[i] == x;
                assert(b[i + 1] == x);
                assert(key_lt(b[0], b[i + 1]));
                lemma_key_irreflexive(x);
                assert(b.to_set().contains(x));
                let j = choose|j: int| 0 <= j < a.len() && a[j] == x;
                assert(j != 0);
                assert(a1[j - 1] == x);
            }
        }
        assert(keys_sorted(a1)) by {
            assert forall|i: int, j: int| 0 <= i < j < a1.len() implies key_lt(#[trigger] a1[i], #[trigger] a1[j]) by {
                assert(a1[i] == a[i + 1] && a1[j] == a[j + 1]);
            }
        }
        assert(keys_sorted(b1)) by {
            assert forall|i: int, j: int| 0 <= i < j < b1.len() implies key_lt(#[trigger] b1[i], #[trigger] b1[j]) by {
                assert(b1[i] == b[i + 1] && b1[j] == b[j + 1]);
            }
        }
        assert forall|i: int| 0 <= i < a1.len() implies (#[trigger] a1[i]).len() == len by {
            assert(a1[i] == a[i + 1]);
        }
        assert forall|i: int| 0 <= i < b1.len() implies (#[trigger] b1[i]).len() == len by {
            assert(b1[i] == b[i + 1]);
        }
        lemma_sorted_keys_unique(a1, b1, len);
        assert(a =~= b) by {
            assert forall|i: int| 0 <= i < a.len() implies a[i] == b[i] by {
                if i > 0 {
                    assert(a[i] == a1[i - 1]);
                    assert(b[i] == b1[i - 1]);
                }
            }
        }
    }
}

fn texts_lt(a: &Vec<&str>, b: &Vec<&str>) -> (r: bool)
    requires
        a.len() == b.len(),
    ensures
        r == key_lt(a@.map_values(|s: &str| s@), b@.map_values(|s: &str| s@)),
{
    let ghost ka = a@.map_values(|s: &str| s@);
    let ghost kb = b@.map_values(|s: &str| s@);
    let mut i: usize = 0;
    assert(ka.skip(0) =~= ka);
    assert(kb.skip(0) =~= kb);
    while i < a.len()
        invariant
            a.len() == b.len(),
            i <= a.len(),
            ka == a@.map_values(|s: &str| s@),
            kb == b@.map_values(|s: &str| s@),
            key_lt(ka, kb) == key_lt(ka.skip(i as int), kb.skip(i as int)),
        decreases a.len() - i,
    {
        assert(ka.skip(i as int)[0] == a@[i as int]@);
        assert(kb.skip(i as int)[0] == b@[i as int]@);
        assert(ka.skip(i as int).drop_first() =~= ka.skip(i + 1));
        assert(kb.skip(i as int).drop_first() =~= kb.skip(i + 1));
        if !str_eq(a[i], b[i]) {
            return str_lt(a[i], b[i]);
        }
        i = i + 1;
    }
    false
}

fn node_lt(a: &GraphNode, b: &GraphNode) -> (r: bool)
    ensures
        r == key_lt(node_key(*a), node_key(*b)),
{
    let x = vec![a.id.as_str(), a.kind.as_str()];
    let y = vec![b.id.as_str(), b.kind.as_str()];
    assert(x@.map_values(|s: &str| s@) =~= node_key(*a));
    assert(y@.map_values(|s: &str| s@) =~= node_key(*b));
    texts_lt(&x, &y)
}

fn edge_lt(a: &GraphEdge, b: &GraphEdge) -> (r: bool)
    ensures
        r == key_lt(edge_key(*a), edge_key(*b)),
{
    let x = vec![a.from.as_str(), a.to.as_str(), a.relation.as_str()];
    let y = vec![b.from.as_str(), b.to.as_str(), b.relation.as_str()];
    assert(x@.map_values(|s: &str| s@) =~= edge_key(*a));
    assert(y@.map_values(|s: &str| s@) =~= edge_key(*b));
    texts_lt(&x, &y)
}

proof fn lemma_insert_sorted_keys(
    old_keys: Seq<Seq<Seq<char>>>,
    p: int,
    k: Seq<Seq<char>>,
)
    requires
        keys_sorted(old_keys),
        0 <= p <= old_keys.len(),
        forall|j: int| 0 <= j < p ==> key_lt(#[trigger] old_keys[j], k),
        p < old_keys.len() ==> key_lt(k, old_keys[p]),
    ensures
        keys_sorted(old_keys.insert(p, k)),
        old_keys.insert(p, k).to_set() == old_keys.to_set().insert(k),
{
    let nk = old_keys.insert(p, k);
    assert forall|i: int, j: int| 0 <= i < j < nk.len() implies key_lt(#[trigger] nk[i], #[trigger] nk[j]) by {
        if j < p {
        } else if j == p {
        } else if i < p {
            assert(nk[j] == old_keys[j - 1]);
            if j - 1 > p {
                lemma_key_trans(nk[i], old_keys[p], old_keys[j - 1]);
            }
        } else if i == p {
            assert(nk[j] == old_keys[j - 1]);
            if j - 1 > p {
                lemma_key_trans(k, old_keys[p], old_keys[j - 1]);
            }
        } else {
            assert(nk[i] == old_keys[i - 1]);
            assert(nk[j] == old_keys[j - 1]);
        }
    }
    assert(nk.to_set() =~= old_keys.to_set().insert(k)) by {
        assert forall|x: Seq<Seq<char>>| nk.to_set().contains(x) <==> old_keys.to_set().insert(k).contains(x) by {
            if nk.to_set().contains(x) {
                let i = choose|i: int| 0 <= i < nk.len() && nk[i] == x;
                if i < p {
                    assert(old_keys[i] == x);
                } else if i > p {
                    assert(old_keys[i - 1] == x);
                }
            }
            if old_keys.to_set().contains(x) {
                let i = choose|i: int| 0 <= i < old_keys.len() && old_keys[i] == x;
                if i < p {
                    assert(nk[i] == x);
                } else {
                    assert(nk[i + 1] == x);
                }
            }
            if x == k {
                assert(nk[p] == x);
            }
        }
    }
}

fn insert_node(v: &mut Vec<GraphNode>, n: GraphNode)
    requires
        keys_sorted(node_keys(old(v)@)),
    ensures
        keys_sorted(node_keys(final(v)@)),
        node_keys(final(v)@).to_set() == node_keys(old(v)@).to_set().insert(node_key(n)),
{
    let ghost ok = node_keys(v@);
    let mut p: usize = 0;
    while p < v.len() && node_lt(&v[p], &n)
        invariant
            p <= v.len(),
            node_keys(v@) == ok,
            keys_sorted(ok),
            forall|j: int| 0 <= j < p ==> key_lt(#[trigger] ok[j], node_key(n)),
        decreases v.len() - p,
    {
        assert(ok[p as int] == node_key(v@[p as int]));
        p = p + 1;
    }
    if p < v.len() {
        assert(ok[p as int] == node_key(v@[p as int]));
        if !node_lt(&n, &v[p]) {
            proof {
                if ok[p as int] != node_key(n) {
                    lemma_key_total(ok[p as int], node_key(n));
                }
            }
            assert(ok[p as int] == node_key(n));
            assert(ok.to_set().insert(node_key(n)) =~= ok.to_set());
            return;
        }
    }
    proof {
        lemma_insert_sorted_keys(ok, p as int, node_key(n));
    }
    v.insert(p, n);
    assert(node_keys(v@) =~= ok.insert(p as int, node_key(n)));
}

fn insert_edge(v: &mut Vec<GraphEdge>, e: GraphEdge)
    requires
        keys_sorted(edge_keys(old(v)@)),
    ensures
        keys_sorted(edge_keys(final(v)@)),
        edge_keys(final(v)@).to_set() == edge_keys(old(v)@).to_set().insert(edge_key(e)),
{
    let ghost ok = edge_keys(v@);
    let mut p: usize = 0;
    while p < v.len() && edge_lt(&v[p], &e)
        invariant
            p <= v.len(),
            edge_keys(v@) == ok,
            keys_sorted(ok),
            forall|j: int| 0 <= j < p ==> key_lt(#[trigger] ok[j], edge_key(e)),
        decreases v.len() - p,
    {
        assert(ok[p as int] == edge_key(v@[p as int]));
        p = p + 1;
    }
    if p < v.len() {
        assert(ok[p as int] == edge_key(v@[p as int]));
        if !edge_lt(&e, &v[p]) {
            proof {
                if ok[p as int] != edge_key(e) {
                    lemma_key_total(ok[p as int], edge_key(e));
                }
            }
            assert(ok[p as int] == edge_key(e));
            assert(ok.to_set().insert(edge_key(e)) =~= ok.to_set());
            return;
        }
    }
    proof {
        lemma_insert_sorted_keys(ok, p as int, edge_key(e));
    }
    v.insert(p, e);
    assert(edge_keys(v@) =~= ok.insert(p as int, edge_key(e)));
}

impl EvolutionGraph {
    /// Adds a node.
    pub fn upsert_node(&mut self, id: &str, kind: &str)
        ensures
            node_keys(final(self).nodes@) == node_keys(old(self).nodes@).push(seq![id@, kind@]),
            final(self).edges == old(self).edges,
    {
        let ghost before = node_keys(self.nodes@);
        self.nodes.push(GraphNode { id: owned(id), kind: owned(kind) });
        assert(node_keys(self.nodes@) =~= before.push(seq![id@, kind@]));
    }

    /// Adds an edge.
    pub fn upsert_edge(&mut self, from: &str, to: &str, relation: &str)
        ensures
            edge_keys(final(self).edges@) == edge_keys(old(self).edges@).push(
                seq![from@, to@, relation@],
            ),
            final(self).nodes == old(self).nodes,
    {
        let ghost before = edge_keys(self.edges@);
        self.edges.push(GraphEdge { from: owned(from), to: owned(to), relation: owned(relation) });
        assert(edge_keys(self.edges@) =~= before.push(seq![from@, to@, relation@]));
    }

    /// Sorts the nodes and edges and drops repeats.
    pub fn compact(&mut self)
        ensures
            keys_sorted(node_keys(final(self).nodes@)),
            keys_sorted(edge_keys(final(self).edges@)),
            node_keys(final(self).nodes@).to_set() == node_keys(old(self).nodes@).to_set(),
            edge_keys(final(self).edges@).to_set() == edge_keys(old(self).edges@).to_set(),
    {
        let mut nodes: Vec<GraphNode> = Vec::new();
        std::mem::swap(&mut nodes, &mut self.nodes);
        let ghost all_nodes = nodes@;
        let mut sorted_nodes: Vec<GraphNode> = Vec::new();
        while nodes.len() > 0
            invariant
                keys_sorted(node_keys(sorted_nodes@)),
                node_keys(sorted_nodes@).to_set() + node_keys(nodes@).to_set() == node_keys(
                    all_nodes,
                ).to_set(),
            decreases nodes.len(),
        {
            let ghost rest = nodes@;
            let n = nodes.pop().unwrap();
            proof {
                assert(rest =~= nodes@.push(n));
                assert(node_keys(rest) =~= node_keys(nodes@).push(node_key(n)));
                node_keys(nodes@).lemma_push_to_set_commute(node_key(n));
            }
            insert_node(&mut sorted_nodes, n);
            assert(node_keys(sorted_nodes@).to_set() + node_keys(nodes@).to_set() =~= node_keys(
                all_nodes,
            ).to_set());
        }
        assert(node_keys(nodes@).to_set() =~= Set::<Seq<Seq<char>>>::empty());
        assert(node_keys(sorted_nodes@).to_set() =~= node_keys(all_nodes).to_set());
        self.nodes = sorted_nodes;
        let mut edges: Vec<GraphEdge> = Vec::new();
        std::mem::swap(&mut edges, &mut self.edges);
        let ghost all_edges = edges@;
        let mut sorted_edges: Vec<GraphEdge> = Vec::new();
        while edges.len() > 0
            invariant
                keys_sorted(edge_keys(sorted_edges@)),
                edge_keys(sorted_edges@).to_set() + edge_keys(edges@).to_set() == edge_keys(
                    all_edges,
                ).to_set(),
            decreases edges.len(),
        {
            let ghost rest = edges@;
            let e = edges.pop().unwrap();
            proof {
                assert(rest =~= edges@.push(e));
                assert(edge_keys(rest) =~= edge_keys(edges@).push(edge_key(e)));
                edge_keys(edges@).lemma_push_to_set_commute(edge_key(e));
            }
            insert_edge(&mut sorted_edges, e);
            assert(edge_keys(sorted_edges@).to_set() + edge_keys(edges@).to_set() =~= edge_keys(
                all_edges,
            ).to_set());
        }
        assert(edge_keys(edges@).to_set() =~= Set::<Seq<Seq<char>>>::empty());
        assert(edge_keys(sorted_edges@).to_set() =~= edge_keys(all_edges).to_set());
        self.edges = sorted_edges;
    }
}

/// How a run scored, as the graph files it.
#[derive(Clone, Copy, Debug, PartialEq, Eq, Structural)]
pub enum ScoreBand {
    High,
    Candidate,
    Low,
}

/// The name of a score band.
pub open spec fn band_name(b: ScoreBand) -> Seq<char> {
    match b {
        ScoreBand::High => "high"@,
        ScoreBand::Candidate => "candidate"@,
        ScoreBand::Low => "low"@,
    }
}

/// The name of a run status in lower case.
pub open spec fn status_name(s: EvolutionStatus) -> Seq<char> {
    match s {
        EvolutionStatus::Passed => "passed"@,
        EvolutionStatus::Failed => "failed"@,
        EvolutionStatus::Candidate => "candidate"@,
        EvolutionStatus::Promoted => "promoted"@,
    }
}

/// The graph ids of a run's mutation, target, status and score band.
pub open spec fn run_ids(e: EvolutionLogEntry, band: ScoreBand) -> (Seq<char>, Seq<char>, Seq<char>, Seq<char>) {
    (
        "mutation:"@ + e.mutation_id@,
        "file:"@ + e.target_file@,
        "status:"@ + status_name(e.status),
        "score_band:"@ + band_name(band),
    )
}

/// The nodes a run adds to the graph, in the order they are added.
pub open spec fn run_nodes(e: EvolutionLogEntry, band: ScoreBand) -> Seq<Seq<Seq<char>>> {
    let (m, t, st, b) = run_ids(e, band);
    seq![seq![m, "Mutation"@], seq![t, "TargetFile"@], seq![st, "Status"@], seq![b, "ScoreBand"@]]
        + match e.hypothesis_id {
        Some(h) => seq![seq![h@, "Hypothesis"@]] + views(e.recombined_source_patterns@).map_values(
            |p: Seq<char>| seq![p, "Pattern"@],
        ) + views(e.recombined_avoided_risks@).map_values(
            |r: Seq<char>| seq!["risk:"@ + r, "Risk"@],
        ),
        None => Seq::empty(),
    }
}

/// The edges a run adds to the graph, in the order they are added.
pub open spec fn run_edges(e: EvolutionLogEntry, band: ScoreBand) -> Seq<Seq<Seq<char>>> {
    let (m, t, st, b) = run_ids(e, band);
    seq![seq![m, t, "targets"@], seq![m, st, "resulted_in"@], seq![m, b, "scored_as"@]]
        + match e.hypothesis_id {
        Some(h) => seq![seq![h@, m, "suggested_mutation"@]] + views(
            e.recombined_source_patterns@,
        ).map_values(|p: Seq<char>| seq![h@, p, "source_pattern"@]) + views(
            e.recombined_avoided_risks@,
        ).map_values(|r: Seq<char>| seq![h@, "risk:"@ + r, "avoided_risk"@]),
        None => Seq::empty(),
    }
}

fn prefixed(prefix: &str, t: &str) -> (r: String)
    ensures
        r@ == prefix@ + t@,
{
    let mut r = owned(prefix);
    push_str(&mut r, t);
    r
}

/// Files a finished run in the graph: its mutation, target, status and score
/// band, and its hypothesis with the patterns it drew on and the risks it
/// avoided; then sorts the graph and drops repeats.
pub fn update_graph_for_evolution(graph: &mut EvolutionGraph, entry: &EvolutionLogEntry, band: ScoreBand)
    ensures
        keys_sorted(node_keys(final(graph).nodes@)),
        keys_sorted(edge_keys(final(graph).edges@)),
        node_keys(final(graph).nodes@).to_set() == (node_keys(old(graph).nodes@) + run_nodes(
            *entry,
            band,
        )).to_set(),
        edge_keys(final(graph).edges@).to_set() == (edge_keys(old(graph).edges@) + run_edges(
            *entry,
            band,
        )).to_set(),
{
    let ghost n0 = node_keys(graph.nodes@);
    let ghost e0 = edge_keys(graph.edges@);
    let mutation = prefixed("mutation:", entry.mutation_id.as_str());
    let target = prefixed("file:", entry.target_file.as_str());
    let status = prefixed(
        "status:",
        match entry.status {
            EvolutionStatus::Passed => "passed",
            EvolutionStatus::Failed => "failed",
            EvolutionStatus::Candidate => "candidate",
            EvolutionStatus::Promoted => "promoted",
        },
    );
    let score_band = prefixed(
        "score_band:",
        match band {
            ScoreBand::High => "high",
            ScoreBand::Candidate => "candidate",
            ScoreBand::Low => "low",
        },
    );
    graph.upsert_node(mutation.as_str(), "Mutation");
    graph.upsert_node(target.as_str(), "TargetFile");
    graph.upsert_node(status.as_str(), "Status");
    graph.upsert_node(score_band.as_str(), "ScoreBand");
    graph.upsert_edge(mutation.as_str(), target.as_str(), "targets");
    graph.upsert_edge(mutation.as_str(), status.as_str(), "resulted_in");
    graph.upsert_edge(mutation.as_str(), score_band.as_str(), "scored_as");
    let ghost n1 = node_keys(graph.nodes@);
    let ghost e1 = edge_keys(graph.edges@);
    assert(n1 =~= n0 + seq![
        seq![mutation@, "Mutation"@],
        seq![target@, "TargetFile"@],
        seq![status@, "Status"@],
        seq![score_band@, "ScoreBand"@],
    ]);
    assert(e1 =~= e0 + seq![
        seq![mutation@, target@, "targets"@],
        seq![mutation@, status@, "resulted_in"@],
        seq![mutation@, score_band@, "scored_as"@],
    ]);
    if let Some(h) = &entry.hypothesis_id {
        graph.upsert_node(h.as_str(), "Hypothesis");
        graph.upsert_edge(h.as_str(), mutation.as_str(), "suggested_mutation");
        let ghost n2 = node_keys(graph.nodes@);
        let ghost e2 = edge_keys(graph.edges@);
        let ghost pats = views(entry.recombined_source_patterns@);
        let mut i: usize = 0;
        while i < entry.recombined_source_patterns.len()
            invariant
                i <= entry.recombined_source_patterns.len(),
                pats == views(entry.recombined_source_patterns@),
                h@ == entry.hypothesis_id->0@,
                node_keys(graph.nodes@) == n2 + pats.take(i as int).map_values(
                    |p: Seq<char>| seq![p, "Pattern"@],
                ),
                edge_keys(graph.edges@) == e2 + pats.take(i as int).map_values(
                    |p: Seq<char>| seq![h@, p, "source_pattern"@],
                ),
            decreases entry.recombined_source_patterns.len() - i,
        {
            let p = entry.recombined_source_patterns[i].as_str();
            graph.upsert_node(p, "Pattern");
            graph.upsert_edge(h.as_str(), p, "source_pattern");
            assert(pats.take(i + 1) =~= pats.take(i as int).push(pats[i as int]));
            assert(pats.take(i + 1).map_values(|p: Seq<char>| seq![p, "Pattern"@]) =~= pats.take(
                i as int,
            ).map_values(|p: Seq<char>| seq![p, "Pattern"@]).push(seq![pats[i as int], "Pattern"@]));
            assert(pats.take(i + 1).map_values(|p: Seq<char>| seq![h@, p, "source_pattern"@])
                =~= pats.take(i as int).map_values(|p: Seq<char>| seq![h@, p, "source_pattern"@]).push(
                seq![h@, pats[i as int], "source_pattern"@],
            ));
            i = i + 1;
        }
        assert(pats.take(i as int) =~= pats);
        let ghost n3 = node_keys(graph.nodes@);
        let ghost e3 = edge_keys(graph.edges@);
        let ghost risks = views(entry.recombined_avoided_risks@);
        let mut j: usize = 0;
        while j < entry.recombined_avoided_risks.len()
            invariant
                j <= entry.recombined_avoided_risks.len(),
                risks == views(entry.recombined_avoided_risks@),
                h@ == entry.hypothesis_id->0@,
                node_keys(graph.nodes@) == n3 + risks.take(j as int).map_values(
                    |r: Seq<char>| seq!["risk:"@ + r, "Risk"@],
                ),
                edge_keys(graph.edges@) == e3 + risks.take(j as int).map_values(
                    |r: Seq<char>| seq![h@, "risk:"@ + r, "avoided_risk"@],
                ),
            decreases entry.recombined_avoided_risks.len() - j,
        {
            let risk_node = prefixed("risk:", entry.recombined_avoided_risks[j].as_str());
            graph.upsert_node(risk_node.as_str(), "Risk");
            graph.upsert_edge(h.as_str(), risk_node.as_str(), "avoided_risk");
            assert(risks.take(j + 1) =~= risks.take(j as int).push(risks[j as int]));
            assert(risks.take(j + 1).map_values(|r: Seq<char>| seq!["risk:"@ + r, "Risk"@]) =~= risks.take(
                j as int,
            ).map_values(|r: Seq<char>| seq!["risk:"@ + r, "Risk"@]).push(
                seq!["risk:"@ + risks[j as int], "Risk"@],
            ));
            assert(risks.take(j + 1).map_values(|r: Seq<char>| seq![h@, "risk:"@ + r, "avoided_risk"@])
                =~= risks.take(j as int).map_values(
                |r: Seq<char>| seq![h@, "risk:"@ + r, "avoided_risk"@],
            ).push(seq![h@, "risk:"@ + risks[j as int], "avoided_risk"@]));
            j = j + 1;
        }
        assert(risks.take(j as int) =~= risks);
        assert(node_keys(graph.nodes@) =~= n0 + run_nodes(*entry, band));
        assert(edge_keys(graph.edges@) =~= e0 + run_edges(*entry, band));
    } else {
        assert(node_keys(graph.nodes@) =~= n0 + run_nodes(*entry, band));
        assert(edge_keys(graph.edges@) =~= e0 + run_edges(*entry, band));
    }
    graph.compact();
}

/// A second `update_graph_for_evolution` with the same entry and band leaves
/// the graph unchanged: every node and edge after the second filing (its id,
/// kind, ends and relation) is the one after the first, in the same order, so
/// the stored graph is the same text. Here `once` and `twice` are the graphs
/// after the first and the second filing of `entry` (as
/// `update_graph_for_evolution` states them), starting from `g`.
pub proof fn lemma_filing_a_run_twice(
    g: EvolutionGraph,
    once: EvolutionGraph,
    twice: EvolutionGraph,
    entry: EvolutionLogEntry,
    band: ScoreBand,
)
    requires
        keys_sorted(node_keys(once.nodes@)),
        keys_sorted(edge_keys(once.edges@)),
        node_keys(once.nodes@).to_set() == (node_keys(g.nodes@) + run_nodes(entry, band)).to_set(),
        edge_keys(once.edges@).to_set() == (edge_keys(g.edges@) + run_edges(entry, band)).to_set(),
        keys_sorted(node_keys(twice.nodes@)),
        keys_sorted(edge_keys(twice.edges@)),
        node_keys(twice.nodes@).to_set() == (node_keys(once.nodes@) + run_nodes(entry, band)).to_set(),
        edge_keys(twice.edges@).to_set() == (edge_keys(once.edges@) + run_edges(entry, band)).to_set(),
    ensures
        node_keys(twice.nodes@) == node_keys(once.nodes@),
        edge_keys(twice.edges@) == edge_keys(once.edges@),
{
    let rn = run_nodes(entry, band);
    let re = run_edges(entry, band);
    let n0 = node_keys(g.nodes@);
    let e0 = edge_keys(g.edges@);
    let n1 = node_keys(once.nodes@);
    let e1 = edge_keys(once.edges@);
    let n2 = node_keys(twice.nodes@);
    let e2 = edge_keys(twice.edges@);
    assert((n1 + rn).to_set() =~= n1.to_set()) by {
        assert forall|x: Seq<Seq<char>>| (n1 + rn).to_set().contains(x) implies n1.to_set().contains(x) by {
            let i = choose|i: int| 0 <= i < (n1 + rn).len() && (n1 + rn)[i] == x;
            if i >= n1.len() {
                assert(rn[i - n1.len()] == x);
                assert((n0 + rn)[n0.len() + i - n1.len()] == x);
                assert((n0 + rn).to_set().contains(x));
            }
        }
        assert forall|x: Seq<Seq<char>>| n1.to_set().contains(x) implies (n1 + rn).to_set().contains(x) by {
            let i = choose|i: int| 0 <= i < n1.len() && n1[i] == x;
            assert((n1 + rn)[i] == x);
        }
    }
    assert((e1 + re).to_set() =~= e1.to_set()) by {
        assert forall|x: Seq<Seq<char>>| (e1 + re).to_set().contains(x) implies e1.to_set().contains(x) by {
            let i = choose|i: int| 0 <= i < (e1 + re).len() && (e1 + re)[i] == x;
            if i >= e1.len() {
                assert(re[i - e1.len()] == x);
                assert((e0 + re)[e0.len() + i - e1.len()] == x);
                assert((e0 + re).to_set().contains(x));
            }
        }
        assert forall|x: Seq<Seq<char>>| e1.to_set().contains(x) implies (e1 + re).to_set().contains(x) by {
            let i = choose|i: int| 0 <= i < e1.len() && e1[i] == x;
            assert((e1 + re)[i] == x);
        }
    }
    assert forall|i: int| 0 <= i < n1.len() implies (#[trigger] n1[i]).len() == 2 by {
        assert(n1[i] == node_key(once.nodes@[i]));
    }
    assert forall|i: int| 0 <= i < n2.len() implies (#[trigger] n2[i]).len() == 2 by {
        assert(n2[i] == node_key(twice.nodes@[i]));
    }
    assert forall|i: int| 0 <= i < e1.len() implies (#[trigger] e1[i]).len() == 3 by {
        assert(e1[i] == edge_key(once.edges@[i]));
    }
    assert forall|i: int| 0 <= i < e2.len() implies (#[trigger] e2[i]).len() == 3 by {
        assert(e2[i] == edge_key(twice.edges@[i]));
    }
    lemma_sorted_keys_unique(n2, n1, 2);
    lemma_sorted_keys_unique(e2, e1, 3);
}

/// The text of `s` before its first `=`, when it has one.
pub open spec fn before_eq(s: Seq<char>) -> Option<Seq<char>>
    decreases s.len(),
{
    if s.len() == 0 {
        None
    } else if s[0] == '=' {
        Some(Seq::empty())
    } else {
        match before_eq(s.drop_first()) {
            Some(rest) => Some(seq![s[0]] + rest),
            None => None,
        }
    }
}

fn text_before_eq(s: &str) -> (r: Option<String>)
    ensures
        match r {
            Some(x) => before_eq(s@) == Some(x@),
            None => before_eq(s@) is None,
        },
{
    let x = crate::text::chars_of(s);
    let mut i: usize = 0;
    assert(s@.skip(0) =~= s@);
    assert(s@.take(0) =~= Seq::<char>::empty());
    assert forall|rest: Seq<char>| #![auto] Seq::<char>::empty() + rest =~= rest by {}
    while i < x.len() && x[i] != '='
        invariant
            x@ == s@,
            i <= x.len(),
            forall|k: int| 0 <= k < i ==> x@[k] != '=',
            before_eq(s@) == match before_eq(s@.skip(i as int)) {
                Some(rest) => Some(s@.take(i as int) + rest),
                None => None,
            },
        decreases x.len() - i,
    {
        assert(s@.skip(i as int).drop_first() =~= s@.skip(i + 1));
        assert(s@.take(i + 1) =~= s@.take(i as int).push(s@[i as int]));
        assert forall|rest: Seq<char>| #![auto] s@.take(i as int) + (seq![s@[i as int]] + rest) =~= s@.take(i + 1) + rest by {}
        i = i + 1;
    }
    if i == x.len() {
        assert(s@.skip(i as int) =~= Seq::<char>::empty());
        return None;
    }
    assert(s@.skip(i as int)[0] == '=');
    assert(s@.take(i as int) + Seq::<char>::empty() =~= s@.take(i as int));
    Some(crate::text::string_of_range(&x, 0, i))
}

/// A section header of the manifest that lists dependencies.
pub open spec fn is_dependency_section(t: Seq<char>) -> bool {
    t == "[dependencies]"@ || t == "[dev-dependencies]"@ || t == "[build-dependencies]"@
}

/// The dependency names in the manifest lines `ls`, `in_deps` telling whether
/// the lines so far are inside a dependency section.
pub open spec fn dependencies_from(ls: Seq<Seq<char>>, in_deps: bool) -> Seq<Seq<char>>
    decreases ls.len(),
{
    if ls.len() == 0 {
        Seq::empty()
    } else {
        let t = trim(ls[0]);
        if has_prefix(t, "["@) {
            dependencies_from(ls.drop_first(), is_dependency_section(t))
        } else if !in_deps || t.len() == 0 || has_prefix(t, "#"@) || before_eq(t) is None {
            dependencies_from(ls.drop_first(), in_deps)
        } else {
            seq![trim(before_eq(t)->0)] + dependencies_from(ls.drop_first(), in_deps)
        }
    }
}

/// The names of the dependencies that a Cargo manifest declares, in order.
pub fn manifest_dependencies(contents: &str) -> (r: Vec<String>)
    ensures
        views(r@) == dependencies_from(crate::text::lines_of(contents@), false),
{
    let ls = crate::text::lines(contents);
    let ghost all = views(ls@);
    let mut r: Vec<String> = Vec::new();
    let mut in_deps = false;
    let mut i: usize = 0;
    assert(all.skip(0) =~= all);
    while i < ls.len()
        invariant
            i <= ls.len(),
            all == views(ls@),
            views(r@) + dependencies_from(all.skip(i as int), in_deps) == dependencies_from(all, false),
        decreases ls.len() - i,
    {
        let ghost rest = all.skip(i as int);
        let ghost r0 = views(r@);
        assert(rest[0] == ls@[i as int]@);
        assert(rest.drop_first() =~= all.skip(i + 1));
        let t = trimmed(ls[i].as_str());
        if crate::text::starts_with(t.as_str(), "[") {
            in_deps = str_eq(t.as_str(), "[dependencies]") || str_eq(t.as_str(), "[dev-dependencies]")
                || str_eq(t.as_str(), "[build-dependencies]");
        } else if in_deps && t.as_str().unicode_len() > 0 && !crate::text::starts_with(t.as_str(), "#") {
            match text_before_eq(t.as_str()) {
                Some(name) => {
                    let n = trimmed(name.as_str());
                    let ghost nv = n@;
                    r.push(n);
                    assert(views(r@) =~= r0.push(nv));
                    assert(r0 + dependencies_from(rest, in_deps) =~= views(r@) + dependencies_from(
                        rest.drop_first(),
                        in_deps,
                    ));
                },
                None => {},
            }
        }
        i = i + 1;
    }
    assert(all.skip(i as int) =~= Seq::<Seq<char>>::empty());
    r
}

/// The names that a Rust source file declares, each list sorted and without repeats.
#[derive(Clone, Debug)]
pub struct RustAstSummary {
    pub modules: Vec<String>,
    pub functions: Vec<String>,
    pub structs: Vec<String>,
    pub enums: Vec<String>,
    pub use_imports: Vec<String>,
    pub test_functions: Vec<String>,
}

/// Every list of the summary is sorted and without repeats.
pub open spec fn summary_compact(a: RustAstSummary) -> bool {
    &&& strictly_sorted(views(a.modules@))
    &&& strictly_sorted(views(a.functions@))
    &&& strictly_sorted(views(a.structs@))
    &&& strictly_sorted(views(a.enums@))
    &&& strictly_sorted(views(a.use_imports@))
    &&& strictly_sorted(views(a.test_functions@))
}

impl RustAstSummary {
    /// Sorts each list and drops repeats.
    pub fn sort_compact(self) -> (r: RustAstSummary)
        ensures
            summary_compact(r),
            views(r.modules@).to_set() == views(self.modules@).to_set(),
            views(r.functions@).to_set() == views(self.functions@).to_set(),
            views(r.structs@).to_set() == views(self.structs@).to_set(),
            views(r.enums@).to_set() == views(self.enums@).to_set(),
            views(r.use_imports@).to_set() == views(self.use_imports@).to_set(),
            views(r.test_functions@).to_set() == views(self.test_functions@).to_set(),
    {
        RustAstSummary {
            modules: sort_dedup(self.modules),
            functions: sort_dedup(self.functions),
            structs: sort_dedup(self.structs),
            enums: sort_dedup(self.enums),
            use_imports: sort_dedup(self.use_imports),
            test_functions: sort_dedup(self.test_functions),
        }
    }
}

/// The pattern ids of a file's summary, each with its category, in order.
pub open spec fn summary_patterns(a: RustAstSummary) -> Seq<Seq<char>> {
    views(a.modules@).map_values(|n: Seq<char>| "pattern:module:"@ + n) + views(
        a.functions@,
    ).map_values(|n: Seq<char>| "pattern:function:"@ + n) + views(a.structs@).map_values(
        |n: Seq<char>| "pattern:struct:"@ + n,
    ) + views(a.enums@).map_values(|n: Seq<char>| "pattern:enum:"@ + n) + views(
        a.use_imports@,
    ).map_values(|n: Seq<char>| "pattern:use:"@ + n) + views(a.test_functions@).map_values(
        |n: Seq<char>| "pattern:test:"@ + n,
    )
}

fn pattern_ids(prefix: &str, names: &Vec<String>, out: &mut Vec<String>)
    ensures
        views(final(out)@) == views(old(out)@) + views(names@).map_values(|n: Seq<char>| prefix@ + n),
{
    let ghost start = views(out@);
    let mut i: usize = 0;
    while i < names.len()
        invariant
            i <= names.len(),
            views(out@) == start + views(names@).take(i as int).map_values(|n: Seq<char>| prefix@ + n),
        decreases names.len() - i,
    {
        let id = prefixed(prefix, names[i].as_str());
        let ghost before = views(out@);
        let ghost iv = id@;
        out.push(id);
        proof {
            let f = |n: Seq<char>| prefix@ + n;
            assert(views(out@) =~= before.push(iv));
            assert(views(names@).take(i + 1) =~= views(names@).take(i as int).push(names@[i as int]@));
            assert(views(names@).take(i + 1).map_values(f) =~= views(names@).take(i as int).map_values(
                f,
            ).push(f(names@[i as int]@)));
        }
        i = i + 1;
    }
    assert(views(names@).take(i as int) =~= views(names@));
}

/// The pattern ids of a file's summary.
pub fn summary_pattern_ids(a: &RustAstSummary) -> (r: Vec<String>)
    ensures
        views(r@) == summary_patterns(*a),
{
    let mut r: Vec<String> = Vec::new();
    pattern_ids("pattern:module:", &a.modules, &mut r);
    pattern_ids("pattern:function:", &a.functions, &mut r);
    pattern_ids("pattern:struct:", &a.structs, &mut r);
    pattern_ids("pattern:enum:", &a.enums, &mut r);
    pattern_ids("pattern:use:", &a.use_imports, &mut r);
    pattern_ids("pattern:test:", &a.test_functions, &mut r);
    assert(views(r@) =~= summary_patterns(*a));
    r
}

/// A Rust file of a repository: its path relative to the repository and what it declares.
#[derive(Clone, Debug)]
pub struct RepoRustFile {
    pub relative_path: String,
    pub summary: RustAstSummary,
}

/// The nodes that a repository adds: its dependencies, then for each Rust
/// file the file and its patterns.
pub open spec fn repo_nodes(deps: Seq<Seq<char>>, files: Seq<RepoRustFile>) -> Seq<Seq<Seq<char>>>
    decreases files.len(),
{
    if files.len() == 0 {
        deps.map_values(|d: Seq<char>| seq!["dependency:"@ + d, "Dependency"@])
    } else {
        let f = files.last();
        repo_nodes(deps, files.drop_last()) + seq![seq!["file:"@ + f.relative_path@, "File"@]]
            + summary_patterns(f.summary).map_values(|p: Seq<char>| seq![p, "Pattern"@])
    }
}

/// The edges that a repository adds: each pattern found in its file.
pub open spec fn repo_edges(files: Seq<RepoRustFile>) -> Seq<Seq<Seq<char>>>
    decreases files.len(),
{
    if files.len() == 0 {
        Seq::empty()
    } else {
        let f = files.last();
        repo_edges(files.drop_last()) + summary_patterns(f.summary).map_values(
            |p: Seq<char>| seq![p, "file:"@ + f.relative_path@, "found_in"@],
        )
    }
}

/// Files a repository's patterns in the graph: the dependencies its manifest
/// declares (when it has one), and the modules, functions, types, imports
/// and tests of each Rust file, each found in its file; then sorts the graph
/// and drops repeats.
pub fn ingest_repo_patterns(
    graph: &mut EvolutionGraph,
    manifest: &Option<String>,
    files: &Vec<RepoRustFile>,
)
    ensures
        keys_sorted(node_keys(final(graph).nodes@)),
        keys_sorted(edge_keys(final(graph).edges@)),
        node_keys(final(graph).nodes@).to_set() == (node_keys(old(graph).nodes@) + repo_nodes(
            match manifest {
                Some(m) => dependencies_from(crate::text::lines_of(m@), false),
                None => Seq::empty(),
            },
            files@,
        )).to_set(),
        edge_keys(final(graph).edges@).to_set() == (edge_keys(old(graph).edges@) + repo_edges(
            files@,
        )).to_set(),
{
    let ghost n0 = node_keys(graph.nodes@);
    let ghost e0 = edge_keys(graph.edges@);
    let deps = match manifest {
        Some(m) => manifest_dependencies(m.as_str()),
        None => Vec::new(),
    };
    let ghost dv = views(deps@);
    assert(dv == match manifest {
        Some(m) => dependencies_from(crate::text::lines_of(m@), false),
        None => Seq::<Seq<char>>::empty(),
    });
    let mut d: usize = 0;
    while d < deps.len()
        invariant
            d <= deps.len(),
            dv == views(deps@),
            node_keys(graph.nodes@) == n0 + dv.take(d as int).map_values(
                |x: Seq<char>| seq!["dependency:"@ + x, "Dependency"@],
            ),
            edge_keys(graph.edges@) == e0,
        decreases deps.len() - d,
    {
        let id = prefixed("dependency:", deps[d].as_str());
        graph.upsert_node(id.as_str(), "Dependency");
        proof {
            let f = |x: Seq<char>| seq!["dependency:"@ + x, "Dependency"@];
            assert(dv.take(d + 1) =~= dv.take(d as int).push(dv[d as int]));
            assert(dv.take(d + 1).map_values(f) =~= dv.take(d as int).map_values(f).push(f(dv[d as int])));
        }
        d = d + 1;
    }
    assert(dv.take(d as int) =~= dv);
    let mut i: usize = 0;
    while i < files.len()
        invariant
            i <= files.len(),
            node_keys(graph.nodes@) == n0 + repo_nodes(dv, files@.take(i as int)),
            edge_keys(graph.edges@) == e0 + repo_edges(files@.take(i as int)),
        decreases files.len() - i,
    {
        let f = &files[i];
        assert(files@.take(i + 1).drop_last() =~= files@.take(i as int));
        assert(files@.take(i + 1).last() == files@[i as int]);
        let file_id = prefixed("file:", f.relative_path.as_str());
        graph.upsert_node(file_id.as_str(), "File");
        let ghost n1 = node_keys(graph.nodes@);
        let ghost e1 = edge_keys(graph.edges@);
        let patterns = summary_pattern_ids(&f.summary);
        let ghost pv = views(patterns@);
        let mut k: usize = 0;
        while k < patterns.len()
            invariant
                k <= patterns.len(),
                pv == views(patterns@),
                file_id@ == "file:"@ + f.relative_path@,
                node_keys(graph.nodes@) == n1 + pv.take(k as int).map_values(
                    |p: Seq<char>| seq![p, "Pattern"@],
                ),
                edge_keys(graph.edges@) == e1 + pv.take(k as int).map_values(
                    |p: Seq<char>| seq![p, file_id@, "found_in"@],
                ),
            decreases patterns.len() - k,
        {
            graph.upsert_node(patterns[k].as_str(), "Pattern");
            graph.upsert_edge(patterns[k].as_str(), file_id.as_str(), "found_in");
            proof {
                let g = |p: Seq<char>| seq![p, "Pattern"@];
                let h = |p: Seq<char>| seq![p, file_id@, "found_in"@];
                assert(pv.take(k + 1) =~= pv.take(k as int).push(pv[k as int]));
                assert(pv.take(k + 1).map_values(g) =~= pv.take(k as int).map_values(g).push(g(pv[k as int])));
                assert(pv.take(k + 1).map_values(h) =~= pv.take(k as int).map_values(h).push(h(pv[k as int])));
            }
            k = k + 1;
        }
        assert(pv.take(k as int) =~= pv);
        assert(node_keys(graph.nodes@) =~= n0 + repo_nodes(dv, files@.take(i + 1)));
        assert(edge_keys(graph.edges@) =~= e0 + repo_edges(files@.take(i + 1)));
        i = i + 1;
    }
    assert(files@.take(i as int) =~= files@);
    graph.compact();
}

} // verus!
