//! The `list` command: the agents of the registry, by name.
use vstd::prelude::*;
use vstd::string::*;

use crate::registry::{Registry, RegistryAgent, RegistryError};
use crate::text;
use crate::text::{chars_of, compare_chars, lower_chars, TextOrder};

verus! {

/// Whether `a` is listed before `b` for its name, whatever the case, or, where the names agree,
/// for its identifier.
pub open spec fn agent_before(a: RegistryAgent, b: RegistryAgent) -> bool {
    ||| text::text_before(text::lower(a.name@), text::lower(b.name@))
    ||| text::lower(a.name@) == text::lower(b.name@) && text::text_before(a.id@, b.id@)
}

/// Whether neither the names, whatever the case, nor the identifiers tell `a` and `b` apart.
pub open spec fn same_place(a: RegistryAgent, b: RegistryAgent) -> bool {
    text::lower(a.name@) == text::lower(b.name@) && a.id@ == b.id@
}

/// Whether the agent at `x` is listed before the one at `y`. Where nothing else tells them apart,
/// the order of the registry does.
pub open spec fn listed_before(agents: Seq<RegistryAgent>, x: int, y: int) -> bool {
    ||| agent_before(agents[x], agents[y])
    ||| same_place(agents[x], agents[y]) && x < y
}

/// Whether the agents at the positions of `order` are in the order of the list.
pub open spec fn in_list_order(agents: Seq<RegistryAgent>, order: Seq<int>) -> bool {
    forall|p: int, q: int|
        0 <= p < q < order.len() ==> listed_before(agents, #[trigger] order[p], #[trigger] order[q])
}

/// Whether `order` is the order of the list: every position of the registry once, in the order of
/// the list.
pub open spec fn is_list_order(agents: Seq<RegistryAgent>, order: Seq<int>) -> bool {
    &&& order.len() == agents.len()
    &&& in_list_order(agents, order)
    &&& forall|x: int| #[trigger] order.contains(x) <==> 0 <= x < agents.len()
}

/// The line for an agent.
pub open spec fn agent_line(agent: RegistryAgent) -> Seq<char> {
    agent.name@ + "\t"@ + agent.id@ + "\t"@ + agent.description@ + "\n"@
}

/// The lines for the agents at the positions of `order`.
pub open spec fn agent_lines(agents: Seq<RegistryAgent>, order: Seq<int>) -> Seq<char>
    decreases order.len(),
{
    if order.len() == 0 {
        Seq::empty()
    } else {
        agent_lines(agents, order.drop_last()) + agent_line(agents[order.last()])
    }
}

/// The positions that a vector holds.
pub open spec fn positions(order: Seq<usize>) -> Seq<int> {
    order.map_values(|x: usize| x as int)
}

/// How two agents compare in the list.
fn compare_agents(a: &RegistryAgent, b: &RegistryAgent) -> (order: TextOrder)
    ensures
        match order {
            TextOrder::Before => agent_before(*a, *b),
            TextOrder::Same => same_place(*a, *b),
            TextOrder::After => agent_before(*b, *a),
        },
{
    let left = lower_chars(chars_of(a.name.as_str()).as_slice());
    let right = lower_chars(chars_of(b.name.as_str()).as_slice());
    match compare_chars(left.as_slice(), right.as_slice()) {
        TextOrder::Before => TextOrder::Before,
        TextOrder::After => TextOrder::After,
        TextOrder::Same => {
            let left_id = chars_of(a.id.as_str());
            let right_id = chars_of(b.id.as_str());
            compare_chars(left_id.as_slice(), right_id.as_slice())
        },
    }
}

proof fn lemma_agent_before_transitive(a: RegistryAgent, b: RegistryAgent, c: RegistryAgent)
    requires
        agent_before(a, b) || same_place(a, b),
        agent_before(b, c) || same_place(b, c),
    ensures
        agent_before(a, c) || (same_place(a, b) && same_place(b, c) && same_place(a, c)),
{
    let (x, y, z) = (text::lower(a.name@), text::lower(b.name@), text::lower(c.name@));
    if text::text_before(x, y) && text::text_before(y, z) {
        text::text_before_transitive(x, y, z);
    }
    if text::text_before(a.id@, b.id@) && text::text_before(b.id@, c.id@) {
        text::text_before_transitive(a.id@, b.id@, c.id@);
    }
}

proof fn lemma_listed_before_transitive(agents: Seq<RegistryAgent>, x: int, y: int, z: int)
    requires
        listed_before(agents, x, y),
        listed_before(agents, y, z),
    ensures
        listed_before(agents, x, z),
{
    lemma_agent_before_transitive(agents[x], agents[y], agents[z]);
}

proof fn lemma_listed_before_irreflexive(agents: Seq<RegistryAgent>, x: int)
    ensures
        !listed_before(agents, x, x),
{
    text::text_before_irreflexive(text::lower(agents[x].name@));
    text::text_before_irreflexive(agents[x].id@);
}

/// An agent put after everything that is listed before it, and before everything else, keeps the
/// order of the list.
proof fn lemma_insert_keeps_order(
    agents: Seq<RegistryAgent>,
    order: Seq<int>,
    at: int,
    x: int,
)
    requires
        in_list_order(agents, order),
        0 <= at <= order.len(),
        at > 0 ==> listed_before(agents, order[at - 1], x),
        forall|q: int| at <= q < order.len() ==> listed_before(agents, x, #[trigger] order[q]),
    ensures
        in_list_order(agents, order.insert(at, x)),
        forall|y: int| #[trigger] order.insert(at, x).contains(y) <==> order.contains(y) || y == x,
{
    let after = order.insert(at, x);
    assert forall|p: int| 0 <= p < at implies listed_before(agents, #[trigger] order[p], x) by {
        if p < at - 1 {
            lemma_listed_before_transitive(agents, order[p], order[at - 1], x);
        }
    }
    assert forall|p: int, q: int| 0 <= p < q < after.len() implies listed_before(
        agents,
        #[trigger] after[p],
        #[trigger] after[q],
    ) by {
        if p < at {
            assert(after[p] == order[p]);
        }
        if q > at {
            assert(after[q] == order[q - 1]);
        }
        if p > at {
            assert(after[p] == order[p - 1]);
        }
        if q < at {
            assert(after[q] == order[q]);
        }
    }
    assert forall|y: int| #[trigger] after.contains(y) <==> order.contains(y) || y == x by {
        if after.contains(y) {
            let k = choose|k: int| 0 <= k < after.len() && after[k] == y;
            if k < at {
                assert(order[k] == y);
            } else if k > at {
                assert(order[k - 1] == y);
            }
        }
        if order.contains(y) {
            let k = choose|k: int| 0 <= k < order.len() && order[k] == y;
            if k < at {
                assert(after[k] == y);
            } else {
                assert(after[k + 1] == y);
            }
        }
        assert(after[at] == x);
    }
}

/// The order of the list.
fn list_order(agents: &[RegistryAgent]) -> (order: Vec<usize>)
    ensures
        is_list_order(agents@, positions(order@)),
{
    let mut order: Vec<usize> = Vec::new();
    let mut i: usize = 0;
    while i < agents.len()
        invariant
            i <= agents.len(),
            order.len() == i,
            in_list_order(agents@, positions(order@)),
            forall|x: int| #[trigger] positions(order@).contains(x) <==> 0 <= x < i,
        decreases agents.len() - i,
    {
        let ghost before = positions(order@);
        let mut at: usize = order.len();
        while at > 0
            invariant_except_break
                at <= order.len(),
            invariant
                i < agents.len(),
                at <= order.len(),
                order.len() == i,
                before == positions(order@),
                in_list_order(agents@, before),
                forall|x: int| #[trigger] before.contains(x) <==> 0 <= x < i,
                forall|q: int|
                    at <= q < before.len() ==> listed_before(
                        agents@,
                        i as int,
                        #[trigger] before[q],
                    ),
            ensures
                at > 0 ==> listed_before(agents@, before[at - 1], i as int),
            decreases at,
        {
            let other: usize = order[at - 1];
            assert(before[at - 1] == other as int);
            assert(before.contains(other as int));
            match compare_agents(&agents[i], &agents[other]) {
                TextOrder::Before => {
                    at -= 1;
                },
                _ => {
                    break;
                },
            }
        }
        proof {
            lemma_insert_keeps_order(agents@, before, at as int, i as int);
        }
        order.insert(at, i);
        assert(positions(order@) =~= before.insert(at as int, i as int));
        i += 1;
    }
    order
}

/// The list of the agents: one line each, by name whatever the case, then by identifier.
pub fn write_agent_list(registry: &Registry) -> (out: String)
    ensures
        exists|order: Seq<int>| #[trigger]
            is_list_order(registry.agents@, order) && out@ == agent_lines(registry.agents@, order)
                && out@ == order.map_values(
                |x: int|
                    registry.agents@[x].name@ + "\t"@ + registry.agents@[x].id@ + "\t"@
                        + registry.agents@[x].description@ + "\n"@,
            ).flatten(),
{
    let agents = registry.list_agents();
    let order = list_order(agents);
    let ghost places = positions(order@);
    let mut out = String::new();
    let mut k: usize = 0;
    assert(places.take(0) =~= Seq::<int>::empty());
    assert(agent_lines(agents@, places.take(0)) =~= Seq::<char>::empty());
    while k < order.len()
        invariant
            k <= order.len(),
            places == positions(order@),
            is_list_order(agents@, places),
            out@ == agent_lines(agents@, places.take(k as int)),
        decreases order.len() - k,
    {
        let at: usize = order[k];
        assert(places[k as int] == at as int);
        assert(places.contains(at as int));
        let agent = &agents[at];
        let ghost before = out@;
        out.append(agent.name.as_str());
        out.append("\t");
        out.append(agent.id.as_str());
        out.append("\t");
        out.append(agent.description.as_str());
        out.append("\n");
        assert(out@ =~= before + agent_line(*agent));
        assert(places.take(k + 1).drop_last() =~= places.take(k as int));
        k += 1;
    }
    assert(places.take(k as int) =~= places);
    proof {
        list_is_the_lines_of_all_agents(registry.agents@, places);
    }
    out
}

/// Why the agents could not be listed.
#[derive(Debug, Clone, PartialEq, Eq)]
pub enum ListError {
    /// The registry could not be used.
    FetchRegistry(RegistryError),
    /// The list could not be written.
    Write(String),
}

impl ListError {
    /// The text that describes the error.
    pub open spec fn text(self) -> Seq<char> {
        match self {
            ListError::FetchRegistry(error) => error.text(),
            ListError::Write(cause) => "Failed to write agent list: "@ + cause@,
        }
    }

    /// Describes the error.
    pub fn message(&self) -> (out: String)
        ensures
            out@ == self.text(),
    {
        match self {
            ListError::FetchRegistry(error) => error.message(),
            ListError::Write(cause) => {
                let mut out = "Failed to write agent list: ".to_owned();
                out.append(cause.as_str());
                out
            },
        }
    }

    /// The description of the failure behind the error.
    pub fn source(&self) -> (out: String)
        ensures
            out@ == match self {
                ListError::FetchRegistry(error) => error.text(),
                ListError::Write(cause) => cause@,
            },
    {
        match self {
            ListError::FetchRegistry(error) => error.message(),
            ListError::Write(cause) => cause.clone(),
        }
    }
}

/// Takes what came of fetching the registry: the list to write, or why there is none.
pub fn list_agents(fetched: Result<Registry, RegistryError>) -> (list: Result<String, ListError>)
    ensures
        match (fetched, list) {
            (Ok(registry), Ok(out)) => exists|order: Seq<int>| #[trigger]
                is_list_order(registry.agents@, order) && out@ == agent_lines(
                    registry.agents@,
                    order,
                ) && out@ == order.map_values(
                    |x: int|
                        registry.agents@[x].name@ + "\t"@ + registry.agents@[x].id@ + "\t"@
                            + registry.agents@[x].description@ + "\n"@,
                ).flatten(),
            (Err(cause), Err(error)) => error == ListError::FetchRegistry(cause),
            _ => false,
        },
{
    match fetched {
        Ok(registry) => Ok(write_agent_list(&registry)),
        Err(error) => Err(ListError::FetchRegistry(error)),
    }
}

/// Takes what came of writing the list.
pub fn list_written(outcome: Result<(), String>) -> (written: Result<(), ListError>)
    ensures
        match outcome {
            Ok(()) => written is Ok,
            Err(e) => written == Err::<(), ListError>(ListError::Write(e)),
        },
{
    match outcome {
        Ok(()) => Ok(()),
        Err(cause) => Err(ListError::Write(cause)),
    }
}

// ---------------------------------------------------------------------------
// Laws
// ---------------------------------------------------------------------------

/// A registry has one list: what the list command writes is determined by the agents alone.
pub proof fn list_order_is_unique(agents: Seq<RegistryAgent>, a: Seq<int>, b: Seq<int>)
    requires
        is_list_order(agents, a),
        is_list_order(agents, b),
    ensures
        a == b,
{
    assert forall|x: int|
        #![trigger a.contains(x)]
        #![trigger b.contains(x)]
        a.contains(x) <==> b.contains(x) by {}
    lemma_same_members_same_order(agents, a, b);
}

/// The list names every agent exactly once.
pub proof fn list_names_every_agent_once(agents: Seq<RegistryAgent>, order: Seq<int>, x: int)
    requires
        is_list_order(agents, order),
        0 <= x < agents.len(),
    ensures
        exists|p: int| 0 <= p < order.len() && order[p] == x,
        forall|p: int, q: int|
            0 <= p < order.len() && 0 <= q < order.len() && order[p] == x && order[q] == x ==> p
                == q,
{
    assert(order.contains(x));
    lemma_listed_before_irreflexive(agents, x);
    assert forall|p: int, q: int|
        0 <= p < order.len() && 0 <= q < order.len() && order[p] == x && order[q] == x implies p
        == q by {
        if p < q {
            assert(listed_before(agents, order[p], order[q]));
        } else if q < p {
            assert(listed_before(agents, order[q], order[p]));
        }
    }
}

proof fn lemma_same_members_same_order(agents: Seq<RegistryAgent>, a: Seq<int>, b: Seq<int>)
    requires
        in_list_order(agents, a),
        in_list_order(agents, b),
        forall|x: int|
            #![trigger a.contains(x)]
            #![trigger b.contains(x)]
            a.contains(x) <==> b.contains(x),
    ensures
        a == b,
    decreases a.len(),
{
    if a.len() == 0 {
        if b.len() > 0 {
            assert(b.contains(b[0]));
            assert(a.contains(b[0]));
        }
        assert(a =~= b);
    } else {
        let last = a.last();
        assert(a.contains(last));
        assert(b.contains(last));
        let end = b.last();
        assert(b.contains(end));
        assert(a.contains(end));
        let i = choose|i: int| 0 <= i < a.len() && a[i] == end;
        let j = choose|j: int| 0 <= j < b.len() && b[j] == last;
        if i < a.len() - 1 && j < b.len() - 1 {
            assert(listed_before(agents, a[i], a[a.len() - 1]));
            assert(listed_before(agents, b[j], b[b.len() - 1]));
            lemma_listed_before_transitive(agents, end, last, end);
            lemma_listed_before_irreflexive(agents, end);
        }
        assert(last == end);
        let front = a.drop_last();
        let rest = b.drop_last();
        lemma_listed_before_irreflexive(agents, last);
        assert forall|x: int|
            #![trigger front.contains(x)]
            #![trigger rest.contains(x)]
            front.contains(x) <==> rest.contains(x) by {
            if front.contains(x) {
                let k = choose|k: int| 0 <= k < front.len() && front[k] == x;
                assert(a[k] == x);
                assert(a.contains(x));
                assert(b.contains(x));
                let m = choose|m: int| 0 <= m < b.len() && b[m] == x;
                if m == b.len() - 1 {
                    assert(listed_before(agents, a[k], a[a.len() - 1]));
                }
                assert(rest[m] == x);
            }
            if rest.contains(x) {
                let k = choose|k: int| 0 <= k < rest.len() && rest[k] == x;
                assert(b[k] == x);
                assert(b.contains(x));
                assert(a.contains(x));
                let m = choose|m: int| 0 <= m < a.len() && a[m] == x;
                if m == a.len() - 1 {
                    assert(listed_before(agents, b[k], b[b.len() - 1]));
                }
                assert(front[m] == x);
            }
        }
        lemma_same_members_same_order(agents, front, rest);
        assert(a =~= front.push(last));
        assert(b =~= rest.push(end));
    }
}

/// The list is the lines of the agents, one behind the other: each is the agent's name, a tab, its
/// identifier, a tab, its description and a newline. There are as many lines as agents, and the
/// position of every agent of the registry is among those that are listed.
pub proof fn list_is_the_lines_of_all_agents(agents: Seq<RegistryAgent>, order: Seq<int>)
    requires
        is_list_order(agents, order),
    ensures
        agent_lines(agents, order) == order.map_values(
            |x: int|
                agents[x].name@ + "\t"@ + agents[x].id@ + "\t"@ + agents[x].description@ + "\n"@,
        ).flatten(),
        order.len() == agents.len(),
        forall|x: int| 0 <= x < agents.len() ==> order.contains(x),
{
    lemma_lines_are_flattened(agents, order);
}

proof fn lemma_lines_are_flattened(agents: Seq<RegistryAgent>, order: Seq<int>)
    ensures
        agent_lines(agents, order) == order.map_values(
            |x: int|
                agents[x].name@ + "\t"@ + agents[x].id@ + "\t"@ + agents[x].description@ + "\n"@,
        ).flatten(),
    decreases order.len(),
{
    let line = |x: int|
        agents[x].name@ + "\t"@ + agents[x].id@ + "\t"@ + agents[x].description@ + "\n"@;
    let lines = order.map_values(line);
    if order.len() == 0 {
        assert(lines.flatten() =~= Seq::<char>::empty());
    } else {
        let front = order.drop_last();
        lemma_lines_are_flattened(agents, front);
        assert(lines.drop_last() =~= front.map_values(line));
        lines.lemma_flatten_and_flatten_alt_are_equivalent();
        lines.drop_last().lemma_flatten_and_flatten_alt_are_equivalent();
        assert(lines.last() == line(order.last()));
    }
}

/// The line of every agent of the registry stands in the list.
pub proof fn every_agent_has_its_line(agents: Seq<RegistryAgent>, order: Seq<int>, x: int) -> (
    around: (Seq<char>, Seq<char>))
    requires
        is_list_order(agents, order),
        0 <= x < agents.len(),
    ensures
        agent_lines(agents, order) == around.0 + (agents[x].name@ + "\t"@ + agents[x].id@ + "\t"@
            + agents[x].description@ + "\n"@) + around.1,
{
    assert(order.contains(x));
    let p = choose|p: int| 0 <= p < order.len() && order[p] == x;
    lemma_line_at(agents, order, p)
}

proof fn lemma_line_at(agents: Seq<RegistryAgent>, order: Seq<int>, p: int) -> (around: (
    Seq<char>,
    Seq<char>,
))
    requires
        0 <= p < order.len(),
    ensures
        agent_lines(agents, order) == around.0 + agent_line(agents[order[p]]) + around.1,
    decreases order.len(),
{
    let front = order.drop_last();
    let whole = agent_lines(agents, order);
    if p == order.len() - 1 {
        let before = agent_lines(agents, front);
        assert(whole =~= before + agent_line(agents[order[p]]) + Seq::empty());
        (before, Seq::empty())
    } else {
        let (before, behind) = lemma_line_at(agents, front, p);
        let last = agent_line(agents[order.last()]);
        assert(whole =~= before + agent_line(agents[order[p]]) + (behind + last));
        (before, behind + last)
    }
}

/// The list is as long as the lines of all the agents together: one more agent in the order makes
/// it longer by the agent's own line, and by nothing else.
pub proof fn each_agent_lengthens_the_list(agents: Seq<RegistryAgent>, order: Seq<int>, x: int)
    ensures
        agent_lines(agents, order.push(x)) == agent_lines(agents, order) + (agents[x].name@ + "\t"@
            + agents[x].id@ + "\t"@ + agents[x].description@ + "\n"@),
        agent_lines(agents, Seq::empty()).len() == 0,
{
    assert(order.push(x).drop_last() =~= order);
}

/// The agents are listed by their names, whatever the case of ASCII letters; agents of the same
/// name by their identifiers, and those that have both in common in the order of the registry.
pub proof fn agents_are_listed_by_name(
    agents: Seq<RegistryAgent>,
    order: Seq<int>,
    p: int,
    q: int,
)
    requires
        is_list_order(agents, order),
        0 <= p < q < order.len(),
    ensures
        ({
            let (a, b) = (agents[order[p]], agents[order[q]]);
            let (x, y) = (text::lower(a.name@), text::lower(b.name@));
            ||| text::text_before(x, y)
            ||| x == y && text::text_before(a.id@, b.id@)
            ||| x == y && a.id@ == b.id@ && order[p] < order[q]
        }),
{
    assert(listed_before(agents, order[p], order[q]));
}

} // verus!
