//! The request body that carries a command batch, and which agents receive
//! it.
use vstd::prelude::*;
use vstd::string::StringExecFns;
use crate::capability::{Agent, satisfies};

verus! {

/// What `serde_json::to_string` makes of a string: the string as a quoted
/// JSON string literal.
pub uninterp spec fn json_string_of(s: Seq<char>) -> Seq<char>;

/// Whether `s` has no character that a JSON string literal escapes: no
/// quote, no backslash and no control character below U+0020.
pub open spec fn needs_no_escape(s: Seq<char>) -> bool {
    forall|i: int|
        0 <= i < s.len() ==> #[trigger] s[i] != '"' && s[i] != '\\' && (s[i] as u32) >= 0x20
}

/// Relies on `serde_json::to_string` on a `str`: it writes into a `Vec<u8>`,
/// which cannot fail, the string between quotes with `"`, `\` and control
/// characters escaped and every other character kept; the literal depends on
/// the characters alone.
#[verifier::external_body]
fn json_string(s: &str) -> (r: Option<String>)
    ensures
        r is Some,
        r matches Some(j) ==> j@ == json_string_of(s@),
        r matches Some(j) ==> j@.len() >= 2 && j@[0] == '"' && j@.last() == '"',
        r matches Some(j) ==> (needs_no_escape(s@) ==> j@ == seq!['"'] + s@ + seq!['"']),
{
    serde_json::to_string(s).ok()
}

/// One command of the execution request, its script already a JSON string
/// literal: `{"script":<literal>}`.
pub open spec fn script_entry(literal: Seq<char>) -> Seq<char> {
    "{\"script\":"@ + literal + "}"@
}

/// The entries of `literals`, in their order, separated by commas.
pub open spec fn script_entries(literals: Seq<Seq<char>>) -> Seq<char>
    decreases literals.len(),
{
    if literals.len() == 0 {
        Seq::empty()
    } else if literals.len() == 1 {
        script_entry(literals[0])
    } else {
        script_entries(literals.drop_last()) + ","@ + script_entry(literals.last())
    }
}

/// The request body around the script literals `literals`:
/// `{"commands":[{"script":...},...]}`, in their order.
pub open spec fn framed(literals: Seq<Seq<char>>) -> Seq<char> {
    "{\"commands\":["@ + script_entries(literals) + "]}"@
}

/// The JSON literal of each command, in order.
pub open spec fn literals_of(cmds: Seq<String>) -> Seq<Seq<char>> {
    cmds.map_values(|c: String| json_string_of(c@))
}

/// The body of the request that asks an agent to run `cmds`, the commands
/// in their order.
pub open spec fn envelope(cmds: Seq<String>) -> Seq<char> {
    framed(literals_of(cmds))
}

/// The characters of each string, in order.
pub open spec fn views(v: Seq<String>) -> Seq<Seq<char>> {
    v.map_values(|s: String| s@)
}

/// The request body around script literals that are already JSON-encoded.
pub fn frame_scripts(literals: &Vec<String>) -> (r: String)
    ensures
        r@ == framed(views(literals@)),
{
    let mut body = String::from_str("{\"commands\":[");
    let mut i: usize = 0;
    while i < literals.len()
        invariant
            0 <= i <= literals.len(),
            body@ == "{\"commands\":["@ + script_entries(views(literals@.subrange(0, i as int))),
        decreases literals.len() - i,
    {
        proof {
            let pre = views(literals@.subrange(0, i as int));
            let next = views(literals@.subrange(0, i + 1));
            assert(next.drop_last() =~= pre);
            assert(next.last() == literals@[i as int]@);
            if i == 0 {
                assert(pre =~= Seq::<Seq<char>>::empty());
            }
        }
        if i > 0 {
            body.append(",");
        }
        body.append("{\"script\":");
        body.append(literals[i].as_str());
        body.append("}");
        assert(body@ =~= "{\"commands\":["@ + script_entries(
            views(literals@.subrange(0, i + 1)),
        ));
        i = i + 1;
    }
    body.append("]}");
    assert(literals@.subrange(0, literals@.len() as int) =~= literals@);
    assert(body@ =~= framed(views(literals@)));
    body
}

/// The JSON body that carries `commands`, in the order given, to an agent.
pub fn execute_body(commands: &Vec<String>) -> (r: String)
    ensures
        r@ == envelope(commands@),
{
    let mut literals: Vec<String> = Vec::new();
    let mut i: usize = 0;
    while i < commands.len()
        invariant
            0 <= i <= commands.len(),
            literals@.len() == i,
            views(literals@) == literals_of(commands@.subrange(0, i as int)),
        decreases commands.len() - i,
    {
        let quoted = match json_string(commands[i].as_str()) {
            Some(q) => q,
            None => vstd::pervasive::unreached(),
        };
        let ghost prev = literals@;
        literals.push(quoted);
        proof {
            let want = literals_of(commands@.subrange(0, i + 1));
            assert forall|j: int| 0 <= j < i implies views(literals@)[j] == want[j] by {
                assert(literals@[j] == prev[j]);
                assert(views(prev)[j] == literals_of(commands@.subrange(0, i as int))[j]);
            }
            assert(views(literals@) =~= want);
        }
        i = i + 1;
    }
    assert(commands@.subrange(0, commands@.len() as int) =~= commands@);
    frame_scripts(&literals)
}

/// The positions, in order, of the agents among `agents` that satisfy
/// `needs`.
pub open spec fn matching(agents: Seq<Agent>, needs: Seq<String>) -> Seq<usize>
    decreases agents.len(),
{
    if agents.len() == 0 {
        Seq::empty()
    } else if satisfies(needs, agents.last().caps@) {
        matching(agents.drop_last(), needs).push((agents.len() - 1) as usize)
    } else {
        matching(agents.drop_last(), needs)
    }
}

/// An agent is among the receivers of a job exactly when its capabilities
/// meet the job's needs.
pub proof fn lemma_matching_members(agents: Seq<Agent>, needs: Seq<String>)
    requires
        agents.len() <= usize::MAX,
    ensures
        forall|k: usize|
            #[trigger] matching(agents, needs).contains(k) <==> (k < agents.len() && satisfies(
                needs,
                agents[k as int].caps@,
            )),
    decreases agents.len(),
{
    if agents.len() > 0 {
        let rest = agents.drop_last();
        lemma_matching_members(rest, needs);
        lemma_matching_bound(rest, needs);
        assert forall|k: usize|
            #[trigger] matching(agents, needs).contains(k) <==> (k < agents.len() && satisfies(
                needs,
                agents[k as int].caps@,
            )) by {
            if k < rest.len() {
                assert(rest[k as int] == agents[k as int]);
            }
            if satisfies(needs, agents.last().caps@) {
                assert(matching(agents, needs) == matching(rest, needs).push(
                    (agents.len() - 1) as usize,
                ));
                if matching(agents, needs).contains(k) {
                    let j = choose|j: int|
                        0 <= j < matching(agents, needs).len() && matching(agents, needs)[j] == k;
                    if j < matching(rest, needs).len() {
                        assert(matching(rest, needs).contains(k));
                    }
                }
                if k == agents.len() - 1 {
                    assert(matching(agents, needs).last() == k);
                }
                if matching(rest, needs).contains(k) {
                    let j = choose|j: int|
                        0 <= j < matching(rest, needs).len() && matching(rest, needs)[j] == k;
                    assert(matching(agents, needs)[j] == k);
                }
            }
        }
    }
}

/// Every position among the receivers is a position of `agents`.
proof fn lemma_matching_bound(agents: Seq<Agent>, needs: Seq<String>)
    requires
        agents.len() <= usize::MAX,
    ensures
        forall|j: int|
            0 <= j < matching(agents, needs).len() ==> #[trigger] matching(agents, needs)[j]
                < agents.len(),
    decreases agents.len(),
{
    if agents.len() > 0 {
        let rest = agents.drop_last();
        lemma_matching_bound(rest, needs);
        if satisfies(needs, agents.last().caps@) {
            let m = matching(agents, needs);
            assert(m == matching(rest, needs).push((agents.len() - 1) as usize));
            assert forall|j: int| 0 <= j < m.len() implies #[trigger] m[j] < agents.len() by {
                if j < matching(rest, needs).len() {
                    assert(m[j] == matching(rest, needs)[j]);
                }
            }
        }
    }
}

/// The positions of the agents that can run a job with `needs`, in the order
/// of `agents`.
pub fn matching_agents(agents: &Vec<Agent>, needs: &Vec<String>) -> (r: Vec<usize>)
    ensures
        r@ == matching(agents@, needs@),
{
    let mut r: Vec<usize> = Vec::new();
    let mut i: usize = 0;
    while i < agents.len()
        invariant
            0 <= i <= agents.len(),
            r@ == matching(agents@.subrange(0, i as int), needs@),
        decreases agents.len() - i,
    {
        let ok = agents[i].can_meet(needs);
        proof {
            let next = agents@.subrange(0, i + 1);
            assert(next.drop_last() =~= agents@.subrange(0, i as int));
            assert(next.last() == agents@[i as int]);
        }
        if ok {
            r.push(i);
        }
        i = i + 1;
    }
    assert(agents@.subrange(0, agents@.len() as int) =~= agents@);
    r
}

} // verus!
