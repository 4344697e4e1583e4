//! Capabilities, needs, agents and the matcher between them.
use vstd::prelude::*;

verus! {

/// The tokens of a list of strings, as a set.
pub open spec fn tokens(v: Seq<String>) -> Set<Seq<char>> {
    Set::new(|t: Seq<char>| exists|i: int| 0 <= i < v.len() && v[i]@ == t)
}

/// Whether the token `t` occurs among `v`.
pub open spec fn has_token(v: Seq<String>, t: Seq<char>) -> bool {
    exists|i: int| 0 <= i < v.len() && #[trigger] v[i]@ == t
}

/// Every need is among the capabilities.
pub open spec fn satisfies(needs: Seq<String>, caps: Seq<String>) -> bool {
    forall|i: int| 0 <= i < needs.len() ==> has_token(caps, #[trigger] needs[i]@)
}

/// Whether the token `t` is one of the strings of `v`.
pub fn contains_token(v: &Vec<String>, t: &String) -> (r: bool)
    ensures
        r == has_token(v@, t@),
{
    let mut i: usize = 0;
    while i < v.len()
        invariant
            0 <= i <= v.len(),
            forall|j: int| 0 <= j < i ==> v@[j]@ != t@,
        decreases v.len() - i,
    {
        if v[i] == *t {
            assert(v@[i as int]@ == t@);
            return true;
        }
        i = i + 1;
    }
    false
}

/// Whether an agent with the capabilities `caps` can run a job with `needs`:
/// every need must be one of the capabilities, compared as exact strings.
pub fn matches(needs: &Vec<String>, caps: &Vec<String>) -> (r: bool)
    ensures
        r == satisfies(needs@, caps@),
        r == tokens(needs@).subset_of(tokens(caps@)),
{
    let mut i: usize = 0;
    while i < needs.len()
        invariant
            0 <= i <= needs.len(),
            forall|j: int| 0 <= j < i ==> has_token(caps@, #[trigger] needs@[j]@),
        decreases needs.len() - i,
    {
        if !contains_token(caps, &needs[i]) {
            assert(!has_token(caps@, needs@[i as int]@));
            proof {
                lemma_satisfies_subset(needs@, caps@);
            }
            return false;
        }
        i = i + 1;
    }
    proof {
        lemma_satisfies_subset(needs@, caps@);
    }
    true
}

/// Satisfying the needs is the same as the needs' tokens being a subset of
/// the capabilities' tokens.
proof fn lemma_satisfies_subset(needs: Seq<String>, caps: Seq<String>)
    ensures
        satisfies(needs, caps) == tokens(needs).subset_of(tokens(caps)),
{
    if satisfies(needs, caps) {
        assert forall|t: Seq<char>| tokens(needs).contains(t) implies tokens(caps).contains(t) by {
            let i = choose|i: int| 0 <= i < needs.len() && needs[i]@ == t;
            assert(has_token(caps, needs[i]@));
        }
    }
    if tokens(needs).subset_of(tokens(caps)) {
        assert forall|i: int| 0 <= i < needs.len() implies has_token(caps, #[trigger] needs[i]@) by {
            assert(tokens(needs).contains(needs[i]@));
        }
    }
}

/// A job with no needs is matched by every agent, also by one that declared
/// no capabilities; in general the matcher decides exactly set inclusion.
pub proof fn lemma_matches_is_inclusion(needs: Seq<String>, caps: Seq<String>)
    ensures
        satisfies(needs, caps) <==> tokens(needs).subset_of(tokens(caps)),
        needs.len() == 0 ==> satisfies(needs, caps),
{
    lemma_satisfies_subset(needs, caps);
}

/// A remote worker: its name, the base address of its endpoint, and the
/// capabilities it advertised when the server started.
pub struct Agent {
    pub name: String,
    pub url: String,
    pub caps: Vec<String>,
}

impl Agent {
    pub fn new(name: String, url: String, caps: Vec<String>) -> (r: Agent)
        ensures
            r.name == name,
            r.url == url,
            r.caps == caps,
    {
        Agent { name, url, caps }
    }

    /// Whether this agent can run a job that needs `needs`.
    pub fn can_meet(&self, needs: &Vec<String>) -> (r: bool)
        ensures
            r == satisfies(needs@, self.caps@),
    {
        matches(needs, &self.caps)
    }
}

} // verus!
