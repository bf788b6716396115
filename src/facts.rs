//! Facts: tagged pieces of project knowledge (prompts, history entries,
//! templates), their case-insensitive search and newest-first order.

use vstd::prelude::*;
use vstd::multiset::Multiset;
use vstd::seq_lib::{to_multiset_build, to_multiset_insert};
use crate::text::{contains_text, lower_of, lowercase, occurs_in};
use crate::time::{current_time, Timestamp};

verus! {

/// The kind of a fact, which decides the directory it is kept in.
#[derive(Clone, Copy, Debug, PartialEq, Eq, Structural)]
pub enum FactType {
    Prompt,
    History,
    Template,
}

/// The directory name of a kind of fact.
pub open spec fn fact_dir_name(t: FactType) -> Seq<char> {
    match t {
        FactType::Prompt => "prompts"@,
        FactType::History => "history"@,
        FactType::Template => "templates"@,
    }
}

impl FactType {
    /// The directory, under `.fargin`, that facts of this kind are kept in.
    pub fn dir_name(&self) -> (r: &'static str)
        ensures
            r@ == fact_dir_name(*self),
    {
        match self {
            FactType::Prompt => "prompts",
            FactType::History => "history",
            FactType::Template => "templates",
        }
    }
}

/// What is known about a fact besides its content.
#[derive(Clone, Debug)]
pub struct FactMetadata {
    pub tags: Vec<String>,
    pub description: Option<String>,
    pub version: Option<String>,
    pub references: Vec<String>,
}

/// A piece of project knowledge.
#[derive(Debug)]
pub struct Fact {
    pub id: String,
    pub fact_type: FactType,
    pub content: String,
    pub metadata: FactMetadata,
    pub created_at: Timestamp,
    pub updated_at: Timestamp,
}

/// Relies on uuid::Uuid::new_v4 for a random identifier, written by its
/// `Display` in the lower-case hyphenated form of 36 ASCII characters;
/// nothing else is promised of its value.
#[verifier::external_body]
pub(crate) fn new_fact_id() -> (r: String)
    ensures
        r@.len() == 36,
{
    uuid::Uuid::new_v4().to_string()
}

/// `query` occurs in `text` when both are lower-cased.
pub open spec fn text_matches(text: Seq<char>, query: Seq<char>) -> bool {
    occurs_in(lower_of(text), lower_of(query))
}

/// The fact's content, description or one of its tags matches `query`,
/// ignoring letter case.
pub open spec fn fact_matches(f: Fact, query: Seq<char>) -> bool {
    ||| text_matches(f.content@, query)
    ||| (f.metadata.description matches Some(d) && text_matches(d@, query))
    ||| exists|i: int| 0 <= i < f.metadata.tags@.len() && text_matches(#[trigger] f.metadata.tags@[i]@, query)
}

/// No fact of `s` was created after the one before it.
pub open spec fn newest_first(s: Seq<Fact>) -> bool {
    forall|i: int, j: int| 0 <= i < j < s.len() ==> !(#[trigger] s[j]).created_at.after((#[trigger] s[i]).created_at)
}

/// The facts of `s` that match `query`, as a multiset.
pub open spec fn matching(s: Seq<Fact>, query: Seq<char>) -> Multiset<Fact>
    decreases s.len(),
{
    if s.len() == 0 {
        Multiset::empty()
    } else {
        matching(s.drop_last(), query).add(
            if fact_matches(s.last(), query) {
                Multiset::singleton(s.last())
            } else {
                Multiset::empty()
            },
        )
    }
}

/// The kinds of fact a search covers: the one asked for, or all three.
pub open spec fn search_scope(t: Option<FactType>) -> Seq<FactType> {
    match t {
        Some(ft) => seq![ft],
        None => seq![FactType::Prompt, FactType::History, FactType::Template],
    }
}

/// The kinds of fact a search covers: the one asked for, or all three.
pub fn fact_types_for(fact_type: Option<FactType>) -> (r: Vec<FactType>)
    ensures
        r@ == search_scope(fact_type),
{
    let mut r: Vec<FactType> = Vec::new();
    match fact_type {
        Some(ft) => {
            r.push(ft);
        },
        None => {
            r.push(FactType::Prompt);
            r.push(FactType::History);
            r.push(FactType::Template);
        },
    }
    assert(r@ =~= search_scope(fact_type));
    r
}

impl Fact {
    /// A fact created now under a fresh random identifier.
    pub fn new(fact_type: FactType, content: String, metadata: FactMetadata) -> (r: Fact)
        ensures
            r.id@.len() == 36,
            r.fact_type == fact_type,
            r.content == content,
            r.metadata == metadata,
            r.created_at.valid(),
            r.updated_at == r.created_at,
    {
        let now = current_time();
        Fact {
            id: new_fact_id(),
            fact_type,
            content,
            metadata,
            created_at: now,
            updated_at: now,
        }
    }

    /// Replaces the content, and the metadata when new metadata is given;
    /// the update time becomes now.
    pub fn update(&mut self, content: String, metadata: Option<FactMetadata>)
        ensures
            final(self).content == content,
            final(self).metadata == (match metadata {
                Some(m) => m,
                None => old(self).metadata,
            }),
            final(self).id == old(self).id,
            final(self).fact_type == old(self).fact_type,
            final(self).created_at == old(self).created_at,
            final(self).updated_at.valid(),
    {
        let now = current_time();
        self.update_at(content, metadata, now);
    }

    /// Replaces the content, and the metadata when new metadata is given;
    /// the update time becomes `now`.
    pub fn update_at(&mut self, content: String, metadata: Option<FactMetadata>, now: Timestamp)
        ensures
            final(self).content == content,
            final(self).metadata == (match metadata {
                Some(m) => m,
                None => old(self).metadata,
            }),
            final(self).id == old(self).id,
            final(self).fact_type == old(self).fact_type,
            final(self).created_at == old(self).created_at,
            final(self).updated_at == now,
    {
        self.content = content;
        if let Some(m) = metadata {
            self.metadata = m;
        }
        self.updated_at = now;
    }

    /// Whether the content, the description or a tag holds `query`, ignoring
    /// letter case.
    pub fn matches(&self, query: &str) -> (r: bool)
        ensures
            r == fact_matches(*self, query@),
    {
        let q = lowercase(query);
        let content = lowercase(self.content.as_str());
        if contains_text(content.as_str(), q.as_str()) {
            return true;
        }
        if let Some(d) = &self.metadata.description {
            let dl = lowercase(d.as_str());
            if contains_text(dl.as_str(), q.as_str()) {
                return true;
            }
        }
        let tags = &self.metadata.tags;
        let mut i: usize = 0;
        while i < tags.len()
            invariant
                q@ == lower_of(query@),
                tags@ == self.metadata.tags@,
                i <= tags@.len(),
                forall|k: int| 0 <= k < i ==> !text_matches(#[trigger] tags@[k]@, query@),
            decreases tags.len() - i,
        {
            let tl = lowercase(tags[i].as_str());
            if contains_text(tl.as_str(), q.as_str()) {
                assert(text_matches(self.metadata.tags@[i as int]@, query@));
                return true;
            }
            i = i + 1;
        }
        false
    }
}

/// Orders facts newest first.
pub fn sort_newest_first(facts: Vec<Fact>) -> (r: Vec<Fact>)
    ensures
        r@.to_multiset() == facts@.to_multiset(),
        newest_first(r@),
{
    broadcast use vstd::seq_lib::group_to_multiset_ensures;

    let mut input = facts;
    let mut out: Vec<Fact> = Vec::new();
    while input.len() > 0
        invariant
            out@.to_multiset().add(input@.to_multiset()) == facts@.to_multiset(),
            newest_first(out@),
        decreases input@.len(),
    {
        let ghost before_in = input@;
        let x = input.pop().unwrap();
        proof {
            assert(before_in =~= input@.push(x));
            to_multiset_build(input@, x);
        }
        let mut j: usize = 0;
        while j < out.len() && out[j].created_at.is_after(&x.created_at)
            invariant
                j <= out@.len(),
                forall|k: int| 0 <= k < j ==> (#[trigger] out@[k]).created_at.after(x.created_at),
            decreases out@.len() - j,
        {
            j = j + 1;
        }
        let ghost before_out = out@;
        out.insert(j, x);
        proof {
            to_multiset_insert(before_out, j as int, x);
            assert(out@ == before_out.insert(j as int, x));
            assert forall|a: int, b: int| 0 <= a < b < out@.len() implies !(#[trigger] out@[b]).created_at.after(
                (#[trigger] out@[a]).created_at,
            ) by {
                if j < before_out.len() {
                    assert(!before_out[j as int].created_at.after(x.created_at));
                }
                if a < j && b == j {
                } else if a < j && b > j {
                    assert(out@[b] == before_out[b - 1]);
                    assert(out@[a] == before_out[a]);
                } else if a == j {
                    assert(out@[b] == before_out[b - 1]);
                    assert(!before_out[b - 1].created_at.after(before_out[j as int].created_at) || b - 1 == j);
                } else if b < j {
                    assert(out@[b] == before_out[b]);
                    assert(out@[a] == before_out[a]);
                } else {
                    assert(out@[b] == before_out[b - 1]);
                    assert(out@[a] == before_out[a - 1]);
                }
            }
            assert(out@.to_multiset().add(input@.to_multiset()) =~= facts@.to_multiset());
        }
    }
    assert(input@.to_multiset() =~= Multiset::empty());
    assert(out@.to_multiset() =~= facts@.to_multiset());
    out
}

/// The facts that match `query`, ignoring letter case, newest first.
pub fn search_facts(query: &str, facts: Vec<Fact>) -> (r: Vec<Fact>)
    ensures
        r@.to_multiset() == matching(facts@, query@),
        newest_first(r@),
{
    broadcast use vstd::seq_lib::group_to_multiset_ensures;

    let mut input = facts;
    let mut kept: Vec<Fact> = Vec::new();
    while input.len() > 0
        invariant
            kept@.to_multiset().add(matching(input@, query@)) == matching(facts@, query@),
        decreases input@.len(),
    {
        let ghost before_in = input@;
        let x = input.pop().unwrap();
        proof {
            assert(before_in.drop_last() =~= input@);
        }
        let ghost before_kept = kept@;
        if x.matches(query) {
            kept.push(x);
            proof {
                to_multiset_build(before_kept, x);
            }
        }
        assert(kept@.to_multiset().add(matching(input@, query@)) =~= matching(facts@, query@));
    }
    assert(matching(input@, query@) =~= Multiset::empty());
    assert(kept@.to_multiset() =~= matching(facts@, query@));
    sort_newest_first(kept)
}

} // verus!
