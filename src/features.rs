//! The feature store: records of planned work, indexed by identifier, with
//! partial updates, filtered listing and the Markdown form they are saved in.

use vstd::prelude::*;
use crate::text::{
    chars_of, is_space, is_space_char, join_texts, joined, list_has, lower_of, lowercase, occurs_at_chars,
    remove_all_text, removed_from, starts_with, text_eq, views,
};
use crate::time::{
    compact_stamp_of, compact_stamp_text, current_time, rfc3339_of, rfc3339_text, Timestamp,
};

verus! {

/// How urgent a feature is; `Critical` is the highest.
#[derive(Clone, Copy, Debug, PartialEq, Eq, Structural, Hash)]
pub enum Priority {
    Critical,
    High,
    Medium,
    Low,
}

/// Where a feature stands in its life.
#[derive(Clone, Copy, Debug, PartialEq, Eq, Structural, Hash)]
pub enum FeatureStatus {
    Proposed,
    InProgress,
    Implemented,
    Blocked,
    Deprecated,
}

/// The priority that a lower-case word names.
pub open spec fn priority_named(l: Seq<char>) -> Option<Priority> {
    if l == "critical"@ {
        Some(Priority::Critical)
    } else if l == "high"@ {
        Some(Priority::High)
    } else if l == "medium"@ {
        Some(Priority::Medium)
    } else if l == "low"@ {
        Some(Priority::Low)
    } else {
        None
    }
}

/// The status that a lower-case word names.
pub open spec fn status_named(l: Seq<char>) -> Option<FeatureStatus> {
    if l == "proposed"@ {
        Some(FeatureStatus::Proposed)
    } else if l == "inprogress"@ {
        Some(FeatureStatus::InProgress)
    } else if l == "implemented"@ {
        Some(FeatureStatus::Implemented)
    } else if l == "blocked"@ {
        Some(FeatureStatus::Blocked)
    } else if l == "deprecated"@ {
        Some(FeatureStatus::Deprecated)
    } else {
        None
    }
}

/// The name of a priority, as written in reports.
pub open spec fn priority_name(p: Priority) -> Seq<char> {
    match p {
        Priority::Critical => "Critical"@,
        Priority::High => "High"@,
        Priority::Medium => "Medium"@,
        Priority::Low => "Low"@,
    }
}

/// The name of a status, as written in reports.
pub open spec fn status_name(s: FeatureStatus) -> Seq<char> {
    match s {
        FeatureStatus::Proposed => "Proposed"@,
        FeatureStatus::InProgress => "InProgress"@,
        FeatureStatus::Implemented => "Implemented"@,
        FeatureStatus::Blocked => "Blocked"@,
        FeatureStatus::Deprecated => "Deprecated"@,
    }
}

impl Priority {
    /// The priority that the lower-case word `l` names.
    pub fn from_lowercase(l: &str) -> (r: Option<Priority>)
        ensures
            r == priority_named(l@),
    {
        if text_eq(l, "critical") {
            Some(Priority::Critical)
        } else if text_eq(l, "high") {
            Some(Priority::High)
        } else if text_eq(l, "medium") {
            Some(Priority::Medium)
        } else if text_eq(l, "low") {
            Some(Priority::Low)
        } else {
            None
        }
    }

    /// Reads a priority name in any letter case.
    pub fn parse(s: &str) -> (r: Result<Priority, String>)
        ensures
            r is Ok <==> priority_named(lower_of(s@)) is Some,
            r matches Ok(p) ==> priority_named(lower_of(s@)) == Some(p),
            r matches Err(e) ==> e@ == "Invalid priority: "@ + s@,
    {
        let l = lowercase(s);
        match Priority::from_lowercase(l.as_str()) {
            Some(p) => Ok(p),
            None => {
                let mut e = String::from_str("Invalid priority: ");
                e.append(s);
                Err(e)
            },
        }
    }

    /// The name of the priority.
    pub fn name(&self) -> (r: &'static str)
        ensures
            r@ == priority_name(*self),
    {
        match self {
            Priority::Critical => "Critical",
            Priority::High => "High",
            Priority::Medium => "Medium",
            Priority::Low => "Low",
        }
    }
}

impl std::str::FromStr for Priority {
    type Err = String;

    fn from_str(s: &str) -> Result<Priority, String> {
        Priority::parse(s)
    }
}

impl FeatureStatus {
    /// The status that the lower-case word `l` names.
    pub fn from_lowercase(l: &str) -> (r: Option<FeatureStatus>)
        ensures
            r == status_named(l@),
    {
        if text_eq(l, "proposed") {
            Some(FeatureStatus::Proposed)
        } else if text_eq(l, "inprogress") {
            Some(FeatureStatus::InProgress)
        } else if text_eq(l, "implemented") {
            Some(FeatureStatus::Implemented)
        } else if text_eq(l, "blocked") {
            Some(FeatureStatus::Blocked)
        } else if text_eq(l, "deprecated") {
            Some(FeatureStatus::Deprecated)
        } else {
            None
        }
    }

    /// Reads a status name in any letter case.
    pub fn parse(s: &str) -> (r: Result<FeatureStatus, String>)
        ensures
            r is Ok <==> status_named(lower_of(s@)) is Some,
            r matches Ok(st) ==> status_named(lower_of(s@)) == Some(st),
            r matches Err(e) ==> e@ == "Invalid feature status: "@ + s@,
    {
        let l = lowercase(s);
        match FeatureStatus::from_lowercase(l.as_str()) {
            Some(st) => Ok(st),
            None => {
                let mut e = String::from_str("Invalid feature status: ");
                e.append(s);
                Err(e)
            },
        }
    }

    /// The name of the status.
    pub fn name(&self) -> (r: &'static str)
        ensures
            r@ == status_name(*self),
    {
        match self {
            FeatureStatus::Proposed => "Proposed",
            FeatureStatus::InProgress => "InProgress",
            FeatureStatus::Implemented => "Implemented",
            FeatureStatus::Blocked => "Blocked",
            FeatureStatus::Deprecated => "Deprecated",
        }
    }
}

impl std::str::FromStr for FeatureStatus {
    type Err = String;

    fn from_str(s: &str) -> Result<FeatureStatus, String> {
        FeatureStatus::parse(s)
    }
}

/// A tracked unit of project work.
#[derive(Clone, Debug)]
pub struct Feature {
    /// Unique identifier: a timestamp, two underscores, and a slug of the name.
    pub id: String,
    pub name: String,
    pub description: Option<String>,
    pub status: FeatureStatus,
    pub tags: Vec<String>,
    pub priority: Priority,
    pub assigned_to: Option<String>,
    pub complexity: Option<u8>,
    pub created_at: Timestamp,
    pub updated_at: Timestamp,
    pub related_features: Vec<String>,
    pub acceptance_criteria: Vec<String>,
}

/// A partial change to a feature: each field that is present replaces the
/// stored one.
#[derive(Default)]
pub struct FeatureUpdateRequest {
    pub description: Option<String>,
    pub status: Option<FeatureStatus>,
    pub tags: Option<Vec<String>>,
    pub priority: Option<Priority>,
    pub assigned_to: Option<String>,
    pub complexity: Option<u8>,
    pub related_features: Option<Vec<String>>,
    pub acceptance_criteria: Option<Vec<String>>,
}

/// Why a store operation was refused.
#[derive(Clone, Copy, Debug, PartialEq, Eq, Structural)]
pub enum FeatureError {
    /// No feature has the identifier.
    NotFound,
    /// A feature with the generated identifier is already indexed.
    AlreadyExists,
}

impl FeatureError {
    /// A sentence that describes the error.
    pub fn message(&self) -> &'static str {
        match self {
            FeatureError::NotFound => "Feature not found",
            FeatureError::AlreadyExists => "Feature with this name already exists",
        }
    }
}

/// Both timestamps of a feature can be rendered.
pub open spec fn feature_valid(f: Feature) -> bool {
    f.created_at.valid() && f.updated_at.valid()
}

/// Some entry of `s` has the identifier `k`.
pub open spec fn has_id(s: Seq<Feature>, k: Seq<char>) -> bool {
    exists|i: int| 0 <= i < s.len() && (#[trigger] s[i]).id@ == k
}

/// No two entries of `s` share an identifier.
pub open spec fn ids_unique(s: Seq<Feature>) -> bool {
    forall|i: int, j: int|
        0 <= i < s.len() && 0 <= j < s.len() && i != j ==> (#[trigger] s[i]).id@ != (#[trigger] s[j]).id@
}

/// The position in `s` of an entry with identifier `k`.
pub open spec fn index_of(s: Seq<Feature>, k: Seq<char>) -> int {
    choose|i: int| 0 <= i < s.len() && (#[trigger] s[i]).id@ == k
}

/// The entries of `s`, keyed by identifier.
pub open spec fn index_by_id(s: Seq<Feature>) -> Map<Seq<char>, Feature> {
    Map::new(|k: Seq<char>| has_id(s, k), |k: Seq<char>| s[index_of(s, k)])
}

proof fn lemma_index_at(s: Seq<Feature>, i: int)
    requires
        ids_unique(s),
        0 <= i < s.len(),
    ensures
        index_by_id(s).contains_key(s[i].id@),
        index_by_id(s)[s[i].id@] == s[i],
{
    assert(has_id(s, s[i].id@));
    let j = index_of(s, s[i].id@);
    assert(s[j].id@ == s[i].id@);
}

proof fn lemma_index_push(s: Seq<Feature>, f: Feature)
    requires
        ids_unique(s),
        !has_id(s, f.id@),
    ensures
        ids_unique(s.push(f)),
        index_by_id(s.push(f)) == index_by_id(s).insert(f.id@, f),
{
    let t = s.push(f);
    assert forall|i: int, j: int|
        0 <= i < t.len() && 0 <= j < t.len() && i != j implies (#[trigger] t[i]).id@ != (#[trigger] t[j]).id@ by {
        if i < s.len() && j < s.len() {
            assert(t[i] == s[i] && t[j] == s[j]);
        } else if i < s.len() {
            assert(t[i] == s[i]);
        } else {
            assert(t[j] == s[j]);
        }
    }
    assert forall|k: Seq<char>| has_id(t, k) <==> has_id(s, k) || k == f.id@ by {
        if has_id(t, k) {
            let i = choose|i: int| 0 <= i < t.len() && (#[trigger] t[i]).id@ == k;
            if i < s.len() {
                assert(s[i] == t[i]);
            }
        }
        if has_id(s, k) {
            let i = choose|i: int| 0 <= i < s.len() && (#[trigger] s[i]).id@ == k;
            assert(t[i] == s[i]);
        }
        if k == f.id@ {
            assert(t[s.len() as int] == f);
        }
    }
    assert forall|k: Seq<char>| #[trigger] has_id(t, k) implies index_by_id(t)[k] == index_by_id(s).insert(f.id@, f)[k] by {
        let j = index_of(t, k);
        if k == f.id@ {
            assert(t[s.len() as int] == f);
        } else {
            assert(j < s.len());
            assert(t[j] == s[j]);
            lemma_index_at(s, j);
        }
    }
    assert(index_by_id(t) =~= index_by_id(s).insert(f.id@, f));
}

proof fn lemma_index_update(s: Seq<Feature>, i: int, f: Feature)
    requires
        ids_unique(s),
        0 <= i < s.len(),
        f.id@ == s[i].id@,
    ensures
        ids_unique(s.update(i, f)),
        index_by_id(s.update(i, f)) == index_by_id(s).insert(f.id@, f),
{
    let t = s.update(i, f);
    assert forall|a: int, b: int|
        0 <= a < t.len() && 0 <= b < t.len() && a != b implies (#[trigger] t[a]).id@ != (#[trigger] t[b]).id@ by {
        assert(t[a].id@ == s[a].id@);
        assert(t[b].id@ == s[b].id@);
    }
    assert forall|k: Seq<char>| has_id(t, k) <==> has_id(s, k) by {
        if has_id(t, k) {
            let a = choose|a: int| 0 <= a < t.len() && (#[trigger] t[a]).id@ == k;
            assert(s[a].id@ == t[a].id@);
        }
        if has_id(s, k) {
            let a = choose|a: int| 0 <= a < s.len() && (#[trigger] s[a]).id@ == k;
            assert(s[a].id@ == t[a].id@);
        }
    }
    lemma_index_at(s, i);
    assert forall|k: Seq<char>| #[trigger] has_id(t, k) implies index_by_id(t)[k] == index_by_id(s).insert(f.id@, f)[k] by {
        let j = index_of(t, k);
        lemma_index_at(t, j);
        if j == i {
            assert(t[j] == f);
        } else {
            assert(t[j] == s[j]);
            lemma_index_at(s, j);
        }
    }
    assert(index_by_id(t) =~= index_by_id(s).insert(f.id@, f));
}

proof fn lemma_index_remove(s: Seq<Feature>, i: int)
    requires
        ids_unique(s),
        0 <= i < s.len(),
    ensures
        ids_unique(s.remove(i)),
        index_by_id(s.remove(i)) == index_by_id(s).remove(s[i].id@),
{
    let t = s.remove(i);
    assert forall|a: int| 0 <= a < t.len() implies #[trigger] t[a] == (if a < i { s[a] } else { s[a + 1] }) by {}
    assert forall|a: int, b: int|
        0 <= a < t.len() && 0 <= b < t.len() && a != b implies (#[trigger] t[a]).id@ != (#[trigger] t[b]).id@ by {
        let sa = if a < i { a } else { a + 1 };
        let sb = if b < i { b } else { b + 1 };
        assert(t[a] == s[sa] && t[b] == s[sb]);
    }
    assert forall|k: Seq<char>| has_id(t, k) <==> has_id(s, k) && k != s[i].id@ by {
        if has_id(t, k) {
            let a = choose|a: int| 0 <= a < t.len() && (#[trigger] t[a]).id@ == k;
            let sa = if a < i { a } else { a + 1 };
            assert(t[a] == s[sa]);
        }
        if has_id(s, k) && k != s[i].id@ {
            let a = choose|a: int| 0 <= a < s.len() && (#[trigger] s[a]).id@ == k;
            if a < i {
                assert(t[a] == s[a]);
            } else {
                assert(a != i);
                assert(t[a - 1] == s[a]);
            }
        }
    }
    assert forall|k: Seq<char>| #[trigger] has_id(t, k) implies index_by_id(t)[k] == index_by_id(s)[k] by {
        let j = index_of(t, k);
        let sj = if j < i { j } else { j + 1 };
        assert(t[j] == s[sj]);
        lemma_index_at(s, sj);
    }
    assert(index_by_id(t) =~= index_by_id(s).remove(s[i].id@));
}

/// The feature store of one project: every feature indexed by identifier.
pub struct FeatureManager {
    project_path: String,
    features: Vec<Feature>,
}

impl View for FeatureManager {
    type V = Map<Seq<char>, Feature>;

    open spec fn view(&self) -> Map<Seq<char>, Feature> {
        index_by_id(self.entries())
    }
}

impl FeatureManager {
    /// The indexed features, in the order the store keeps them.
    pub closed spec fn entries(&self) -> Seq<Feature> {
        self.features@
    }

    /// The project directory the store belongs to.
    pub closed spec fn path(&self) -> Seq<char> {
        self.project_path@
    }

    /// Identifiers are unique and every timestamp can be rendered.
    pub open spec fn wf(&self) -> bool {
        ids_unique(self.entries()) && forall|i: int|
            0 <= i < self.entries().len() ==> feature_valid(#[trigger] self.entries()[i])
    }

    /// An empty store for the project at `project_path`.
    pub fn empty(project_path: &str) -> (r: FeatureManager)
        ensures
            r.wf(),
            r@ == Map::<Seq<char>, Feature>::empty(),
            r.path() == project_path@,
    {
        let r = FeatureManager { project_path: String::from_str(project_path), features: Vec::new() };
        assert(r@ =~= Map::<Seq<char>, Feature>::empty());
        r
    }

    /// The project directory the store belongs to.
    pub fn project_path(&self) -> (r: &str)
        ensures
            r@ == self.path(),
    {
        self.project_path.as_str()
    }

    fn position(&self, id: &str) -> (r: Option<usize>)
        ensures
            r matches Some(i) ==> i < self.entries().len() && self.entries()[i as int].id@ == id@,
            r is None ==> !has_id(self.entries(), id@),
    {
        let mut i: usize = 0;
        while i < self.features.len()
            invariant
                i <= self.features@.len(),
                forall|k: int| 0 <= k < i ==> (#[trigger] self.features@[k]).id@ != id@,
            decreases self.features.len() - i,
        {
            if text_eq(self.features[i].id.as_str(), id) {
                return Some(i);
            }
            i = i + 1;
        }
        None
    }

    /// The feature with identifier `id`, if it is indexed.
    pub fn get_feature(&self, id: &str) -> (r: Option<&Feature>)
        requires
            self.wf(),
        ensures
            r is None <==> !self@.contains_key(id@),
            r matches Some(f) ==> *f == self@[id@] && feature_valid(*f),
    {
        match self.position(id) {
            Some(i) => {
                proof {
                    lemma_index_at(self.entries(), i as int);
                }
                Some(&self.features[i])
            },
            None => None,
        }
    }

    /// Puts `f` into the index, in place of any feature with its identifier.
    fn put(&mut self, f: Feature)
        requires
            old(self).wf(),
            feature_valid(f),
        ensures
            final(self).wf(),
            final(self)@ == old(self)@.insert(f.id@, f),
            final(self).path() == old(self).path(),
    {
        match self.position(f.id.as_str()) {
            Some(i) => {
                proof {
                    lemma_index_update(self.features@, i as int, f);
                }
                let ghost before = self.features@;
                self.features.remove(i);
                self.features.insert(i, f);
                assert(self.features@ =~= before.update(i as int, f));
            },
            None => {
                proof {
                    lemma_index_push(self.features@, f);
                }
                self.features.push(f);
            },
        }
    }

    /// Removes the feature with identifier `id`; nothing happens when there is none.
    pub fn delete_feature(&mut self, id: &str) -> (r: Result<(), FeatureError>)
        requires
            old(self).wf(),
        ensures
            r is Ok,
            final(self).wf(),
            final(self)@ == old(self)@.remove(id@),
            final(self).path() == old(self).path(),
    {
        match self.position(id) {
            Some(i) => {
                proof {
                    lemma_index_remove(self.features@, i as int);
                }
                self.features.remove(i);
            },
            None => {
                assert(self@ =~= self@.remove(id@));
            },
        }
        Ok(())
    }
}


/// An ASCII letter or digit.
pub open spec fn is_ascii_alnum(c: char) -> bool {
    ('a' <= c && c <= 'z') || ('A' <= c && c <= 'Z') || ('0' <= c && c <= '9')
}

/// The slug of an already lower-cased name: white space becomes `_`, ASCII
/// letters and digits stay, everything else is dropped.
pub open spec fn slug_of(l: Seq<char>) -> Seq<char>
    decreases l.len(),
{
    if l.len() == 0 {
        Seq::empty()
    } else {
        let c = l.last();
        slug_of(l.drop_last()) + if is_space_char(c) {
            seq!['_']
        } else if is_ascii_alnum(c) || c == '_' {
            seq![c]
        } else {
            Seq::empty()
        }
    }
}

/// The identifier given to a feature named `name` at instant `now`.
pub open spec fn feature_id_for(name: Seq<char>, now: Timestamp) -> Seq<char> {
    compact_stamp_of(now.secs as int) + "__"@ + slug_of(lower_of(name))
}

/// The slug of a lower-cased name.
pub fn slug(l: &str) -> (r: String)
    ensures
        r@ == slug_of(l@),
{
    proof {
        reveal_strlit("_");
        assert("_"@ =~= seq!['_']);
    }
    let n = l.unicode_len();
    let mut r = String::new();
    let mut i: usize = 0;
    while i < n
        invariant
            n == l@.len(),
            i <= n,
            r@ == slug_of(l@.subrange(0, i as int)),
        decreases n - i,
    {
        let c = l.get_char(i);
        let ghost pre = l@.subrange(0, i as int);
        let ghost r0 = r@;
        proof {
            reveal_strlit("_");
            assert("_"@ =~= seq!['_']);
        }
        if is_space(c) {
            r.append("_");
            assert(r@ == r0 + seq!['_']);
        } else if ('a' <= c && c <= 'z') || ('A' <= c && c <= 'Z') || ('0' <= c && c <= '9') || c
            == '_' {
            let one = l.substring_char(i, i + 1);
            assert(one@ =~= seq![c]);
            r.append(one);
        }
        i = i + 1;
        proof {
            let cur = l@.subrange(0, i as int);
            assert(cur.drop_last() =~= pre);
            assert(cur.last() == c);
            assert(slug_of(cur) == slug_of(pre) + if is_space_char(c) {
                seq!['_']
            } else if is_ascii_alnum(c) || c == '_' {
                seq![c]
            } else {
                Seq::empty()
            });
            assert(r@ =~= slug_of(cur));
        }
    }
    assert(l@.subrange(0, n as int) =~= l@);
    r
}

/// The identifier for a feature named `name` created at `now`.
pub fn feature_id(name: &str, now: Timestamp) -> (r: String)
    requires
        now.valid(),
    ensures
        r@ == feature_id_for(name@, now),
{
    let mut r = compact_stamp_text(now);
    r.append("__");
    let l = lowercase(name);
    let s = slug(l.as_str());
    r.append(s.as_str());
    r
}

/// `f` is the feature that `add_feature` makes from its arguments.
pub open spec fn is_new_feature(
    f: Feature,
    id: Seq<char>,
    name: String,
    description: Option<String>,
    tags: Option<Vec<String>>,
    priority: Option<Priority>,
    assigned_to: Option<String>,
    now: Timestamp,
) -> bool {
    &&& f.id@ == id
    &&& f.name == name
    &&& f.description == description
    &&& f.status == FeatureStatus::Proposed
    &&& f.tags@ == (match tags {
        Some(t) => t@,
        None => Seq::empty(),
    })
    &&& f.priority == (match priority {
        Some(p) => p,
        None => Priority::Medium,
    })
    &&& f.assigned_to == assigned_to
    &&& f.complexity is None
    &&& f.created_at == now
    &&& f.updated_at == now
    &&& f.related_features@.len() == 0
    &&& f.acceptance_criteria@.len() == 0
}

/// `f` with every field present in `u` replaced, touched at `now`.
pub open spec fn apply_update(f: Feature, u: FeatureUpdateRequest, now: Timestamp) -> Feature {
    Feature {
        id: f.id,
        name: f.name,
        description: if u.description is Some {
            u.description
        } else {
            f.description
        },
        status: match u.status {
            Some(s) => s,
            None => f.status,
        },
        tags: match u.tags {
            Some(t) => t,
            None => f.tags,
        },
        priority: match u.priority {
            Some(p) => p,
            None => f.priority,
        },
        assigned_to: if u.assigned_to is Some {
            u.assigned_to
        } else {
            f.assigned_to
        },
        complexity: if u.complexity is Some {
            u.complexity
        } else {
            f.complexity
        },
        created_at: f.created_at,
        updated_at: now,
        related_features: match u.related_features {
            Some(r) => r,
            None => f.related_features,
        },
        acceptance_criteria: match u.acceptance_criteria {
            Some(a) => a,
            None => f.acceptance_criteria,
        },
    }
}

/// `f` passes the optional tag, status and priority filters (all that are given).
pub open spec fn passes_filters(
    f: Feature,
    tag: Option<Seq<char>>,
    status: Option<FeatureStatus>,
    priority: Option<Priority>,
) -> bool {
    &&& (tag matches Some(t) ==> views(f.tags@).contains(t))
    &&& (status matches Some(s) ==> f.status == s)
    &&& (priority matches Some(p) ==> f.priority == p)
}

/// The filter that `list_features` applies.
pub open spec fn filter_pred(
    tag: Option<Seq<char>>,
    status: Option<FeatureStatus>,
    priority: Option<Priority>,
) -> spec_fn(Feature) -> bool {
    |f: Feature| passes_filters(f, tag, status, priority)
}

/// The text of an optional string argument.
pub open spec fn opt_view(t: Option<&str>) -> Option<Seq<char>> {
    match t {
        Some(s) => Some(s@),
        None => None,
    }
}

impl FeatureManager {
    /// Adds a feature created now; see `add_feature_at`. It is refused only when
    /// the identifier for the clock's reading is already indexed, so it always
    /// succeeds when no reading could give an indexed identifier (as on an
    /// empty store).
    pub fn add_feature(
        &mut self,
        name: String,
        description: Option<String>,
        tags: Option<Vec<String>>,
        priority: Option<Priority>,
        assigned_to: Option<String>,
    ) -> (r: Result<String, FeatureError>)
        requires
            old(self).wf(),
        ensures
            final(self).wf(),
            final(self).path() == old(self).path(),
            r matches Ok(id) ==> {
                &&& !old(self)@.contains_key(id@)
                &&& final(self)@ == old(self)@.insert(id@, final(self)@[id@])
                &&& is_new_feature(
                    final(self)@[id@],
                    id@,
                    name,
                    description,
                    tags,
                    priority,
                    assigned_to,
                    final(self)@[id@].created_at,
                )
            },
            r matches Err(e) ==> e == FeatureError::AlreadyExists && final(self)@ == old(self)@,
            r is Err ==> exists|t: Timestamp|
                t.valid() && old(self)@.contains_key(#[trigger] feature_id_for(name@, t)),
            r matches Ok(id) ==> exists|t: Timestamp|
                t.valid() && id@ == #[trigger] feature_id_for(name@, t) && final(self)@[id@].created_at
                    == t,
            (forall|t: Timestamp| t.valid() ==> !old(self)@.contains_key(#[trigger] feature_id_for(name@, t)))
                ==> r is Ok,
    {
        let now = current_time();
        let r = self.add_feature_at(name, description, tags, priority, assigned_to, now);
        assert(r is Err ==> old(self)@.contains_key(feature_id_for(name@, now)));
        r
    }

    /// Adds a proposed feature created at `now`, with the given priority (or
    /// medium) and tags (or none), and returns its identifier. Refused when a
    /// feature with that identifier is already indexed.
    pub fn add_feature_at(
        &mut self,
        name: String,
        description: Option<String>,
        tags: Option<Vec<String>>,
        priority: Option<Priority>,
        assigned_to: Option<String>,
        now: Timestamp,
    ) -> (r: Result<String, FeatureError>)
        requires
            old(self).wf(),
            now.valid(),
        ensures
            final(self).wf(),
            final(self).path() == old(self).path(),
            r is Ok <==> !old(self)@.contains_key(feature_id_for(name@, now)),
            r matches Ok(id) ==> {
                &&& id@ == feature_id_for(name@, now)
                &&& final(self)@ == old(self)@.insert(id@, final(self)@[id@])
                &&& is_new_feature(
                    final(self)@[id@],
                    id@,
                    name,
                    description,
                    tags,
                    priority,
                    assigned_to,
                    now,
                )
            },
            r matches Err(e) ==> e == FeatureError::AlreadyExists && final(self)@ == old(self)@,
    {
        let id = feature_id(name.as_str(), now);
        if self.position(id.as_str()).is_some() {
            proof {
                let i = choose|i: int|
                    0 <= i < self.entries().len() && (#[trigger] self.entries()[i]).id@ == id@;
                lemma_index_at(self.entries(), i);
            }
            return Err(FeatureError::AlreadyExists);
        }
        let feature = Feature {
            id: id.clone(),
            name,
            description,
            status: FeatureStatus::Proposed,
            tags: match tags {
                Some(t) => t,
                None => Vec::new(),
            },
            priority: match priority {
                Some(p) => p,
                None => Priority::Medium,
            },
            assigned_to,
            complexity: None,
            created_at: now,
            updated_at: now,
            related_features: Vec::new(),
            acceptance_criteria: Vec::new(),
        };
        proof {
            lemma_index_push(self.features@, feature);
        }
        self.features.push(feature);
        proof {
            lemma_index_at(self.entries(), self.entries().len() - 1);
        }
        Ok(id)
    }

    /// Applies `updates` to the feature with identifier `id`, touched now; see
    /// `update_feature_at`.
    pub fn update_feature(&mut self, id: &str, updates: FeatureUpdateRequest) -> (r: Result<
        (),
        FeatureError,
    >)
        requires
            old(self).wf(),
        ensures
            final(self).wf(),
            final(self).path() == old(self).path(),
            r is Ok <==> old(self)@.contains_key(id@),
            r is Ok ==> final(self)@ == old(self)@.insert(
                id@,
                apply_update(old(self)@[id@], updates, final(self)@[id@].updated_at),
            ),
            r matches Err(e) ==> e == FeatureError::NotFound && final(self)@ == old(self)@,
    {
        let now = current_time();
        self.update_feature_at(id, updates, now)
    }

    /// Replaces every field of the feature `id` that `updates` holds, and sets
    /// its update time to `now`. Refused when no feature has that identifier.
    pub fn update_feature_at(
        &mut self,
        id: &str,
        updates: FeatureUpdateRequest,
        now: Timestamp,
    ) -> (r: Result<(), FeatureError>)
        requires
            old(self).wf(),
            now.valid(),
        ensures
            final(self).wf(),
            final(self).path() == old(self).path(),
            r is Ok <==> old(self)@.contains_key(id@),
            r is Ok ==> final(self)@ == old(self)@.insert(
                id@,
                apply_update(old(self)@[id@], updates, now),
            ),
            r matches Err(e) ==> e == FeatureError::NotFound && final(self)@ == old(self)@,
    {
        let i = match self.position(id) {
            Some(i) => i,
            None => {
                return Err(FeatureError::NotFound);
            },
        };
        proof {
            lemma_index_at(self.entries(), i as int);
        }
        let ghost before = self.features@;
        let ghost old_f = self.features@[i as int];
        let mut f = self.features.remove(i);
        let FeatureUpdateRequest {
            description,
            status,
            tags,
            priority,
            assigned_to,
            complexity,
            related_features,
            acceptance_criteria,
        } = updates;
        if description.is_some() {
            f.description = description;
        }
        if let Some(s) = status {
            f.status = s;
        }
        if let Some(t) = tags {
            f.tags = t;
        }
        if let Some(p) = priority {
            f.priority = p;
        }
        if assigned_to.is_some() {
            f.assigned_to = assigned_to;
        }
        if complexity.is_some() {
            f.complexity = complexity;
        }
        if let Some(r) = related_features {
            f.related_features = r;
        }
        if let Some(a) = acceptance_criteria {
            f.acceptance_criteria = a;
        }
        f.updated_at = now;
        assert(f == apply_update(old_f, updates, now));
        proof {
            lemma_index_update(before, i as int, f);
        }
        self.features.insert(i, f);
        assert(self.features@ =~= before.update(i as int, f));
        Ok(())
    }

    /// The indexed features that pass every given filter: the tag among the
    /// feature's tags (exact match), equal status, equal priority.
    pub fn list_features(
        &self,
        tag: Option<&str>,
        status: Option<FeatureStatus>,
        priority: Option<Priority>,
    ) -> (r: Vec<&Feature>)
        ensures
            r@.map_values(|f: &Feature| *f) == self.entries().filter(
                filter_pred(opt_view(tag), status, priority),
            ),
    {
        let ghost pred = filter_pred(opt_view(tag), status, priority);
        let mut r: Vec<&Feature> = Vec::new();
        let mut i: usize = 0;
        while i < self.features.len()
            invariant
                i <= self.features@.len(),
                pred == filter_pred(opt_view(tag), status, priority),
                r@.map_values(|f: &Feature| *f) == self.features@.subrange(0, i as int).filter(pred),
            decreases self.features.len() - i,
        {
            let f = &self.features[i];
            let tag_ok = match tag {
                Some(t) => list_has(&f.tags, t),
                None => true,
            };
            let status_ok = match status {
                Some(s) => f.status == s,
                None => true,
            };
            let priority_ok = match priority {
                Some(p) => f.priority == p,
                None => true,
            };
            let ghost pre = self.features@.subrange(0, i as int);
            let ghost before = r@;
            if tag_ok && status_ok && priority_ok {
                r.push(f);
                assert(r@.map_values(|f: &Feature| *f) =~= before.map_values(|f: &Feature| *f).push(*f));
            }
            i = i + 1;
            proof {
                let cur = self.features@.subrange(0, i as int);
                assert(cur =~= pre.push(*f));
                pre.lemma_filter_push(*f, pred);
                assert(cur.last() == *f);
                assert(tag_ok == (opt_view(tag) matches Some(t) ==> views(f.tags@).contains(t)));
                assert(status_ok == (status matches Some(st) ==> f.status == st));
                assert(priority_ok == (priority matches Some(p) ==> f.priority == p));
                assert(passes_filters(*f, opt_view(tag), status, priority) == (tag_ok && status_ok
                    && priority_ok));
                assert(pred(*f) == (tag_ok && status_ok && priority_ok));
                assert(cur.filter(pred) == if pred(cur.last()) {
                    pre.filter(pred).push(cur.last())
                } else {
                    pre.filter(pred)
                });
            }
        }
        assert(self.features@.subrange(0, self.features@.len() as int) =~= self.features@);
        r
    }
}

/// The heading that opens a saved feature and carries its name.
pub open spec fn title_marker() -> Seq<char> {
    "# Feature: "@
}

/// The line of `s` that starts at `start` and ends before position `e`
/// (a line feed or the end), without the carriage return of a `\r\n` ending.
pub open spec fn line_text(s: Seq<char>, start: int, e: int) -> Seq<char> {
    if e < s.len() && e > start && s[e - 1] == '\r' {
        s.subrange(start, e - 1)
    } else {
        s.subrange(start, e)
    }
}

/// The first line of `s`, from the line that starts at `start` on, that begins
/// with the title marker; `i` is how far the current line has been scanned.
pub open spec fn title_scan(s: Seq<char>, start: int, i: int) -> Option<Seq<char>>
    decreases s.len() - i,
{
    if i < start || start < 0 {
        None
    } else if i >= s.len() || s[i] == '\n' {
        if starts_with(line_text(s, start, i), title_marker()) {
            Some(line_text(s, start, i))
        } else if i >= s.len() {
            None
        } else {
            title_scan(s, i + 1, i + 1)
        }
    } else {
        title_scan(s, start, i + 1)
    }
}

/// The name recovered from a saved feature: its first title line with every
/// title marker removed, or `fallback` when no line starts with the marker.
pub open spec fn title_or(content: Seq<char>, fallback: Seq<char>) -> Seq<char> {
    match title_scan(content, 0, 0) {
        Some(line) => removed_from(line, title_marker(), 0),
        None => fallback,
    }
}

/// The name carried by a saved feature, or `fallback` when it has no title line.
pub fn recovered_name(content: &str, fallback: &str) -> (r: String)
    ensures
        r@ == title_or(content@, fallback@),
{
    proof {
        reveal_strlit("# Feature: ");
    }
    let marker = "# Feature: ";
    assert(marker@.len() > 0);
    let sc = chars_of(content);
    let mc = chars_of(marker);
    let n = sc.len();
    let mut start: usize = 0;
    let mut i: usize = 0;
    loop
        invariant
            sc@ == content@,
            mc@ == marker@,
            marker@ == title_marker(),
            marker@.len() > 0,
            n == content@.len(),
            start <= i <= n,
            title_scan(content@, start as int, i as int) == title_scan(content@, 0, 0),
        decreases n - i,
    {
        if i >= n || sc[i] == '\n' {
            let e = if i < n && i > start && sc[i - 1] == '\r' {
                i - 1
            } else {
                i
            };
            let ghost line = line_text(content@, start as int, i as int);
            assert(line =~= content@.subrange(start as int, e as int));
            let hit = e - start >= mc.len() && occurs_at_chars(&sc, &mc, start);
            proof {
                if e - start >= mc@.len() {
                    assert(line.subrange(0, mc@.len() as int) =~= content@.subrange(
                        start as int,
                        start + mc@.len(),
                    ));
                }
            }
            assert(hit == starts_with(line, title_marker()));
            if hit {
                let l = content.substring_char(start, e);
                return remove_all_text(l, marker);
            }
            if i >= n {
                return String::from_str(fallback);
            }
            i = i + 1;
            start = i;
        } else {
            i = i + 1;
        }
    }
}

/// A saved feature as read back: the file name without its `.md` extension,
/// and the file's text.
pub struct StoredFeature {
    pub stem: String,
    pub content: String,
}

/// `f` is what the store recovers from the saved feature `e` at instant `now`:
/// identifier and name only, every other field at its default.
pub open spec fn is_recovered(f: Feature, e: StoredFeature, now: Timestamp) -> bool {
    &&& f.id@ == e.stem@
    &&& f.name@ == title_or(e.content@, e.stem@)
    &&& f.description is None
    &&& f.status == FeatureStatus::Proposed
    &&& f.tags@.len() == 0
    &&& f.priority == Priority::Medium
    &&& f.assigned_to is None
    &&& f.complexity is None
    &&& f.created_at == now
    &&& f.updated_at == now
    &&& f.related_features@.len() == 0
    &&& f.acceptance_criteria@.len() == 0
}

/// `m` indexes the saved features `files`, the last of several with one stem winning.
pub open spec fn recovers(m: Map<Seq<char>, Feature>, files: Seq<StoredFeature>, now: Timestamp) -> bool {
    &&& forall|k: Seq<char>|
        #![trigger m.contains_key(k)]
        m.contains_key(k) <==> exists|i: int| 0 <= i < files.len() && (#[trigger] files[i]).stem@ == k
    &&& forall|k: Seq<char>|
        #![trigger m.contains_key(k)]
        m.contains_key(k) ==> exists|i: int|
            0 <= i < files.len() && (#[trigger] files[i]).stem@ == k && is_recovered(m[k], files[i], now)
                && forall|j: int| i < j < files.len() ==> (#[trigger] files[j]).stem@ != k
}

impl FeatureManager {
    /// The store of the project at `project_path`, rebuilt from its saved
    /// features; see `from_stored`.
    pub fn new(project_path: &str, files: Vec<StoredFeature>) -> (r: FeatureManager)
        ensures
            r.wf(),
            r.path() == project_path@,
            exists|now: Timestamp| now.valid() && recovers(r@, files@, now),
    {
        let now = current_time();
        FeatureManager::from_stored(project_path, files, now)
    }

    /// Rebuilds the store from saved features, read at `now`: each is indexed
    /// under its file stem with the name from its title line.
    pub fn from_stored(project_path: &str, files: Vec<StoredFeature>, now: Timestamp) -> (r: FeatureManager)
        requires
            now.valid(),
        ensures
            r.wf(),
            r.path() == project_path@,
            recovers(r@, files@, now),
    {
        let mut m = FeatureManager::empty(project_path);
        let mut i: usize = 0;
        while i < files.len()
            invariant
                i <= files@.len(),
                now.valid(),
                m.wf(),
                m.path() == project_path@,
                recovers(m@, files@.subrange(0, i as int), now),
            decreases files.len() - i,
        {
            let e = &files[i];
            let f = Feature {
                id: e.stem.clone(),
                name: recovered_name(e.content.as_str(), e.stem.as_str()),
                description: None,
                status: FeatureStatus::Proposed,
                tags: Vec::new(),
                priority: Priority::Medium,
                assigned_to: None,
                complexity: None,
                created_at: now,
                updated_at: now,
                related_features: Vec::new(),
                acceptance_criteria: Vec::new(),
            };
            let ghost before = m@;
            let ghost pre = files@.subrange(0, i as int);
            m.put(f);
            i = i + 1;
            proof {
                let cur = files@.subrange(0, i as int);
                assert forall|a: int| 0 <= a < pre.len() implies #[trigger] cur[a] == pre[a] by {}
                assert(cur[i - 1] == *e);
                assert forall|k: Seq<char>| #[trigger] m@.contains_key(k) <==> exists|a: int|
                    0 <= a < cur.len() && (#[trigger] cur[a]).stem@ == k by {
                    if m@.contains_key(k) && k != f.id@ {
                        assert(before.contains_key(k));
                        let a = choose|a: int| 0 <= a < pre.len() && (#[trigger] pre[a]).stem@ == k;
                        assert(cur[a] == pre[a]);
                    }
                    if exists|a: int| 0 <= a < cur.len() && (#[trigger] cur[a]).stem@ == k {
                        let a = choose|a: int| 0 <= a < cur.len() && (#[trigger] cur[a]).stem@ == k;
                        if a < pre.len() {
                            assert(pre[a] == cur[a]);
                        }
                    }
                }
                assert forall|k: Seq<char>| #[trigger] m@.contains_key(k) implies exists|a: int|
                    0 <= a < cur.len() && (#[trigger] cur[a]).stem@ == k && is_recovered(m@[k], cur[a], now)
                        && forall|j: int| a < j < cur.len() ==> (#[trigger] cur[j]).stem@ != k by {
                    if k == f.id@ {
                        assert(is_recovered(m@[k], cur[i - 1], now));
                    } else {
                        assert(before.contains_key(k));
                        let a = choose|a: int|
                            0 <= a < pre.len() && (#[trigger] pre[a]).stem@ == k && is_recovered(before[k], pre[a], now)
                                && forall|j: int| a < j < pre.len() ==> (#[trigger] pre[j]).stem@ != k;
                        assert(cur[a] == pre[a]);
                        assert forall|j: int| a < j < cur.len() implies (#[trigger] cur[j]).stem@ != k by {
                            if j < pre.len() {
                                assert(cur[j] == pre[j]);
                            }
                        }
                    }
                }
            }
        }
        assert(files@.subrange(0, files@.len() as int) =~= files@);
        m
    }
}

/// An optional text, or `default` when it is absent.
pub open spec fn text_or(t: Option<String>, default: Seq<char>) -> Seq<char> {
    match t {
        Some(s) => s@,
        None => default,
    }
}

/// The Markdown document a feature is saved as.
pub open spec fn feature_markdown(f: Feature) -> Seq<char> {
    "# Feature: "@ + f.name@ + "\n\n## Details\n- **ID**: "@ + f.id@ + "\n- **Status**: "@
        + status_name(f.status) + "\n- **Priority**: "@ + priority_name(f.priority)
        + "\n- **Assigned To**: "@ + text_or(f.assigned_to, "Unassigned"@) + "\n- **Created At**: "@
        + rfc3339_of(f.created_at.secs as int, f.created_at.nanos as int) + "\n- **Updated At**: "@
        + rfc3339_of(f.updated_at.secs as int, f.updated_at.nanos as int)
        + "\n\n## Description\n"@ + text_or(f.description, "No description"@)
        + "\n\n## Acceptance Criteria\n"@ + joined(views(f.acceptance_criteria@), "\n- "@)
        + "\n\n## Related Features\n"@ + joined(views(f.related_features@), ", "@) + "\n\n## Tags\n"@
        + joined(views(f.tags@), ", "@)
}

fn opt_text(t: &Option<String>, default: &str) -> (r: String)
    ensures
        r@ == text_or(*t, default@),
{
    match t {
        Some(s) => s.clone(),
        None => String::from_str(default),
    }
}

/// Renders a feature as the Markdown document it is saved as.
pub fn feature_markdown_text(f: &Feature) -> (r: String)
    requires
        feature_valid(*f),
    ensures
        r@ == feature_markdown(*f),
{
    let mut r = String::from_str("# Feature: ");
    r.append(f.name.as_str());
    r.append("\n\n## Details\n- **ID**: ");
    r.append(f.id.as_str());
    r.append("\n- **Status**: ");
    r.append(f.status.name());
    r.append("\n- **Priority**: ");
    r.append(f.priority.name());
    r.append("\n- **Assigned To**: ");
    r.append(opt_text(&f.assigned_to, "Unassigned").as_str());
    r.append("\n- **Created At**: ");
    r.append(rfc3339_text(f.created_at).as_str());
    r.append("\n- **Updated At**: ");
    r.append(rfc3339_text(f.updated_at).as_str());
    r.append("\n\n## Description\n");
    r.append(opt_text(&f.description, "No description").as_str());
    r.append("\n\n## Acceptance Criteria\n");
    r.append(join_texts(&f.acceptance_criteria, "\n- ").as_str());
    r.append("\n\n## Related Features\n");
    r.append(join_texts(&f.related_features, ", ").as_str());
    r.append("\n\n## Tags\n");
    r.append(join_texts(&f.tags, ", ").as_str());
    r
}

proof fn lemma_filter_keeps_all(s: Seq<Feature>, pred: spec_fn(Feature) -> bool)
    requires
        forall|f: Feature| #[trigger] pred(f),
    ensures
        s.filter(pred) == s,
    decreases s.len(),
{
    reveal(Seq::filter);
    if s.len() > 0 {
        lemma_filter_keeps_all(s.drop_last(), pred);
        assert(s.drop_last().push(s.last()) =~= s);
    }
}

/// Right after a feature is added, looking its identifier up yields it: a
/// proposed feature with the given name, and the given priority or medium
/// when none was given.
pub proof fn lemma_get_after_add(
    m: Map<Seq<char>, Feature>,
    f: Feature,
    id: Seq<char>,
    name: String,
    description: Option<String>,
    tags: Option<Vec<String>>,
    priority: Option<Priority>,
    assigned_to: Option<String>,
    now: Timestamp,
)
    requires
        is_new_feature(f, id, name, description, tags, priority, assigned_to, now),
    ensures
        m.insert(id, f).contains_key(id),
        m.insert(id, f)[id].name == name,
        m.insert(id, f)[id].status == FeatureStatus::Proposed,
        m.insert(id, f)[id].priority == (match priority {
            Some(p) => p,
            None => Priority::Medium,
        }),
{
}

/// Deleting an identifier that is not indexed leaves the index as it was.
pub proof fn lemma_delete_missing(m: Map<Seq<char>, Feature>, id: Seq<char>)
    requires
        !m.contains_key(id),
    ensures
        m.remove(id) == m,
{
    assert(m.remove(id) =~= m);
}

/// An update that carries only a new status changes the status and the update
/// time, and leaves name, tags, priority and assignee as they were.
pub proof fn lemma_status_only_update(f: Feature, u: FeatureUpdateRequest, now: Timestamp)
    requires
        u.status == Some(FeatureStatus::InProgress),
        u.description is None,
        u.tags is None,
        u.priority is None,
        u.assigned_to is None,
        u.complexity is None,
        u.related_features is None,
        u.acceptance_criteria is None,
    ensures
        apply_update(f, u, now).status == FeatureStatus::InProgress,
        apply_update(f, u, now).name == f.name,
        apply_update(f, u, now).tags == f.tags,
        apply_update(f, u, now).priority == f.priority,
        apply_update(f, u, now).assigned_to == f.assigned_to,
        apply_update(f, u, now).description == f.description,
        apply_update(f, u, now).id == f.id,
        apply_update(f, u, now).created_at == f.created_at,
        apply_update(f, u, now).updated_at == now,
        now.after(f.updated_at) ==> apply_update(f, u, now).updated_at.after(f.updated_at),
{
}

/// Listing without filters yields the indexed features themselves, each once;
/// with only a tag filter it yields exactly the indexed features whose tags
/// hold that tag (exact, case-sensitive match).
pub proof fn lemma_list_features(s: Seq<Feature>, tag: Seq<char>)
    requires
        ids_unique(s),
    ensures
        s.filter(filter_pred(None, None, None)) == s,
        forall|k: Seq<char>| #[trigger]
            index_by_id(s).contains_key(k) ==> s.contains(index_by_id(s)[k]),
        forall|f: Feature| #[trigger]
            s.contains(f) ==> index_by_id(s).contains_key(f.id@) && index_by_id(s)[f.id@] == f,
        forall|f: Feature| #[trigger]
            s.filter(filter_pred(Some(tag), None, None)).contains(f) <==> s.contains(f) && views(
                f.tags@,
            ).contains(tag),
{
    lemma_filter_keeps_all(s, filter_pred(None, None, None));
    assert forall|k: Seq<char>| #[trigger] index_by_id(s).contains_key(k) implies s.contains(
        index_by_id(s)[k],
    ) by {
        let i = index_of(s, k);
        assert(s[i] == index_by_id(s)[k]);
    }
    assert forall|f: Feature| #[trigger] s.contains(f) implies index_by_id(s).contains_key(f.id@)
        && index_by_id(s)[f.id@] == f by {
        let i = choose|i: int| 0 <= i < s.len() && s[i] == f;
        lemma_index_at(s, i);
    }
    let pred = filter_pred(Some(tag), None, None);
    assert forall|f: Feature| #[trigger] s.filter(pred).contains(f) <==> s.contains(f) && views(
        f.tags@,
    ).contains(tag) by {
        if s.filter(pred).contains(f) {
            s.lemma_filter_contains_rev(pred, f);
            let j = choose|j: int| 0 <= j < s.filter(pred).len() && s.filter(pred)[j] == f;
            s.lemma_filter_pred(pred, j);
        }
        if s.contains(f) && views(f.tags@).contains(tag) {
            let i = choose|i: int| 0 <= i < s.len() && s[i] == f;
            s.lemma_filter_contains(pred, i);
        }
    }
}
} // verus!
