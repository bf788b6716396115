//! Implementation advice for a single feature, by kind, filtered by how
//! confident the advice is.

use vstd::prelude::*;
use crate::features::{Feature, FeatureManager};
use crate::text::{text_eq, views};

verus! {

/// The kinds of advice about a feature.
#[derive(Clone, Copy, Debug, PartialEq, Eq, Structural)]
pub enum SuggestionType {
    Implementation,
    Testing,
    Optimization,
    Documentation,
    Architecture,
    Performance,
    Security,
    Refactoring,
    UserExperience,
}

/// How much following a piece of advice would change.
#[derive(Clone, Copy, Debug, PartialEq, Eq, Structural)]
pub enum SuggestionImpact {
    Low,
    Medium,
    High,
    Critical,
}

/// A piece of advice about a feature.
#[derive(Debug)]
pub struct FeatureSuggestion {
    pub id: String,
    pub suggestion_type: SuggestionType,
    pub content: String,
    /// How confident the advice is, in percent.
    pub confidence_percent: u8,
    /// Estimated complexity on a scale from 1 to 10.
    pub complexity: u8,
    pub impact: SuggestionImpact,
    pub tags: Vec<String>,
    pub next_steps: Vec<String>,
}

/// What a piece of advice says, field by field.
pub type AdviceShape = (
    SuggestionType,
    Seq<char>,
    Seq<char>,
    u8,
    u8,
    SuggestionImpact,
    Seq<Seq<char>>,
    Seq<Seq<char>>,
);

/// What `s` says.
pub open spec fn advice_shape(s: FeatureSuggestion) -> AdviceShape {
    (
        s.suggestion_type,
        s.id@,
        s.content@,
        s.confidence_percent,
        s.complexity,
        s.impact,
        views(s.tags@),
        views(s.next_steps@),
    )
}

/// The kinds of advice given: the one asked for (only implementation,
/// testing and documentation have any), or those three when none is asked for.
pub open spec fn advice_kinds(t: Option<SuggestionType>) -> Seq<SuggestionType> {
    match t {
        Some(SuggestionType::Implementation) => seq![SuggestionType::Implementation],
        Some(SuggestionType::Testing) => seq![SuggestionType::Testing],
        Some(SuggestionType::Documentation) => seq![SuggestionType::Documentation],
        Some(_) => Seq::empty(),
        None => seq![
            SuggestionType::Implementation,
            SuggestionType::Testing,
            SuggestionType::Documentation,
        ],
    }
}

/// The advice of kind `k` about feature `f` (for the three kinds that have any).
pub open spec fn advice_of(k: SuggestionType, f: Feature) -> AdviceShape {
    match k {
        SuggestionType::Implementation => (
            k,
            f.id@ + "-impl-1"@,
            "Recommended implementation approach for feature: "@ + f.name@,
            80u8,
            6u8,
            SuggestionImpact::High,
            seq!["design"@, "architecture"@],
            seq!["Create detailed design document"@, "Break down into smaller tasks"@],
        ),
        SuggestionType::Testing => (
            k,
            f.id@ + "-test-1"@,
            "Comprehensive test strategy for feature coverage"@,
            70u8,
            5u8,
            SuggestionImpact::Medium,
            seq!["quality"@, "validation"@],
            seq!["Define unit test cases"@, "Create integration test plan"@],
        ),
        _ => (
            k,
            f.id@ + "-doc-1"@,
            "Recommended documentation approach and structure"@,
            90u8,
            3u8,
            SuggestionImpact::High,
            seq!["docs"@, "communication"@],
            seq!["Create user guide"@, "Write technical documentation"@],
        ),
    }
}

/// A verbosity keeps advice of this confidence: `low` only below 50%, `high`
/// only above 70%, any other everything.
pub open spec fn keeps_confidence(verbosity: Seq<char>, confidence: u8) -> bool {
    if verbosity == "low"@ {
        confidence < 50
    } else if verbosity == "high"@ {
        confidence > 70
    } else {
        true
    }
}

/// The advice about `f` of the kinds `ks`, that the verbosity keeps, in order.
pub open spec fn advice_list(ks: Seq<SuggestionType>, f: Feature, verbosity: Seq<char>) -> Seq<
    AdviceShape,
>
    decreases ks.len(),
{
    if ks.len() == 0 {
        Seq::empty()
    } else {
        advice_list(ks.drop_last(), f, verbosity) + if keeps_confidence(
            verbosity,
            advice_of(ks.last(), f).3,
        ) {
            seq![advice_of(ks.last(), f)]
        } else {
            Seq::empty()
        }
    }
}

fn pair(a: &str, b: &str) -> (r: Vec<String>)
    ensures
        views(r@) == seq![a@, b@],
{
    let mut r: Vec<String> = Vec::new();
    r.push(String::from_str(a));
    r.push(String::from_str(b));
    assert(views(r@) =~= seq![a@, b@]);
    r
}

fn make_advice(k: SuggestionType, f: &Feature) -> (r: FeatureSuggestion)
    requires
        k == SuggestionType::Implementation || k == SuggestionType::Testing || k
            == SuggestionType::Documentation,
    ensures
        advice_shape(r) == advice_of(k, *f),
{
    let mut id = f.id.clone();
    match k {
        SuggestionType::Implementation => {
            id.append("-impl-1");
            let mut content = String::from_str("Recommended implementation approach for feature: ");
            content.append(f.name.as_str());
            FeatureSuggestion {
                id,
                suggestion_type: k,
                content,
                confidence_percent: 80,
                complexity: 6,
                impact: SuggestionImpact::High,
                tags: pair("design", "architecture"),
                next_steps: pair("Create detailed design document", "Break down into smaller tasks"),
            }
        },
        SuggestionType::Testing => {
            id.append("-test-1");
            FeatureSuggestion {
                id,
                suggestion_type: k,
                content: String::from_str("Comprehensive test strategy for feature coverage"),
                confidence_percent: 70,
                complexity: 5,
                impact: SuggestionImpact::Medium,
                tags: pair("quality", "validation"),
                next_steps: pair("Define unit test cases", "Create integration test plan"),
            }
        },
        _ => {
            id.append("-doc-1");
            FeatureSuggestion {
                id,
                suggestion_type: k,
                content: String::from_str("Recommended documentation approach and structure"),
                confidence_percent: 90,
                complexity: 3,
                impact: SuggestionImpact::High,
                tags: pair("docs", "communication"),
                next_steps: pair("Create user guide", "Write technical documentation"),
            }
        },
    }
}

fn kinds_for(t: Option<SuggestionType>) -> (r: Vec<SuggestionType>)
    ensures
        r@ == advice_kinds(t),
{
    let mut r: Vec<SuggestionType> = Vec::new();
    match t {
        Some(SuggestionType::Implementation) => r.push(SuggestionType::Implementation),
        Some(SuggestionType::Testing) => r.push(SuggestionType::Testing),
        Some(SuggestionType::Documentation) => r.push(SuggestionType::Documentation),
        Some(_) => {},
        None => {
            r.push(SuggestionType::Implementation);
            r.push(SuggestionType::Testing);
            r.push(SuggestionType::Documentation);
        },
    }
    assert(r@ =~= advice_kinds(t));
    r
}

impl FeatureManager {
    /// Advice about `feature` of the kind asked for (implementation, testing
    /// and documentation when none is), kept by verbosity: `low` keeps advice
    /// under 50% confidence, `high` advice over 70%, anything else all of it.
    pub fn generate_feature_suggestions(
        &self,
        feature: &Feature,
        suggestion_type: Option<SuggestionType>,
        verbosity: &str,
    ) -> (r: Vec<FeatureSuggestion>)
        ensures
            r@.map_values(|s: FeatureSuggestion| advice_shape(s)) == advice_list(
                advice_kinds(suggestion_type),
                *feature,
                verbosity@,
            ),
    {
        let kinds = kinds_for(suggestion_type);
        let low = text_eq(verbosity, "low");
        let high = text_eq(verbosity, "high");
        let mut r: Vec<FeatureSuggestion> = Vec::new();
        let mut i: usize = 0;
        while i < kinds.len()
            invariant
                i <= kinds@.len(),
                kinds@ == advice_kinds(suggestion_type),
                low == (verbosity@ == "low"@),
                high == (verbosity@ == "high"@),
                r@.map_values(|s: FeatureSuggestion| advice_shape(s)) == advice_list(
                    kinds@.subrange(0, i as int),
                    *feature,
                    verbosity@,
                ),
            decreases kinds.len() - i,
        {
            let k = kinds[i];
            let s = make_advice(k, feature);
            let c = s.confidence_percent;
            let keep = if low {
                c < 50
            } else if high {
                c > 70
            } else {
                true
            };
            let ghost before = r@.map_values(|s: FeatureSuggestion| advice_shape(s));
            let ghost shape = advice_shape(s);
            if keep {
                r.push(s);
                assert(r@.map_values(|s: FeatureSuggestion| advice_shape(s)) =~= before.push(shape));
            }
            i = i + 1;
            proof {
                let cur = kinds@.subrange(0, i as int);
                assert(cur.drop_last() =~= kinds@.subrange(0, i - 1));
                assert(cur.last() == k);
                assert(r@.map_values(|s: FeatureSuggestion| advice_shape(s)) =~= advice_list(
                    cur,
                    *feature,
                    verbosity@,
                ));
            }
        }
        assert(kinds@.subrange(0, kinds@.len() as int) =~= kinds@);
        r
    }
}

} // verus!
