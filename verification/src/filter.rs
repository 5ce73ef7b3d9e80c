//! The annotation whitelist: which of a field's annotations are copied onto
//! its generated setter. A whitelist, not a blacklist: only documentation,
//! conditional-compilation and lint-suppression annotations follow the field;
//! everything else is dropped silently, in particular the configuration
//! directive itself.

use vstd::prelude::*;

use crate::model::Annotation;
use crate::model::AnnotationV;
use crate::model::anns_view;
use crate::model::clone_annotation;

verus! {

/// Whether one annotation is safe and meaningful on a generated setter.
pub open spec fn keep_spec(a: AnnotationV) -> bool {
    a is Doc || a is Cfg || a is Allow
}

/// The sub-sequence of annotations that the whitelist keeps, in their
/// original relative order.
pub open spec fn kept_anns(s: Seq<AnnotationV>) -> Seq<AnnotationV> {
    s.filter(|a: AnnotationV| keep_spec(a))
}

/// Decides whether one field annotation is copied onto the field's setter.
pub fn keep(a: &Annotation) -> (r: bool)
    ensures
        r == keep_spec(a@),
{
    match a {
        Annotation::Doc(_) => true,
        Annotation::Cfg(_) => true,
        Annotation::Allow(_) => true,
        Annotation::Directive(_) => false,
        Annotation::Disable => false,
        Annotation::Other(_) => false,
    }
}

/// Applies the whitelist to a field's full annotation list, preserving order.
pub fn filter_annotations(v: &Vec<Annotation>) -> (r: Vec<Annotation>)
    ensures
        anns_view(r@) == kept_anns(anns_view(v@)),
{
    let mut r: Vec<Annotation> = Vec::new();
    let mut i: usize = 0;
    while i < v.len()
        invariant
            i <= v.len(),
            anns_view(r@) == kept_anns(anns_view(v@).take(i as int)),
        decreases v.len() - i,
    {
        if keep(&v[i]) {
            let a = clone_annotation(&v[i]);
            r.push(a);
        }
        proof {
            reveal(Seq::filter);
            let whole = anns_view(v@);
            assert(whole.take(i + 1 as int).drop_last() =~= whole.take(i as int));
            assert(whole.take(i + 1 as int).last() == v@[i as int]@);
        }
        i = i + 1;
    }
    proof {
        assert(anns_view(v@).take(v@.len() as int) =~= anns_view(v@));
    }
    r
}

/// The whitelist law: every kept annotation satisfies the whitelist, and every
/// whitelisted annotation of the input still appears among the kept ones.
pub proof fn lemma_annotation_whitelist(s: Seq<AnnotationV>)
    ensures
        forall|i: int| 0 <= i < kept_anns(s).len() ==> keep_spec(#[trigger] kept_anns(s)[i]),
        forall|i: int| 0 <= i < s.len() && keep_spec(s[i]) ==> kept_anns(s).contains(#[trigger] s[i]),
        kept_anns(s).len() <= s.len(),
{
    broadcast use vstd::seq_lib::group_filter_ensures;

    assert forall|i: int| 0 <= i < s.len() && keep_spec(s[i]) implies kept_anns(s).contains(
        #[trigger] s[i],
    ) by {
        s.lemma_filter_contains(|a: AnnotationV| keep_spec(a), i);
    }
}

} // verus!
