//! The configuration resolver: turns a record's annotation list into a typed
//! [`Options`] value. The directive's payload is a list of `key=value`
//! entries; recognized keys are `pattern` (owned, mutable, immutable) and
//! `visibility` (public, private). A key given more than once is resolved by
//! last-occurrence-wins; an unrecognized key, or a recognized key with a value
//! outside its choices, is a configuration error. A separate record-level
//! marker disables generation outright. Absent configuration defaults to an
//! enabled, mutable, public shape.

use vstd::prelude::*;
use vstd::string::StrSliceExecFns;

use crate::model::Annotation;
use crate::model::AnnotationV;
use crate::model::ConfigError;
use crate::model::ConfigErrorV;
use crate::model::Options;
use crate::model::Pattern;
use crate::model::Visibility;
use crate::model::anns_view;
use crate::model::strs_view;

verus! {

// ---------------------------------------------------------------------------
// The mini-language, mathematically
// ---------------------------------------------------------------------------

/// Position of the first `=` in an entry, or the entry's length if none.
pub open spec fn first_eq(s: Seq<char>) -> int
    decreases s.len(),
{
    if s.len() == 0 {
        0
    } else if s[0] == '=' {
        0
    } else {
        1 + first_eq(s.drop_first())
    }
}

/// Whether an entry has the `key=value` form at all.
pub open spec fn entry_has_value(e: Seq<char>) -> bool {
    first_eq(e) < e.len()
}

/// The text before the first `=` of an entry.
pub open spec fn entry_key(e: Seq<char>) -> Seq<char> {
    e.take(first_eq(e))
}

/// The text after the first `=` of an entry.
pub open spec fn entry_value(e: Seq<char>) -> Seq<char> {
    e.skip(first_eq(e) + 1)
}

/// What one directive entry does to the configuration resolved so far: the
/// two recognized keys overwrite their field, anything else is an error.
pub open spec fn apply_entry(e: Seq<char>, cur: Options) -> Result<Options, ConfigErrorV> {
    if !entry_has_value(e) {
        Err(ConfigErrorV::UnrecognizedKey(e))
    } else {
        let k = entry_key(e);
        let v = entry_value(e);
        if k == "pattern"@ {
            if v == "owned"@ {
                Ok(Options { setters_enabled: cur.setters_enabled, pattern: Pattern::Owned, visibility: cur.visibility })
            } else if v == "mutable"@ {
                Ok(Options { setters_enabled: cur.setters_enabled, pattern: Pattern::Mutable, visibility: cur.visibility })
            } else if v == "immutable"@ {
                Ok(Options { setters_enabled: cur.setters_enabled, pattern: Pattern::Immutable, visibility: cur.visibility })
            } else {
                Err(ConfigErrorV::InvalidValue(k, v))
            }
        } else if k == "visibility"@ {
            if v == "public"@ {
                Ok(Options { setters_enabled: cur.setters_enabled, pattern: cur.pattern, visibility: Visibility::Public })
            } else if v == "private"@ {
                Ok(Options { setters_enabled: cur.setters_enabled, pattern: cur.pattern, visibility: Visibility::Private })
            } else {
                Err(ConfigErrorV::InvalidValue(k, v))
            }
        } else {
            Err(ConfigErrorV::UnrecognizedKey(k))
        }
    }
}

/// Left-to-right application of a directive's entries: the source of the
/// last-occurrence-wins policy.
pub open spec fn apply_items(items: Seq<Seq<char>>, cur: Options) -> Result<Options, ConfigErrorV>
    decreases items.len(),
{
    if items.len() == 0 {
        Ok(cur)
    } else {
        match apply_entry(items[0], cur) {
            Ok(o) => apply_items(items.drop_first(), o),
            Err(e) => Err(e),
        }
    }
}

/// Applies every directive of the annotation list, in order.
pub open spec fn fold_directives(anns: Seq<AnnotationV>, cur: Options) -> Result<Options, ConfigErrorV>
    decreases anns.len(),
{
    if anns.len() == 0 {
        Ok(cur)
    } else {
        match anns[0] {
            AnnotationV::Directive(items) => match apply_items(items, cur) {
                Ok(o) => fold_directives(anns.drop_first(), o),
                Err(e) => Err(e),
            },
            _ => fold_directives(anns.drop_first(), cur),
        }
    }
}

/// Whether the record carries the disable marker.
pub open spec fn has_disable(anns: Seq<AnnotationV>) -> bool {
    exists|i: int| 0 <= i < anns.len() && anns[i] is Disable
}

/// The resolved configuration of a record: directive entries folded over the
/// defaults, and generation disabled exactly when the disable marker appears.
pub open spec fn resolve_spec(anns: Seq<AnnotationV>) -> Result<Options, ConfigErrorV> {
    match fold_directives(anns, Options::default_spec()) {
        Ok(o) => Ok(
            Options {
                setters_enabled: !has_disable(anns),
                pattern: o.pattern,
                visibility: o.visibility,
            },
        ),
        Err(e) => Err(e),
    }
}

/// The image of an executable resolver result.
pub open spec fn cfg_view(r: Result<Options, ConfigError>) -> Result<Options, ConfigErrorV> {
    match r {
        Ok(o) => Ok(o),
        Err(e) => Err(e@),
    }
}

// ---------------------------------------------------------------------------
// Executable resolver
// ---------------------------------------------------------------------------

proof fn lemma_first_eq_at(s: Seq<char>, i: int)
    requires
        0 <= i <= s.len(),
        forall|j: int| 0 <= j < i ==> s[j] != '=',
        i < s.len() ==> s[i] == '=',
    ensures
        first_eq(s) == i,
    decreases i,
{
    if i > 0 {
        assert(s[0] != '=');
        let t = s.drop_first();
        assert forall|j: int| 0 <= j < i - 1 implies t[j] != '=' by {
            assert(t[j] == s[j + 1]);
        }
        assert(i - 1 < t.len() ==> t[i - 1] == s[i]);
        lemma_first_eq_at(t, i - 1);
    }
}

/// Index of the first `=` of a string, or its character length if none.
fn find_eq(s: &str) -> (i: usize)
    ensures
        i as int == first_eq(s@),
        i <= s@.len(),
{
    let n = s.unicode_len();
    let mut i: usize = 0;
    while i < n
        invariant
            n == s@.len(),
            i <= n,
            forall|j: int| 0 <= j < i ==> s@[j] != '=',
        decreases n - i,
    {
        if s.get_char(i) == '=' {
            proof {
                lemma_first_eq_at(s@, i as int);
            }
            return i;
        }
        i = i + 1;
    }
    proof {
        lemma_first_eq_at(s@, i as int);
    }
    i
}

/// Character-wise string comparison.
fn str_eq(a: &str, b: &str) -> (r: bool)
    ensures
        r == (a@ == b@),
{
    let sa: String = a.to_owned();
    let sb: String = b.to_owned();
    sa == sb
}

/// Applies one directive entry to the configuration resolved so far.
fn apply_entry_exec(e: &String, cur: Options) -> (r: Result<Options, ConfigError>)
    ensures
        cfg_view(r) == apply_entry(e@, cur),
{
    let s = e.as_str();
    let n = s.unicode_len();
    let i = find_eq(s);
    if i == n {
        return Err(ConfigError::UnrecognizedKey(e.clone()));
    }
    let k = s.substring_char(0, i);
    let v = s.substring_char(i + 1, n);
    proof {
        assert(k@ == entry_key(e@));
        assert(v@ == entry_value(e@));
    }
    if str_eq(k, "pattern") {
        if str_eq(v, "owned") {
            Ok(Options { setters_enabled: cur.setters_enabled, pattern: Pattern::Owned, visibility: cur.visibility })
        } else if str_eq(v, "mutable") {
            Ok(Options { setters_enabled: cur.setters_enabled, pattern: Pattern::Mutable, visibility: cur.visibility })
        } else if str_eq(v, "immutable") {
            Ok(Options { setters_enabled: cur.setters_enabled, pattern: Pattern::Immutable, visibility: cur.visibility })
        } else {
            Err(ConfigError::InvalidValue(k.to_owned(), v.to_owned()))
        }
    } else if str_eq(k, "visibility") {
        if str_eq(v, "public") {
            Ok(Options { setters_enabled: cur.setters_enabled, pattern: cur.pattern, visibility: Visibility::Public })
        } else if str_eq(v, "private") {
            Ok(Options { setters_enabled: cur.setters_enabled, pattern: cur.pattern, visibility: Visibility::Private })
        } else {
            Err(ConfigError::InvalidValue(k.to_owned(), v.to_owned()))
        }
    } else {
        Err(ConfigError::UnrecognizedKey(k.to_owned()))
    }
}

proof fn lemma_has_disable_step(s: Seq<AnnotationV>, i: int)
    requires
        0 <= i < s.len(),
    ensures
        has_disable(s.take(i + 1)) == (has_disable(s.take(i)) || s[i] is Disable),
{
    if has_disable(s.take(i)) {
        let k = choose|k: int| 0 <= k < s.take(i).len() && s.take(i)[k] is Disable;
        assert(s.take(i + 1)[k] is Disable);
    }
    if s[i] is Disable {
        assert(s.take(i + 1)[i] is Disable);
    }
    if has_disable(s.take(i + 1)) {
        let k = choose|k: int| 0 <= k < s.take(i + 1).len() && (#[trigger] s.take(i + 1)[k]) is Disable;
        if k < i {
            assert(s.take(i)[k] is Disable);
        } else {
            assert(s[i] is Disable);
        }
    }
}

/// Resolves a record's annotation list into its configuration. Absent
/// configuration defaults; an explicit but malformed directive entry is an
/// error, never defaulted through.
pub fn resolve(anns: &Vec<Annotation>) -> (r: Result<Options, ConfigError>)
    ensures
        cfg_view(r) == resolve_spec(anns_view(anns@)),
{
    let mut cur = Options::defaults();
    let mut disabled = false;
    let mut i: usize = 0;
    proof {
        assert(anns_view(anns@).skip(0) =~= anns_view(anns@));
    }
    while i < anns.len()
        invariant
            i <= anns.len(),
            fold_directives(anns_view(anns@).skip(i as int), cur) == fold_directives(
                anns_view(anns@),
                Options::default_spec(),
            ),
            disabled == has_disable(anns_view(anns@).take(i as int)),
        decreases anns.len() - i,
    {
        let ghost whole = anns_view(anns@);
        let ghost cur0 = cur;
        match &anns[i] {
            Annotation::Directive(items) => {
                let mut j: usize = 0;
                proof {
                    assert(strs_view(items@).skip(0) =~= strs_view(items@));
                }
                while j < items.len()
                    invariant
                        j <= items.len(),
                        apply_items(strs_view(items@).skip(j as int), cur) == apply_items(
                            strs_view(items@),
                            cur0,
                        ),
                        fold_directives(whole.skip(i as int), cur0) == fold_directives(
                            whole,
                            Options::default_spec(),
                        ),
                        whole == anns_view(anns@),
                        i < anns.len(),
                        anns@[i as int]@ == AnnotationV::Directive(strs_view(items@)),
                    decreases items.len() - j,
                {
                    let ghost ditems = strs_view(items@);
                    proof {
                        assert(ditems.skip(j as int)[0] == ditems[j as int]);
                        assert(ditems.skip(j as int).drop_first() =~= ditems.skip(j + 1 as int));
                    }
                    match apply_entry_exec(&items[j], cur) {
                        Ok(o) => {
                            cur = o;
                        },
                        Err(e) => {
                            proof {
                                assert(apply_items(ditems, cur0) == Err::<Options, ConfigErrorV>(e@));
                                assert(whole.skip(i as int)[0] == whole[i as int]);
                                assert(fold_directives(whole, Options::default_spec())
                                    == Err::<Options, ConfigErrorV>(e@));
                            }
                            return Err(e);
                        },
                    }
                    j = j + 1;
                }
                proof {
                    let ditems = strs_view(items@);
                    assert(ditems.skip(items@.len() as int) =~= Seq::<Seq<char>>::empty());
                    assert(apply_items(ditems, cur0) == Ok::<Options, ConfigErrorV>(cur));
                    assert(whole.skip(i as int)[0] == whole[i as int]);
                    assert(whole.skip(i as int).drop_first() =~= whole.skip(i + 1 as int));
                }
            },
            Annotation::Disable => {
                disabled = true;
                proof {
                    assert(whole.skip(i as int)[0] == whole[i as int]);
                    assert(whole.skip(i as int).drop_first() =~= whole.skip(i + 1 as int));
                }
            },
            _ => {
                proof {
                    assert(whole.skip(i as int)[0] == whole[i as int]);
                    assert(whole.skip(i as int).drop_first() =~= whole.skip(i + 1 as int));
                    assert(!(whole[i as int] is Directive));
                }
            },
        }
        proof {
            lemma_has_disable_step(anns_view(anns@), i as int);
        }
        i = i + 1;
    }
    proof {
        let whole = anns_view(anns@);
        assert(whole.skip(anns@.len() as int) =~= Seq::<AnnotationV>::empty());
        assert(whole.take(anns@.len() as int) =~= whole);
    }
    Ok(Options { setters_enabled: !disabled, pattern: cur.pattern, visibility: cur.visibility })
}

// ---------------------------------------------------------------------------
// Laws of the resolver
// ---------------------------------------------------------------------------

proof fn lemma_fold_skips_non_directives(anns: Seq<AnnotationV>, cur: Options)
    requires
        forall|i: int| 0 <= i < anns.len() ==> !((#[trigger] anns[i]) is Directive),
    ensures
        fold_directives(anns, cur) == Ok::<Options, ConfigErrorV>(cur),
    decreases anns.len(),
{
    if anns.len() > 0 {
        assert(!(anns[0] is Directive));
        let t = anns.drop_first();
        assert forall|i: int| 0 <= i < t.len() implies !((#[trigger] t[i]) is Directive) by {
            assert(t[i] == anns[i + 1]);
        }
        lemma_fold_skips_non_directives(t, cur);
    }
}

/// A record with no configuration directive and no disable marker resolves to
/// the documented defaults: generation enabled, mutable pattern, public
/// visibility.
pub proof fn lemma_default_configuration(anns: Seq<AnnotationV>)
    requires
        forall|i: int|
            0 <= i < anns.len() ==> !((#[trigger] anns[i]) is Directive) && !(anns[i] is Disable),
    ensures
        resolve_spec(anns) == Ok::<Options, ConfigErrorV>(Options::default_spec()),
{
    lemma_fold_skips_non_directives(anns, Options::default_spec());
    assert(!has_disable(anns));
}

/// Entries act left to right: applying a concatenation equals applying the
/// first part, then the second to its outcome. Last-occurrence-wins for a
/// repeated key is this law's consequence.
pub proof fn lemma_apply_items_append(items1: Seq<Seq<char>>, items2: Seq<Seq<char>>, cur: Options)
    ensures
        apply_items(items1 + items2, cur) == (match apply_items(items1, cur) {
            Ok(o) => apply_items(items2, o),
            Err(e) => Err(e),
        }),
    decreases items1.len(),
{
    if items1.len() == 0 {
        assert(items1 + items2 =~= items2);
    } else {
        assert((items1 + items2)[0] == items1[0]);
        assert((items1 + items2).drop_first() =~= items1.drop_first() + items2);
        match apply_entry(items1[0], cur) {
            Ok(o) => {
                lemma_apply_items_append(items1.drop_first(), items2, o);
            },
            Err(e) => {},
        }
    }
}

/// A well-formed directive entry: the `key=value` form, a recognized key, and
/// a value among that key's enumerated choices.
pub open spec fn entry_ok(e: Seq<char>) -> bool {
    entry_has_value(e) && ((entry_key(e) == "pattern"@ && (entry_value(e) == "owned"@
        || entry_value(e) == "mutable"@ || entry_value(e) == "immutable"@)) || (entry_key(e)
        == "visibility"@ && (entry_value(e) == "public"@ || entry_value(e) == "private"@)))
}

/// A well-formed annotation: not a directive, or a directive whose entries
/// are all well formed.
pub open spec fn directive_ok(a: AnnotationV) -> bool {
    match a {
        AnnotationV::Directive(items) => forall|j: int|
            0 <= j < items.len() ==> entry_ok(#[trigger] items[j]),
        _ => true,
    }
}

/// A well-formed configuration: every directive among the record's
/// annotations is well formed.
pub open spec fn config_ok(anns: Seq<AnnotationV>) -> bool {
    forall|i: int| 0 <= i < anns.len() ==> directive_ok(#[trigger] anns[i])
}

proof fn lemma_apply_entry_ok(e: Seq<char>, cur: Options)
    ensures
        apply_entry(e, cur) is Ok <==> entry_ok(e),
{
    reveal_strlit("pattern");
    reveal_strlit("visibility");
    reveal_strlit("owned");
    reveal_strlit("mutable");
    reveal_strlit("immutable");
    reveal_strlit("public");
    reveal_strlit("private");
    assert("pattern"@.len() == 7);
    assert("visibility"@.len() == 10);
    assert("pattern"@ != "visibility"@);
    assert("owned"@.len() == 5);
    assert("mutable"@.len() == 7);
    assert("immutable"@.len() == 9);
    assert("public"@.len() == 6);
    assert("private"@.len() == 7);
}

proof fn lemma_apply_items_ok(items: Seq<Seq<char>>, cur: Options)
    ensures
        apply_items(items, cur) is Ok <==> (forall|j: int|
            0 <= j < items.len() ==> entry_ok(#[trigger] items[j])),
    decreases items.len(),
{
    if items.len() > 0 {
        lemma_apply_entry_ok(items[0], cur);
        match apply_entry(items[0], cur) {
            Ok(o) => {
                let t = items.drop_first();
                lemma_apply_items_ok(t, o);
                assert forall|j: int| 0 <= j < t.len() && (forall|k: int|
                    0 <= k < items.len() ==> entry_ok(#[trigger] items[k])) implies entry_ok(
                    #[trigger] t[j],
                ) by {
                    assert(t[j] == items[j + 1]);
                }
                if apply_items(t, o) is Ok {
                    assert forall|k: int| 0 <= k < items.len() implies entry_ok(
                        #[trigger] items[k],
                    ) by {
                        if k > 0 {
                            assert(items[k] == t[k - 1]);
                        }
                    }
                }
            },
            Err(_) => {},
        }
    }
}

proof fn lemma_fold_ok(anns: Seq<AnnotationV>, cur: Options)
    ensures
        fold_directives(anns, cur) is Ok <==> config_ok(anns),
    decreases anns.len(),
{
    if anns.len() > 0 {
        let t = anns.drop_first();
        assert forall|i: int| 0 <= i < t.len() && config_ok(anns) implies directive_ok(
            #[trigger] t[i],
        ) by {
            assert(t[i] == anns[i + 1]);
        }
        match anns[0] {
            AnnotationV::Directive(items) => {
                lemma_apply_items_ok(items, cur);
                match apply_items(items, cur) {
                    Ok(o) => {
                        lemma_fold_ok(t, o);
                        if fold_directives(t, o) is Ok {
                            assert forall|i: int| 0 <= i < anns.len() implies directive_ok(
                                #[trigger] anns[i],
                            ) by {
                                if i > 0 {
                                    assert(anns[i] == t[i - 1]);
                                }
                            }
                        }
                    },
                    Err(_) => {
                        assert(!directive_ok(anns[0]));
                    },
                }
            },
            _ => {
                lemma_fold_ok(t, cur);
                if fold_directives(t, cur) is Ok {
                    assert forall|i: int| 0 <= i < anns.len() implies directive_ok(
                        #[trigger] anns[i],
                    ) by {
                        if i > 0 {
                            assert(anns[i] == t[i - 1]);
                        }
                    }
                }
            },
        }
    }
}

/// When success is owed: resolution succeeds exactly on the records whose
/// directives are all well formed — an absent key only ever defaults, and
/// only an explicit but malformed entry is refused.
pub proof fn lemma_resolve_total(anns: Seq<AnnotationV>)
    ensures
        resolve_spec(anns) is Ok <==> config_ok(anns),
{
    lemma_fold_ok(anns, Options::default_spec());
}

/// The last occurrence of the `pattern` key wins: whatever earlier entries
/// chose, a final well-formed `pattern` entry alone determines the resolved
/// pattern, and the entry list stays accepted.
pub proof fn lemma_last_pattern_wins(items: Seq<Seq<char>>, e: Seq<char>, cur: Options)
    requires
        apply_items(items, cur) is Ok,
        entry_has_value(e),
        entry_key(e) == "pattern"@,
        entry_value(e) == "owned"@ || entry_value(e) == "mutable"@ || entry_value(e)
            == "immutable"@,
    ensures
        apply_items(items.push(e), cur) is Ok,
        (apply_items(items.push(e), cur)->Ok_0).pattern == (if entry_value(e) == "owned"@ {
            Pattern::Owned
        } else if entry_value(e) == "mutable"@ {
            Pattern::Mutable
        } else {
            Pattern::Immutable
        }),
{
    assert(items.push(e) =~= items + seq![e]);
    lemma_apply_items_append(items, seq![e], cur);
    let o = apply_items(items, cur)->Ok_0;
    assert(apply_items(items + seq![e], cur) == apply_items(seq![e], o));
    assert(seq![e].len() == 1);
    assert(seq![e][0] == e);
    assert(seq![e].drop_first() =~= Seq::<Seq<char>>::empty());
    let applied = apply_entry(e, o);
    assert(applied is Ok);
    assert(apply_items(seq![e], o) == apply_items(seq![e].drop_first(), applied->Ok_0));
    assert(apply_items(seq![e].drop_first(), applied->Ok_0) == Ok::<Options, ConfigErrorV>(applied->Ok_0));
    assert(apply_items(items.push(e), cur) == Ok::<Options, ConfigErrorV>(applied->Ok_0));
}

} // verus!
