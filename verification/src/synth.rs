//! The setter synthesizer: walks the field list in declaration order and,
//! when generation is enabled, emits one setter per field whose shape is the
//! resolved pattern, whose visibility is the resolved visibility, and whose
//! annotations are the field's whitelisted ones. A record with no named
//! fields is rejected outright; a disabled record yields an empty unit.

use vstd::prelude::*;

use crate::filter::filter_annotations;
use crate::filter::kept_anns;
use crate::model::FieldV;
use crate::model::GenError;
use crate::model::GenErrorV;
use crate::model::GeneratedUnit;
use crate::model::Options;
use crate::model::RecordDescription;
use crate::model::RecordV;
use crate::model::Setter;
use crate::model::SetterV;
use crate::model::UnitV;
use crate::model::clone_generics;
use crate::model::setters_view;
use crate::resolve::resolve;
use crate::resolve::resolve_spec;

verus! {

/// The setter generated for one field under a resolved configuration: the
/// field's whitelisted annotations in order, the record-wide visibility and
/// pattern, and the field's own name and type.
pub open spec fn setter_of(f: FieldV, o: Options) -> SetterV {
    SetterV {
        annotations: kept_anns(f.annotations),
        visibility: o.visibility,
        name: f.name,
        ty: f.ty,
        pattern: o.pattern,
    }
}

/// The setters of a field list in declaration order, under one configuration.
pub open spec fn setters_of(fields: Seq<FieldV>, o: Options) -> Seq<SetterV> {
    fields.map_values(|f: FieldV| setter_of(f, o))
}

/// The unit synthesized for a record under a resolved configuration: empty
/// when generation is disabled, rejected when the record has no named fields,
/// and otherwise one setter per field in declaration order, under the
/// record's name and verbatim generic parameters.
pub open spec fn synthesize_spec(r: RecordV, o: Options) -> Result<UnitV, GenErrorV> {
    if !o.setters_enabled {
        Ok(
            UnitV {
                record_name: r.name,
                generics: r.generics,
                where_clause: r.where_clause,
                setters: Seq::empty(),
            },
        )
    } else if r.fields.len() == 0 {
        Err(GenErrorV::NoNamedFields(r.name))
    } else {
        Ok(
            UnitV {
                record_name: r.name,
                generics: r.generics,
                where_clause: r.where_clause,
                setters: setters_of(r.fields, o),
            },
        )
    }
}

/// The image of an executable synthesis result.
pub open spec fn gen_view(r: Result<GeneratedUnit, GenError>) -> Result<UnitV, GenErrorV> {
    match r {
        Ok(u) => Ok(u@),
        Err(e) => Err(e@),
    }
}

/// One whole generation pass: resolve the record's configuration, then
/// synthesize. A configuration fault is reported under the record's name.
pub open spec fn generate_spec(r: RecordV) -> Result<UnitV, GenErrorV> {
    match resolve_spec(r.annotations) {
        Ok(o) => synthesize_spec(r, o),
        Err(e) => Err(GenErrorV::Config(r.name, e)),
    }
}

/// Synthesizes the setter collection for a record under an already-resolved
/// configuration.
pub fn synthesize(record: &RecordDescription, options: &Options) -> (r: Result<
    GeneratedUnit,
    GenError,
>)
    ensures
        gen_view(r) == synthesize_spec(record@, *options),
{
    if !options.setters_enabled {
        let unit = GeneratedUnit {
            record_name: record.name.clone(),
            generics: clone_generics(&record.generics),
            where_clause: record.where_clause.clone(),
            setters: Vec::new(),
        };
        proof {
            assert(unit@ =~= synthesize_spec(record@, *options)->Ok_0);
        }
        return Ok(unit);
    }
    if record.fields.len() == 0 {
        return Err(GenError::NoNamedFields(record.name.clone()));
    }
    let mut setters: Vec<Setter> = Vec::new();
    let mut i: usize = 0;
    while i < record.fields.len()
        invariant
            i <= record.fields.len(),
            setters_view(setters@) == setters_of(record@.fields.take(i as int), *options),
        decreases record.fields.len() - i,
    {
        let f = &record.fields[i];
        let s = Setter {
            annotations: filter_annotations(&f.annotations),
            visibility: options.visibility,
            name: f.name.clone(),
            ty: f.ty.clone(),
            pattern: options.pattern,
        };
        proof {
            assert(s@ =~= setter_of(record@.fields[i as int], *options));
            assert(record@.fields.len() == record.fields@.len());
            assert(record@.fields.take(i as int).len() == i as int);
            assert(setters_of(record@.fields.take(i as int), *options).len() == i as int);
            assert(setters@.len() == i as int);
        }
        setters.push(s);
        proof {
            let fv = record@.fields;
            let o = *options;
            assert(setters@.len() == i + 1);
            assert forall|j: int| 0 <= j < i + 1 implies setters_view(setters@)[j] == setters_of(
                fv.take(i + 1 as int),
                o,
            )[j] by {
                assert(fv.take(i + 1 as int)[j] == fv[j]);
                if j < i {
                    assert(setters_view(setters@)[j] == setters_of(fv.take(i as int), o)[j]);
                    assert(fv.take(i as int)[j] == fv[j]);
                }
            }
            assert(setters_view(setters@) =~= setters_of(fv.take(i + 1 as int), o));
        }
        i = i + 1;
    }
    let unit = GeneratedUnit {
        record_name: record.name.clone(),
        generics: clone_generics(&record.generics),
        where_clause: record.where_clause.clone(),
        setters,
    };
    proof {
        assert(record@.fields.take(record.fields@.len() as int) =~= record@.fields);
        assert(unit@ =~= synthesize_spec(record@, *options)->Ok_0);
    }
    Ok(unit)
}

/// Resolves a record's configuration and synthesizes its setter collection.
pub fn generate(record: &RecordDescription) -> (r: Result<GeneratedUnit, GenError>)
    ensures
        gen_view(r) == generate_spec(record@),
{
    match resolve(&record.annotations) {
        Ok(o) => synthesize(record, &o),
        Err(e) => Err(GenError::Config(record.name.clone(), e)),
    }
}

// ---------------------------------------------------------------------------
// Laws of the synthesizer
// ---------------------------------------------------------------------------

/// A disable directive yields an empty unit and no error: if the record's
/// annotations carry the disable marker and its configuration otherwise
/// resolves, generation succeeds with zero setters.
pub proof fn lemma_disable_yields_empty(r: RecordV)
    requires
        crate::resolve::has_disable(r.annotations),
        resolve_spec(r.annotations) is Ok,
    ensures
        generate_spec(r) is Ok,
        (generate_spec(r)->Ok_0).setters.len() == 0,
{
}

/// Field order is preserved: under an enabling configuration, a record with
/// fields yields exactly one setter per field, and the setter at each
/// position carries that position's field name and type, the field's
/// whitelisted annotations in their original order, and the record-wide
/// pattern and visibility.
pub proof fn lemma_field_order(r: RecordV, o: Options)
    requires
        o.setters_enabled,
        r.fields.len() > 0,
    ensures
        synthesize_spec(r, o) is Ok,
        (synthesize_spec(r, o)->Ok_0).setters.len() == r.fields.len(),
        forall|i: int|
            0 <= i < r.fields.len() ==> (#[trigger] (synthesize_spec(r, o)->Ok_0).setters[i])
                == setter_of(r.fields[i], o),
        forall|i: int|
            0 <= i < r.fields.len() ==> (#[trigger] (synthesize_spec(r, o)->Ok_0).setters[i]).name
                == r.fields[i].name && (synthesize_spec(r, o)->Ok_0).setters[i].ty
                == r.fields[i].ty && (synthesize_spec(r, o)->Ok_0).setters[i].annotations
                == kept_anns(r.fields[i].annotations) && (synthesize_spec(r, o)->Ok_0).setters[i].pattern
                == o.pattern && (synthesize_spec(r, o)->Ok_0).setters[i].visibility == o.visibility,
{
}

/// A record with no named fields is rejected outright whenever generation is
/// enabled, with a diagnostic naming the record.
pub proof fn lemma_rejects_fieldless(r: RecordV, o: Options)
    requires
        o.setters_enabled,
        r.fields.len() == 0,
    ensures
        synthesize_spec(r, o) == Err::<UnitV, GenErrorV>(GenErrorV::NoNamedFields(r.name)),
{
}

/// Generic parameters are threaded through verbatim: whatever unit synthesis
/// produces is scoped under exactly the record's generic parameter list,
/// bounds included, and its where-clause.
pub proof fn lemma_generics_verbatim(r: RecordV, o: Options)
    requires
        synthesize_spec(r, o) is Ok,
    ensures
        (synthesize_spec(r, o)->Ok_0).generics == r.generics,
        (synthesize_spec(r, o)->Ok_0).where_clause == r.where_clause,
        (synthesize_spec(r, o)->Ok_0).record_name == r.name,
{
}

/// A record with no configuration directive and no disable marker is
/// generated under the defaults: every setter is mutable and public.
pub proof fn lemma_default_setters(r: RecordV)
    requires
        forall|i: int|
            0 <= i < r.annotations.len() ==> !((#[trigger] r.annotations[i]) is Directive) && !(
            r.annotations[i] is Disable),
        r.fields.len() > 0,
    ensures
        generate_spec(r) is Ok,
        (generate_spec(r)->Ok_0).setters.len() == r.fields.len(),
        forall|i: int|
            0 <= i < r.fields.len() ==> (#[trigger] (generate_spec(r)->Ok_0).setters[i]).pattern
                == crate::model::Pattern::Mutable && (generate_spec(r)->Ok_0).setters[i].visibility
                == crate::model::Visibility::Public,
{
    crate::resolve::lemma_default_configuration(r.annotations);
}

} // verus!
