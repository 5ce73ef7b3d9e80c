//! Rendering of a generated unit into source text. Each pattern has its own
//! fixed template; the three ownership shapes are deliberately kept apart.
//! Every setter takes one generic parameter `VALUE` bounded by conversion
//! into the field's declared type, so callers may pass anything convertible.

use vstd::prelude::*;
use vstd::string::StringExecFns;

use crate::model::Annotation;
use crate::model::AnnotationV;
use crate::model::GenError;
use crate::model::GeneratedUnit;
use crate::model::GenericParam;
use crate::model::GenericParamV;
use crate::model::Pattern;
use crate::model::RecordDescription;
use crate::model::Setter;
use crate::model::SetterV;
use crate::model::UnitV;
use crate::model::Visibility;
use crate::synth::generate;
use crate::synth::generate_spec;

verus! {

// ---------------------------------------------------------------------------
// Templates, mathematically
// ---------------------------------------------------------------------------

/// The visibility prefix of a generated setter.
pub open spec fn vis_text(v: Visibility) -> Seq<char> {
    match v {
        Visibility::Public => "pub "@,
        Visibility::Private => ""@,
    }
}

/// The parameter list of a setter under one pattern: the record itself in the
/// pattern's ownership shape, then the convertible argument.
pub open spec fn params_text(p: Pattern) -> Seq<char> {
    match p {
        Pattern::Owned => "self, value: VALUE"@,
        Pattern::Mutable => "&mut self, value: VALUE"@,
        Pattern::Immutable => "&self, value: VALUE"@,
    }
}

/// The return type of a setter under one pattern: by value for the owned and
/// immutable shapes, the same exclusive borrow for the mutable one.
pub open spec fn return_text(p: Pattern) -> Seq<char> {
    match p {
        Pattern::Owned => "Self"@,
        Pattern::Mutable => "&mut Self"@,
        Pattern::Immutable => "Self"@,
    }
}

/// What the setter's body binds and updates: the record itself for the owned
/// and mutable shapes, a full copy of it for the immutable one.
pub open spec fn binding_text(p: Pattern) -> Seq<char> {
    match p {
        Pattern::Owned => "self"@,
        Pattern::Mutable => "self"@,
        Pattern::Immutable => "self.clone()"@,
    }
}

/// One kept annotation, as a line above the setter. Annotation payloads are
/// reproduced verbatim; kinds the whitelist drops never reach this point and
/// render as nothing.
pub open spec fn ann_text(a: AnnotationV) -> Seq<char> {
    match a {
        AnnotationV::Doc(s) => "/// "@ + s + "\n"@,
        AnnotationV::Cfg(s) => "#[cfg("@ + s + ")]\n"@,
        AnnotationV::Allow(s) => "#[allow("@ + s + ")]\n"@,
        AnnotationV::Directive(_) => Seq::empty(),
        AnnotationV::Disable => Seq::empty(),
        AnnotationV::Other(_) => Seq::empty(),
    }
}

/// A list of annotation lines, in order.
pub open spec fn anns_text(s: Seq<AnnotationV>) -> Seq<char>
    decreases s.len(),
{
    if s.len() == 0 {
        Seq::empty()
    } else {
        anns_text(s.drop_last()) + ann_text(s.last())
    }
}

/// One generated setter: its kept annotations, then the pattern's template
/// with the field's name and type substituted. The setter's name is the
/// field's name exactly; its one generic parameter `VALUE` accepts any type
/// convertible into the field's type.
pub open spec fn setter_text(s: SetterV) -> Seq<char> {
    anns_text(s.annotations) + vis_text(s.visibility) + "fn "@ + s.name + "<VALUE: Into<"@ + s.ty
        + ">>("@ + params_text(s.pattern) + ") -> "@ + return_text(s.pattern) + " {\n    let mut new = "@
        + binding_text(s.pattern) + ";\n    new."@ + s.name + " = value.into();\n    new\n}\n"@
}

/// The setters of a unit, in order.
pub open spec fn setters_text(s: Seq<SetterV>) -> Seq<char>
    decreases s.len(),
{
    if s.len() == 0 {
        Seq::empty()
    } else {
        setters_text(s.drop_last()) + setter_text(s.last())
    }
}

/// One generic parameter as declared: its name, then its bounds if any.
pub open spec fn param_decl_text(p: GenericParamV) -> Seq<char> {
    if p.bounds.len() == 0 {
        p.name
    } else {
        p.name + ": "@ + p.bounds
    }
}

/// A comma-separated generic parameter list, with bounds.
pub open spec fn params_decl_text(ps: Seq<GenericParamV>) -> Seq<char>
    decreases ps.len(),
{
    if ps.len() == 0 {
        Seq::empty()
    } else if ps.len() == 1 {
        param_decl_text(ps[0])
    } else {
        params_decl_text(ps.drop_last()) + ", "@ + param_decl_text(ps.last())
    }
}

/// A comma-separated generic parameter list, names only.
pub open spec fn params_use_text(ps: Seq<GenericParamV>) -> Seq<char>
    decreases ps.len(),
{
    if ps.len() == 0 {
        Seq::empty()
    } else if ps.len() == 1 {
        ps[0].name
    } else {
        params_use_text(ps.drop_last()) + ", "@ + ps.last().name
    }
}

/// The declaring generic argument list of the unit, angle brackets included;
/// empty for a non-generic record.
pub open spec fn generics_decl_text(ps: Seq<GenericParamV>) -> Seq<char> {
    if ps.len() == 0 {
        Seq::empty()
    } else {
        "<"@ + params_decl_text(ps) + ">"@
    }
}

/// The applied generic argument list of the record's type, angle brackets
/// included; empty for a non-generic record.
pub open spec fn generics_use_text(ps: Seq<GenericParamV>) -> Seq<char> {
    if ps.len() == 0 {
        Seq::empty()
    } else {
        "<"@ + params_use_text(ps) + ">"@
    }
}

/// The where-clause of the unit: the record's own, verbatim, behind a space;
/// nothing when the record has none.
pub open spec fn where_text(w: Seq<char>) -> Seq<char> {
    if w.len() == 0 {
        Seq::empty()
    } else {
        " "@ + w
    }
}

/// The whole unit as source text: a method collection scoped to the record's
/// name and its verbatim generics, holding the setters in field order. A unit
/// with no setters renders as nothing at all.
pub open spec fn unit_text(u: UnitV) -> Seq<char> {
    if u.setters.len() == 0 {
        Seq::empty()
    } else {
        "#[allow(dead_code)]\nimpl"@ + generics_decl_text(u.generics) + " "@ + u.record_name
            + generics_use_text(u.generics) + where_text(u.where_clause) + " {\n"@ + setters_text(
            u.setters,
        ) + "}\n"@
    }
}

// ---------------------------------------------------------------------------
// Executable rendering
// ---------------------------------------------------------------------------

fn render_vis(v: Visibility) -> (r: &'static str)
    ensures
        r@ == vis_text(v),
{
    match v {
        Visibility::Public => "pub ",
        Visibility::Private => "",
    }
}

fn render_params(p: Pattern) -> (r: &'static str)
    ensures
        r@ == params_text(p),
{
    match p {
        Pattern::Owned => "self, value: VALUE",
        Pattern::Mutable => "&mut self, value: VALUE",
        Pattern::Immutable => "&self, value: VALUE",
    }
}

fn render_return(p: Pattern) -> (r: &'static str)
    ensures
        r@ == return_text(p),
{
    match p {
        Pattern::Owned => "Self",
        Pattern::Mutable => "&mut Self",
        Pattern::Immutable => "Self",
    }
}

fn render_binding(p: Pattern) -> (r: &'static str)
    ensures
        r@ == binding_text(p),
{
    match p {
        Pattern::Owned => "self",
        Pattern::Mutable => "self",
        Pattern::Immutable => "self.clone()",
    }
}

fn render_ann(a: &Annotation) -> (r: String)
    ensures
        r@ == ann_text(a@),
{
    match a {
        Annotation::Doc(s) => {
            let mut out: String = "/// ".to_owned();
            out.append(s.as_str());
            out.append("\n");
            out
        },
        Annotation::Cfg(s) => {
            let mut out: String = "#[cfg(".to_owned();
            out.append(s.as_str());
            out.append(")]\n");
            out
        },
        Annotation::Allow(s) => {
            let mut out: String = "#[allow(".to_owned();
            out.append(s.as_str());
            out.append(")]\n");
            out
        },
        Annotation::Directive(_) => String::new(),
        Annotation::Disable => String::new(),
        Annotation::Other(_) => String::new(),
    }
}

fn render_anns(v: &Vec<Annotation>) -> (r: String)
    ensures
        r@ == anns_text(crate::model::anns_view(v@)),
{
    let mut out = String::new();
    let mut i: usize = 0;
    while i < v.len()
        invariant
            i <= v.len(),
            out@ == anns_text(crate::model::anns_view(v@).take(i as int)),
        decreases v.len() - i,
    {
        let line = render_ann(&v[i]);
        out.append(line.as_str());
        proof {
            let whole = crate::model::anns_view(v@);
            assert(whole.take(i + 1 as int).drop_last() =~= whole.take(i as int));
            assert(whole.take(i + 1 as int).last() == v@[i as int]@);
        }
        i = i + 1;
    }
    proof {
        let whole = crate::model::anns_view(v@);
        assert(whole.take(v@.len() as int) =~= whole);
    }
    out
}

/// Renders one setter into source text; the text is exactly the pattern's
/// template around the field's name and type.
pub fn render_setter(s: &Setter) -> (r: String)
    ensures
        r@ == setter_text(s@),
{
    let mut out = render_anns(&s.annotations);
    out.append(render_vis(s.visibility));
    out.append("fn ");
    out.append(s.name.as_str());
    out.append("<VALUE: Into<");
    out.append(s.ty.as_str());
    out.append(">>(");
    out.append(render_params(s.pattern));
    out.append(") -> ");
    out.append(render_return(s.pattern));
    out.append(" {\n    let mut new = ");
    out.append(render_binding(s.pattern));
    out.append(";\n    new.");
    out.append(s.name.as_str());
    out.append(" = value.into();\n    new\n}\n");
    out
}

fn render_params_decl(ps: &Vec<GenericParam>) -> (r: String)
    ensures
        r@ == params_decl_text(crate::model::params_view(ps@)),
{
    let mut out = String::new();
    let mut i: usize = 0;
    while i < ps.len()
        invariant
            i <= ps.len(),
            out@ == params_decl_text(crate::model::params_view(ps@).take(i as int)),
        decreases ps.len() - i,
    {
        if i > 0 {
            out.append(", ");
        }
        out.append(ps[i].name.as_str());
        if ps[i].bounds.as_str().unicode_len() > 0 {
            out.append(": ");
            out.append(ps[i].bounds.as_str());
        }
        proof {
            let whole = crate::model::params_view(ps@);
            assert(whole.take(i + 1 as int).drop_last() =~= whole.take(i as int));
            assert(whole.take(i + 1 as int).last() == ps@[i as int]@);
            assert(out@ =~= params_decl_text(whole.take(i + 1 as int)));
        }
        i = i + 1;
    }
    proof {
        let whole = crate::model::params_view(ps@);
        assert(whole.take(ps@.len() as int) =~= whole);
    }
    out
}

fn render_params_use(ps: &Vec<GenericParam>) -> (r: String)
    ensures
        r@ == params_use_text(crate::model::params_view(ps@)),
{
    let mut out = String::new();
    let mut i: usize = 0;
    while i < ps.len()
        invariant
            i <= ps.len(),
            out@ == params_use_text(crate::model::params_view(ps@).take(i as int)),
        decreases ps.len() - i,
    {
        if i > 0 {
            out.append(", ");
        }
        out.append(ps[i].name.as_str());
        proof {
            let whole = crate::model::params_view(ps@);
            assert(whole.take(i + 1 as int).drop_last() =~= whole.take(i as int));
            assert(whole.take(i + 1 as int).last() == ps@[i as int]@);
            assert(out@ =~= params_use_text(whole.take(i + 1 as int)));
        }
        i = i + 1;
    }
    proof {
        let whole = crate::model::params_view(ps@);
        assert(whole.take(ps@.len() as int) =~= whole);
    }
    out
}

/// Renders a generated unit into source text; a unit with no setters renders
/// as nothing.
pub fn render_unit(u: &GeneratedUnit) -> (r: String)
    ensures
        r@ == unit_text(u@),
{
    if u.setters.len() == 0 {
        return String::new();
    }
    let mut out: String = "#[allow(dead_code)]\nimpl".to_owned();
    if u.generics.len() > 0 {
        out.append("<");
        let decl = render_params_decl(&u.generics);
        out.append(decl.as_str());
        out.append(">");
    }
    proof {
        assert(out@ =~= "#[allow(dead_code)]\nimpl"@ + generics_decl_text(u@.generics));
    }
    out.append(" ");
    out.append(u.record_name.as_str());
    if u.generics.len() > 0 {
        out.append("<");
        let used = render_params_use(&u.generics);
        out.append(used.as_str());
        out.append(">");
    }
    if u.where_clause.as_str().unicode_len() > 0 {
        out.append(" ");
        out.append(u.where_clause.as_str());
    }
    proof {
        assert(out@ =~= "#[allow(dead_code)]\nimpl"@ + generics_decl_text(u@.generics) + " "@
            + u@.record_name + generics_use_text(u@.generics) + where_text(u@.where_clause));
    }
    out.append(" {\n");
    proof {
        assert(out@ =~= "#[allow(dead_code)]\nimpl"@ + generics_decl_text(u@.generics) + " "@
            + u@.record_name + generics_use_text(u@.generics) + where_text(u@.where_clause)
            + " {\n"@ + setters_text(crate::model::setters_view(u.setters@).take(0)));
    }
    let mut i: usize = 0;
    while i < u.setters.len()
        invariant
            i <= u.setters.len(),
            out@ == "#[allow(dead_code)]\nimpl"@ + generics_decl_text(u@.generics) + " "@
                + u@.record_name + generics_use_text(u@.generics) + where_text(u@.where_clause)
                + " {\n"@ + setters_text(crate::model::setters_view(u.setters@).take(i as int)),
        decreases u.setters.len() - i,
    {
        let st = render_setter(&u.setters[i]);
        out.append(st.as_str());
        proof {
            let whole = crate::model::setters_view(u.setters@);
            assert(whole.take(i + 1 as int).drop_last() =~= whole.take(i as int));
            assert(whole.take(i + 1 as int).last() == u.setters@[i as int]@);
        }
        i = i + 1;
    }
    out.append("}\n");
    proof {
        let whole = crate::model::setters_view(u.setters@);
        assert(whole.take(u.setters@.len() as int) =~= whole);
        assert(u@.setters.len() > 0);
    }
    out
}

/// The three patterns render three genuinely different ownership shapes, on
/// every setter: the owned shape consumes the record by value and returns it
/// by value; the mutable shape takes and returns the same exclusive borrow;
/// the immutable shape takes a shared borrow, copies, and returns the copy by
/// value.
pub proof fn lemma_pattern_shapes(s: SetterV)
    ensures
        s.pattern == Pattern::Owned ==> setter_text(s) == anns_text(s.annotations) + vis_text(
            s.visibility,
        ) + "fn "@ + s.name + "<VALUE: Into<"@ + s.ty + ">>("@ + "self, value: VALUE"@ + ") -> "@
            + "Self"@ + " {\n    let mut new = "@ + "self"@ + ";\n    new."@ + s.name
            + " = value.into();\n    new\n}\n"@,
        s.pattern == Pattern::Mutable ==> setter_text(s) == anns_text(s.annotations) + vis_text(
            s.visibility,
        ) + "fn "@ + s.name + "<VALUE: Into<"@ + s.ty + ">>("@ + "&mut self, value: VALUE"@
            + ") -> "@ + "&mut Self"@ + " {\n    let mut new = "@ + "self"@ + ";\n    new."@
            + s.name + " = value.into();\n    new\n}\n"@,
        s.pattern == Pattern::Immutable ==> setter_text(s) == anns_text(s.annotations) + vis_text(
            s.visibility,
        ) + "fn "@ + s.name + "<VALUE: Into<"@ + s.ty + ">>("@ + "&self, value: VALUE"@ + ") -> "@
            + "Self"@ + " {\n    let mut new = "@ + "self.clone()"@ + ";\n    new."@ + s.name
            + " = value.into();\n    new\n}\n"@,
{
}

/// One whole pass from record description to source text: resolve, then
/// synthesize, then render. A failing record produces no text at all.
pub fn generate_source(record: &RecordDescription) -> (r: Result<String, GenError>)
    ensures
        match r {
            Ok(s) => generate_spec(record@) is Ok && s@ == unit_text(generate_spec(record@)->Ok_0),
            Err(e) => generate_spec(record@) is Err && e@ == generate_spec(record@)->Err_0,
        },
{
    match generate(record) {
        Ok(unit) => Ok(render_unit(&unit)),
        Err(e) => Err(e),
    }
}

} // verus!
