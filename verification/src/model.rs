use vstd::prelude::*;

verus! {

// ---------------------------------------------------------------------------
// Resolved configuration
// ---------------------------------------------------------------------------

/// The ownership shape shared by every setter generated for one record.
#[derive(Clone, Copy, PartialEq, Eq, Structural, Debug)]
pub enum Pattern {
    /// Setter consumes the record by value and returns the updated record by value.
    Owned,
    /// Setter takes and returns an exclusive borrow of the record.
    Mutable,
    /// Setter takes a shared borrow, copies the record, and returns the copy by value.
    Immutable,
}

/// Visibility applied uniformly to every generated setter of a record.
#[derive(Clone, Copy, PartialEq, Eq, Structural, Debug)]
pub enum Visibility {
    Public,
    Private,
}

/// Record-level configuration, resolved once per record from its annotations.
#[derive(Clone, Copy, PartialEq, Eq, Structural, Debug)]
pub struct Options {
    pub setters_enabled: bool,
    pub pattern: Pattern,
    pub visibility: Visibility,
}

impl Options {
    /// The configuration that holds when a record carries no directive at all:
    /// generation enabled, mutable pattern, public setters.
    pub open spec fn default_spec() -> Options {
        Options { setters_enabled: true, pattern: Pattern::Mutable, visibility: Visibility::Public }
    }

    pub fn defaults() -> (r: Options)
        ensures
            r == Options::default_spec(),
    {
        Options { setters_enabled: true, pattern: Pattern::Mutable, visibility: Visibility::Public }
    }
}

// ---------------------------------------------------------------------------
// Annotations
// ---------------------------------------------------------------------------

/// One piece of metadata attached to a record or to a field. Payloads are the
/// annotation's text, carried verbatim; this library never parses raw source,
/// only the entries of the configuration directive's own key/value list.
#[derive(Clone, PartialEq, Eq, Debug)]
pub enum Annotation {
    /// A documentation line (its text, without the comment marker).
    Doc(String),
    /// A conditional-compilation marker (the condition's text).
    Cfg(String),
    /// A lint-suppression marker (the lint list's text).
    Allow(String),
    /// The configuration directive: a list of `key=value` entries of the
    /// configuration mini-language.
    Directive(Vec<String>),
    /// The record-level marker that disables setter generation outright.
    Disable,
    /// Any other annotation kind (its raw text). Never copied onto a setter.
    Other(String),
}

/// Mathematical image of an [`Annotation`].
#[verifier::ext_equal]
pub enum AnnotationV {
    Doc(Seq<char>),
    Cfg(Seq<char>),
    Allow(Seq<char>),
    Directive(Seq<Seq<char>>),
    Disable,
    Other(Seq<char>),
}

pub open spec fn strs_view(s: Seq<String>) -> Seq<Seq<char>> {
    s.map_values(|x: String| x@)
}

pub open spec fn anns_view(s: Seq<Annotation>) -> Seq<AnnotationV> {
    s.map_values(|a: Annotation| a@)
}

impl View for Annotation {
    type V = AnnotationV;

    open spec fn view(&self) -> AnnotationV {
        match self {
            Annotation::Doc(s) => AnnotationV::Doc(s@),
            Annotation::Cfg(s) => AnnotationV::Cfg(s@),
            Annotation::Allow(s) => AnnotationV::Allow(s@),
            Annotation::Directive(items) => AnnotationV::Directive(strs_view(items@)),
            Annotation::Disable => AnnotationV::Disable,
            Annotation::Other(s) => AnnotationV::Other(s@),
        }
    }
}

// ---------------------------------------------------------------------------
// Records and fields
// ---------------------------------------------------------------------------

/// One generic parameter of a record: its name and the text of its bounds
/// (empty when the parameter is unbounded). Both are reproduced verbatim.
#[derive(Clone, PartialEq, Eq, Debug)]
pub struct GenericParam {
    pub name: String,
    pub bounds: String,
}

#[verifier::ext_equal]
pub struct GenericParamV {
    pub name: Seq<char>,
    pub bounds: Seq<char>,
}

impl View for GenericParam {
    type V = GenericParamV;

    open spec fn view(&self) -> GenericParamV {
        GenericParamV { name: self.name@, bounds: self.bounds@ }
    }
}

pub open spec fn params_view(s: Seq<GenericParam>) -> Seq<GenericParamV> {
    s.map_values(|p: GenericParam| p@)
}

/// One named member of a record; declaration order is significant.
#[derive(Clone, PartialEq, Eq, Debug)]
pub struct Field {
    pub name: String,
    pub ty: String,
    pub annotations: Vec<Annotation>,
}

#[verifier::ext_equal]
pub struct FieldV {
    pub name: Seq<char>,
    pub ty: Seq<char>,
    pub annotations: Seq<AnnotationV>,
}

impl View for Field {
    type V = FieldV;

    open spec fn view(&self) -> FieldV {
        FieldV { name: self.name@, ty: self.ty@, annotations: anns_view(self.annotations@) }
    }
}

pub open spec fn fields_view(s: Seq<Field>) -> Seq<FieldV> {
    s.map_values(|f: Field| f@)
}

/// The description of one record, supplied pre-parsed by the caller.
#[derive(Clone, PartialEq, Eq, Debug)]
pub struct RecordDescription {
    pub name: String,
    pub generics: Vec<GenericParam>,
    /// The record's where-clause text, verbatim; empty when there is none.
    pub where_clause: String,
    pub fields: Vec<Field>,
    /// Record-level annotations; the configuration directive lives here.
    pub annotations: Vec<Annotation>,
}

#[verifier::ext_equal]
pub struct RecordV {
    pub name: Seq<char>,
    pub generics: Seq<GenericParamV>,
    pub where_clause: Seq<char>,
    pub fields: Seq<FieldV>,
    pub annotations: Seq<AnnotationV>,
}

impl View for RecordDescription {
    type V = RecordV;

    open spec fn view(&self) -> RecordV {
        RecordV {
            name: self.name@,
            generics: params_view(self.generics@),
            where_clause: self.where_clause@,
            fields: fields_view(self.fields@),
            annotations: anns_view(self.annotations@),
        }
    }
}

// ---------------------------------------------------------------------------
// Generated output
// ---------------------------------------------------------------------------

/// One generated setter: the kept annotations in their original order, the
/// record-wide visibility and pattern, and the field's name and type.
#[derive(Clone, PartialEq, Eq, Debug)]
pub struct Setter {
    pub annotations: Vec<Annotation>,
    pub visibility: Visibility,
    pub name: String,
    pub ty: String,
    pub pattern: Pattern,
}

#[verifier::ext_equal]
pub struct SetterV {
    pub annotations: Seq<AnnotationV>,
    pub visibility: Visibility,
    pub name: Seq<char>,
    pub ty: Seq<char>,
    pub pattern: Pattern,
}

impl View for Setter {
    type V = SetterV;

    open spec fn view(&self) -> SetterV {
        SetterV {
            annotations: anns_view(self.annotations@),
            visibility: self.visibility,
            name: self.name@,
            ty: self.ty@,
            pattern: self.pattern,
        }
    }
}

pub open spec fn setters_view(s: Seq<Setter>) -> Seq<SetterV> {
    s.map_values(|x: Setter| x@)
}

/// The output of one generation pass: a method collection scoped to the
/// record's name and generics, holding the setters in field order.
#[derive(Clone, PartialEq, Eq, Debug)]
pub struct GeneratedUnit {
    pub record_name: String,
    pub generics: Vec<GenericParam>,
    pub where_clause: String,
    pub setters: Vec<Setter>,
}

#[verifier::ext_equal]
pub struct UnitV {
    pub record_name: Seq<char>,
    pub generics: Seq<GenericParamV>,
    pub where_clause: Seq<char>,
    pub setters: Seq<SetterV>,
}

impl View for GeneratedUnit {
    type V = UnitV;

    open spec fn view(&self) -> UnitV {
        UnitV {
            record_name: self.record_name@,
            generics: params_view(self.generics@),
            where_clause: self.where_clause@,
            setters: setters_view(self.setters@),
        }
    }
}

// ---------------------------------------------------------------------------
// Errors
// ---------------------------------------------------------------------------

/// A fault inside the configuration directive's key/value list. An absent key
/// defaults; an explicit but invalid one must not.
#[derive(Clone, PartialEq, Eq, Debug)]
pub enum ConfigError {
    /// An entry whose key is not part of the mini-language (for an entry with
    /// no `=` separator, the whole entry stands as the key).
    UnrecognizedKey(String),
    /// A recognized key with a value outside its enumerated choices.
    InvalidValue(String, String),
}

#[verifier::ext_equal]
pub enum ConfigErrorV {
    UnrecognizedKey(Seq<char>),
    InvalidValue(Seq<char>, Seq<char>),
}

impl View for ConfigError {
    type V = ConfigErrorV;

    open spec fn view(&self) -> ConfigErrorV {
        match self {
            ConfigError::UnrecognizedKey(k) => ConfigErrorV::UnrecognizedKey(k@),
            ConfigError::InvalidValue(k, v) => ConfigErrorV::InvalidValue(k@, v@),
        }
    }
}

/// Why one record's generation failed; the record's name is always carried so
/// a diagnostic can identify it.
#[derive(Clone, PartialEq, Eq, Debug)]
pub enum GenError {
    /// The record has no named fields: setter generation is rejected outright.
    NoNamedFields(String),
    /// The record's configuration directive is malformed.
    Config(String, ConfigError),
}

#[verifier::ext_equal]
pub enum GenErrorV {
    NoNamedFields(Seq<char>),
    Config(Seq<char>, ConfigErrorV),
}

impl View for GenError {
    type V = GenErrorV;

    open spec fn view(&self) -> GenErrorV {
        match self {
            GenError::NoNamedFields(n) => GenErrorV::NoNamedFields(n@),
            GenError::Config(n, e) => GenErrorV::Config(n@, e@),
        }
    }
}

/// The diagnostic text of a generation failure; it always names the record.
pub open spec fn message_text(e: GenErrorV) -> Seq<char> {
    match e {
        GenErrorV::NoNamedFields(n) => "setter generation failed for record `"@ + n
            + "`: the record has no named fields"@,
        GenErrorV::Config(n, c) => match c {
            ConfigErrorV::UnrecognizedKey(k) => "setter generation failed for record `"@ + n
                + "`: unrecognized configuration key `"@ + k + "`"@,
            ConfigErrorV::InvalidValue(k, v) => "setter generation failed for record `"@ + n
                + "`: invalid value `"@ + v + "` for configuration key `"@ + k + "`"@,
        },
    }
}

impl GenError {
    /// A human-readable description of the failure, naming the record.
    pub fn message(&self) -> (r: String)
        ensures
            r@ == message_text(self@),
            r@.len() > 0,
    {
        let mut out: String = "setter generation failed for record `".to_owned();
        proof {
            reveal_strlit("setter generation failed for record `");
        }
        match self {
            GenError::NoNamedFields(n) => {
                out.append(n.as_str());
                out.append("`: the record has no named fields");
            },
            GenError::Config(n, e) => {
                out.append(n.as_str());
                match e {
                    ConfigError::UnrecognizedKey(k) => {
                        out.append("`: unrecognized configuration key `");
                        out.append(k.as_str());
                        out.append("`");
                    },
                    ConfigError::InvalidValue(k, v) => {
                        out.append("`: invalid value `");
                        out.append(v.as_str());
                        out.append("` for configuration key `");
                        out.append(k.as_str());
                        out.append("`");
                    },
                }
            },
        }
        out
    }
}

// ---------------------------------------------------------------------------
// Verified deep clones (the contracts relate the views, which derived clones
// would not give)
// ---------------------------------------------------------------------------

pub fn clone_strings(v: &Vec<String>) -> (r: Vec<String>)
    ensures
        strs_view(r@) == strs_view(v@),
{
    let mut r: Vec<String> = Vec::new();
    let mut i: usize = 0;
    while i < v.len()
        invariant
            i <= v.len(),
            strs_view(r@) == strs_view(v@.take(i as int)),
        decreases v.len() - i,
    {
        let s = v[i].clone();
        r.push(s);
        proof {
            assert(strs_view(v@.take(i + 1 as int)) =~= strs_view(v@.take(i as int)).push(v@[i as int]@));
        }
        i = i + 1;
    }
    proof {
        assert(v@.take(v@.len() as int) =~= v@);
    }
    r
}

pub fn clone_annotation(a: &Annotation) -> (r: Annotation)
    ensures
        r@ == a@,
{
    match a {
        Annotation::Doc(s) => Annotation::Doc(s.clone()),
        Annotation::Cfg(s) => Annotation::Cfg(s.clone()),
        Annotation::Allow(s) => Annotation::Allow(s.clone()),
        Annotation::Directive(items) => Annotation::Directive(clone_strings(items)),
        Annotation::Disable => Annotation::Disable,
        Annotation::Other(s) => Annotation::Other(s.clone()),
    }
}

pub fn clone_annotations(v: &Vec<Annotation>) -> (r: Vec<Annotation>)
    ensures
        anns_view(r@) == anns_view(v@),
{
    let mut r: Vec<Annotation> = Vec::new();
    let mut i: usize = 0;
    while i < v.len()
        invariant
            i <= v.len(),
            anns_view(r@) == anns_view(v@.take(i as int)),
        decreases v.len() - i,
    {
        let a = clone_annotation(&v[i]);
        r.push(a);
        proof {
            assert(anns_view(v@.take(i + 1 as int)) =~= anns_view(v@.take(i as int)).push(v@[i as int]@));
        }
        i = i + 1;
    }
    proof {
        assert(v@.take(v@.len() as int) =~= v@);
    }
    r
}

pub fn clone_generics(v: &Vec<GenericParam>) -> (r: Vec<GenericParam>)
    ensures
        params_view(r@) == params_view(v@),
{
    let mut r: Vec<GenericParam> = Vec::new();
    let mut i: usize = 0;
    while i < v.len()
        invariant
            i <= v.len(),
            params_view(r@) == params_view(v@.take(i as int)),
        decreases v.len() - i,
    {
        let p = GenericParam { name: v[i].name.clone(), bounds: v[i].bounds.clone() };
        assert(p@ =~= v@[i as int]@);
        r.push(p);
        proof {
            assert(params_view(v@.take(i + 1 as int)) =~= params_view(v@.take(i as int)).push(v@[i as int]@));
        }
        i = i + 1;
    }
    proof {
        assert(v@.take(v@.len() as int) =~= v@);
    }
    r
}

} // verus!
