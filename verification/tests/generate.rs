use setter_gen::Annotation;
use setter_gen::ConfigError;
use setter_gen::Field;
use setter_gen::GenError;
use setter_gen::GenericParam;
use setter_gen::Pattern;
use setter_gen::RecordDescription;
use setter_gen::Visibility;
use setter_gen::generate;
use setter_gen::keep;
use setter_gen::resolve;

fn field(name: &str, ty: &str, annotations: Vec<Annotation>) -> Field {
    Field { name: name.to_string(), ty: ty.to_string(), annotations }
}

fn record(name: &str, annotations: Vec<Annotation>, fields: Vec<Field>) -> RecordDescription {
    RecordDescription {
        name: name.to_string(),
        generics: Vec::new(),
        where_clause: String::new(),
        fields,
        annotations,
    }
}

fn directive(entries: &[&str]) -> Annotation {
    Annotation::Directive(entries.iter().map(|e| e.to_string()).collect())
}

#[test]
fn default_pattern_and_visibility() {
    let r = record(
        "Lorem",
        vec![Annotation::Doc("a record".to_string())],
        vec![field("ipsum", "String", vec![]), field("dolor", "i32", vec![])],
    );
    let unit = generate(&r).unwrap();
    assert_eq!(unit.setters.len(), 2);
    for s in &unit.setters {
        assert_eq!(s.pattern, Pattern::Mutable);
        assert_eq!(s.visibility, Visibility::Public);
    }
}

#[test]
fn pattern_selection_owned() {
    let r = record("Lorem", vec![directive(&["pattern=owned"])], vec![field("ipsum", "String", vec![])]);
    let unit = generate(&r).unwrap();
    assert_eq!(unit.setters[0].pattern, Pattern::Owned);
}

#[test]
fn pattern_selection_mutable_explicit() {
    let r = record("Lorem", vec![directive(&["pattern=mutable"])], vec![field("ipsum", "String", vec![])]);
    let unit = generate(&r).unwrap();
    assert_eq!(unit.setters[0].pattern, Pattern::Mutable);
}

#[test]
fn pattern_selection_immutable() {
    let r = record("Lorem", vec![directive(&["pattern=immutable"])], vec![field("ipsum", "String", vec![])]);
    let unit = generate(&r).unwrap();
    assert_eq!(unit.setters[0].pattern, Pattern::Immutable);
}

#[test]
fn disable_yields_empty_unit() {
    let r = record(
        "Lorem",
        vec![Annotation::Disable],
        vec![field("ipsum", "String", vec![])],
    );
    let unit = generate(&r).unwrap();
    assert_eq!(unit.setters.len(), 0);
    assert_eq!(unit.record_name, "Lorem");
}

#[test]
fn disable_wins_over_directive() {
    let r = record(
        "Lorem",
        vec![directive(&["pattern=owned"]), Annotation::Disable],
        vec![field("ipsum", "String", vec![])],
    );
    let unit = generate(&r).unwrap();
    assert_eq!(unit.setters.len(), 0);
}

#[test]
fn field_order_preserved() {
    let r = record(
        "Ordered",
        vec![],
        vec![
            field("alpha", "u8", vec![]),
            field("beta", "u16", vec![]),
            field("gamma", "u32", vec![]),
            field("delta", "u64", vec![]),
        ],
    );
    let unit = generate(&r).unwrap();
    let names: Vec<&str> = unit.setters.iter().map(|s| s.name.as_str()).collect();
    assert_eq!(names, vec!["alpha", "beta", "gamma", "delta"]);
    let tys: Vec<&str> = unit.setters.iter().map(|s| s.ty.as_str()).collect();
    assert_eq!(tys, vec!["u8", "u16", "u32", "u64"]);
}

#[test]
fn annotation_whitelist_round_trip() {
    let anns = vec![
        Annotation::Doc("the amount of work".to_string()),
        Annotation::Cfg("target_os = \"macos\"".to_string()),
        Annotation::Allow("non_snake_case".to_string()),
        Annotation::Other("serde(skip)".to_string()),
    ];
    let r = record("Lorem", vec![], vec![field("dolor", "i32", anns)]);
    let unit = generate(&r).unwrap();
    let kept = &unit.setters[0].annotations;
    assert_eq!(
        kept,
        &vec![
            Annotation::Doc("the amount of work".to_string()),
            Annotation::Cfg("target_os = \"macos\"".to_string()),
            Annotation::Allow("non_snake_case".to_string()),
        ]
    );
}

#[test]
fn kept_annotations_stay_in_relative_order_across_dropped_ones() {
    let anns = vec![
        Annotation::Other("first dropped".to_string()),
        Annotation::Doc("kept first".to_string()),
        Annotation::Other("also dropped".to_string()),
        Annotation::Cfg("unix".to_string()),
    ];
    let r = record("Lorem", vec![], vec![field("dolor", "i32", anns)]);
    let unit = generate(&r).unwrap();
    assert_eq!(
        unit.setters[0].annotations,
        vec![
            Annotation::Doc("kept first".to_string()),
            Annotation::Cfg("unix".to_string()),
        ]
    );
}

#[test]
fn directive_at_field_level_is_dropped() {
    let anns = vec![directive(&["pattern=owned"]), Annotation::Disable];
    let r = record("Lorem", vec![], vec![field("dolor", "i32", anns)]);
    let unit = generate(&r).unwrap();
    assert_eq!(unit.setters[0].annotations.len(), 0);
    // A directive on a field configures nothing either.
    assert_eq!(unit.setters[0].pattern, Pattern::Mutable);
}

#[test]
fn duplicate_key_last_wins() {
    let r = record(
        "Lorem",
        vec![directive(&["pattern=owned", "pattern=immutable"])],
        vec![field("ipsum", "String", vec![])],
    );
    let unit = generate(&r).unwrap();
    assert_eq!(unit.setters[0].pattern, Pattern::Immutable);
}

#[test]
fn later_directive_wins_across_directives() {
    let r = record(
        "Lorem",
        vec![directive(&["pattern=owned"]), directive(&["pattern=mutable"])],
        vec![field("ipsum", "String", vec![])],
    );
    let unit = generate(&r).unwrap();
    assert_eq!(unit.setters[0].pattern, Pattern::Mutable);
}

#[test]
fn independent_keys_both_apply() {
    let r = record(
        "Lorem",
        vec![directive(&["pattern=owned", "visibility=private"])],
        vec![field("ipsum", "String", vec![])],
    );
    let unit = generate(&r).unwrap();
    assert_eq!(unit.setters[0].pattern, Pattern::Owned);
    assert_eq!(unit.setters[0].visibility, Visibility::Private);
}

#[test]
fn empty_directive_keeps_defaults() {
    let r = record("Lorem", vec![directive(&[])], vec![field("ipsum", "String", vec![])]);
    let unit = generate(&r).unwrap();
    assert_eq!(unit.setters.len(), 1);
    assert_eq!(unit.setters[0].pattern, Pattern::Mutable);
    assert_eq!(unit.setters[0].visibility, Visibility::Public);
}

#[test]
fn fieldless_record_rejected() {
    let r = record("Unit", vec![], vec![]);
    let err = generate(&r).unwrap_err();
    assert_eq!(err, GenError::NoNamedFields("Unit".to_string()));
    assert_eq!(
        err.message(),
        "setter generation failed for record `Unit`: the record has no named fields"
    );
}

#[test]
fn fieldless_record_disabled_is_not_an_error() {
    let r = record("Unit", vec![Annotation::Disable], vec![]);
    let unit = generate(&r).unwrap();
    assert_eq!(unit.setters.len(), 0);
}

#[test]
fn unrecognized_key_is_an_error() {
    let r = record(
        "Lorem",
        vec![directive(&["frobnicate=yes"])],
        vec![field("ipsum", "String", vec![])],
    );
    let err = generate(&r).unwrap_err();
    assert_eq!(
        err,
        GenError::Config(
            "Lorem".to_string(),
            ConfigError::UnrecognizedKey("frobnicate".to_string())
        )
    );
    assert_eq!(
        err.message(),
        "setter generation failed for record `Lorem`: unrecognized configuration key `frobnicate`"
    );
}

#[test]
fn entry_without_separator_is_an_error() {
    let r = record("Lorem", vec![directive(&["owned"])], vec![field("ipsum", "String", vec![])]);
    let err = generate(&r).unwrap_err();
    assert_eq!(
        err,
        GenError::Config("Lorem".to_string(), ConfigError::UnrecognizedKey("owned".to_string()))
    );
}

#[test]
fn invalid_value_is_an_error() {
    let r = record(
        "Lorem",
        vec![directive(&["pattern=bogus"])],
        vec![field("ipsum", "String", vec![])],
    );
    let err = generate(&r).unwrap_err();
    assert_eq!(
        err,
        GenError::Config(
            "Lorem".to_string(),
            ConfigError::InvalidValue("pattern".to_string(), "bogus".to_string())
        )
    );
    assert_eq!(
        err.message(),
        "setter generation failed for record `Lorem`: invalid value `bogus` for configuration key `pattern`"
    );
}

#[test]
fn malformed_directive_fails_even_when_disabled() {
    let r = record(
        "Lorem",
        vec![Annotation::Disable, directive(&["pattern=bogus"])],
        vec![field("ipsum", "String", vec![])],
    );
    assert!(generate(&r).is_err());
}

#[test]
fn resolve_defaults_when_nothing_is_configured() {
    let opts = resolve(&vec![Annotation::Doc("plain".to_string())]).unwrap();
    assert!(opts.setters_enabled);
    assert_eq!(opts.pattern, Pattern::Mutable);
    assert_eq!(opts.visibility, Visibility::Public);
}

#[test]
fn resolve_visibility_values() {
    let public = resolve(&vec![directive(&["visibility=public"])]).unwrap();
    assert_eq!(public.visibility, Visibility::Public);
    let private = resolve(&vec![directive(&["visibility=private"])]).unwrap();
    assert_eq!(private.visibility, Visibility::Private);
}

#[test]
fn resolve_rejects_empty_value() {
    let err = resolve(&vec![directive(&["pattern="])]).unwrap_err();
    assert_eq!(err, ConfigError::InvalidValue("pattern".to_string(), String::new()));
}

#[test]
fn keep_is_a_whitelist() {
    assert!(keep(&Annotation::Doc("d".to_string())));
    assert!(keep(&Annotation::Cfg("c".to_string())));
    assert!(keep(&Annotation::Allow("a".to_string())));
    assert!(!keep(&directive(&["pattern=owned"])));
    assert!(!keep(&Annotation::Disable));
    assert!(!keep(&Annotation::Other("anything else".to_string())));
}

#[test]
fn generics_are_threaded_verbatim() {
    let r = RecordDescription {
        name: "GenLorem".to_string(),
        generics: vec![GenericParam { name: "T".to_string(), bounds: "Clone".to_string() }],
        where_clause: String::new(),
        fields: vec![field("dolor", "T", vec![])],
        annotations: vec![],
    };
    let unit = generate(&r).unwrap();
    assert_eq!(unit.generics.len(), 1);
    assert_eq!(unit.generics[0].name, "T");
    assert_eq!(unit.generics[0].bounds, "Clone");
    assert_eq!(unit.setters[0].ty, "T");
}
