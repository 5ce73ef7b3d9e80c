use setter_gen::Annotation;
use setter_gen::Field;
use setter_gen::GenError;
use setter_gen::GenericParam;
use setter_gen::Pattern;
use setter_gen::RecordDescription;
use setter_gen::Setter;
use setter_gen::Visibility;
use setter_gen::generate_source;
use setter_gen::render_setter;

fn field(name: &str, ty: &str, annotations: Vec<Annotation>) -> Field {
    Field { name: name.to_string(), ty: ty.to_string(), annotations }
}

fn plain_record(name: &str, annotations: Vec<Annotation>, fields: Vec<Field>) -> RecordDescription {
    RecordDescription {
        name: name.to_string(),
        generics: Vec::new(),
        where_clause: String::new(),
        fields,
        annotations,
    }
}

fn setter(name: &str, ty: &str, pattern: Pattern, visibility: Visibility) -> Setter {
    Setter {
        annotations: Vec::new(),
        visibility,
        name: name.to_string(),
        ty: ty.to_string(),
        pattern,
    }
}

#[test]
fn owned_setter_shape() {
    let text = render_setter(&setter("ipsum", "String", Pattern::Owned, Visibility::Public));
    assert_eq!(
        text,
        "pub fn ipsum<VALUE: Into<String>>(self, value: VALUE) -> Self {\n    \
         let mut new = self;\n    new.ipsum = value.into();\n    new\n}\n"
    );
}

#[test]
fn mutable_setter_shape() {
    let text = render_setter(&setter("ipsum", "String", Pattern::Mutable, Visibility::Public));
    assert_eq!(
        text,
        "pub fn ipsum<VALUE: Into<String>>(&mut self, value: VALUE) -> &mut Self {\n    \
         let mut new = self;\n    new.ipsum = value.into();\n    new\n}\n"
    );
}

#[test]
fn immutable_setter_shape() {
    let text = render_setter(&setter("ipsum", "String", Pattern::Immutable, Visibility::Public));
    assert_eq!(
        text,
        "pub fn ipsum<VALUE: Into<String>>(&self, value: VALUE) -> Self {\n    \
         let mut new = self.clone();\n    new.ipsum = value.into();\n    new\n}\n"
    );
}

#[test]
fn private_setter_has_no_visibility_prefix() {
    let text = render_setter(&setter("ipsum", "String", Pattern::Mutable, Visibility::Private));
    assert!(text.starts_with("fn ipsum<VALUE: Into<String>>(&mut self"));
}

#[test]
fn kept_annotations_precede_the_setter_in_order() {
    let s = Setter {
        annotations: vec![
            Annotation::Doc("the estimated amount of work".to_string()),
            Annotation::Cfg("target_os = \"macos\"".to_string()),
            Annotation::Allow("non_snake_case".to_string()),
        ],
        visibility: Visibility::Public,
        name: "dolor".to_string(),
        ty: "i32".to_string(),
        pattern: Pattern::Mutable,
    };
    let text = render_setter(&s);
    assert_eq!(
        text,
        "/// the estimated amount of work\n\
         #[cfg(target_os = \"macos\")]\n\
         #[allow(non_snake_case)]\n\
         pub fn dolor<VALUE: Into<i32>>(&mut self, value: VALUE) -> &mut Self {\n    \
         let mut new = self;\n    new.dolor = value.into();\n    new\n}\n"
    );
}

#[test]
fn whole_unit_exact_text() {
    let r = plain_record(
        "Lorem",
        vec![],
        vec![field("ipsum", "String", vec![]), field("dolor", "i32", vec![])],
    );
    let text = generate_source(&r).unwrap();
    assert_eq!(
        text,
        "#[allow(dead_code)]\nimpl Lorem {\n\
         pub fn ipsum<VALUE: Into<String>>(&mut self, value: VALUE) -> &mut Self {\n    \
         let mut new = self;\n    new.ipsum = value.into();\n    new\n}\n\
         pub fn dolor<VALUE: Into<i32>>(&mut self, value: VALUE) -> &mut Self {\n    \
         let mut new = self;\n    new.dolor = value.into();\n    new\n}\n\
         }\n"
    );
}

#[test]
fn disabled_record_renders_as_nothing() {
    let r = plain_record(
        "Lorem",
        vec![Annotation::Disable],
        vec![field("ipsum", "String", vec![])],
    );
    let text = generate_source(&r).unwrap();
    assert_eq!(text, "");
}

#[test]
fn generic_unit_is_scoped_by_the_same_parameter_and_bound() {
    let r = RecordDescription {
        name: "GenLorem".to_string(),
        generics: vec![GenericParam { name: "T".to_string(), bounds: "Clone".to_string() }],
        where_clause: String::new(),
        fields: vec![field("dolor", "T", vec![])],
        annotations: vec![],
    };
    let text = generate_source(&r).unwrap();
    assert!(text.starts_with("#[allow(dead_code)]\nimpl<T: Clone> GenLorem<T> {\n"));
    assert!(text.contains("pub fn dolor<VALUE: Into<T>>(&mut self, value: VALUE) -> &mut Self"));
}

#[test]
fn several_generic_parameters_and_where_clause() {
    let r = RecordDescription {
        name: "Pair".to_string(),
        generics: vec![
            GenericParam { name: "A".to_string(), bounds: String::new() },
            GenericParam { name: "B".to_string(), bounds: "Default + Clone".to_string() },
        ],
        where_clause: "where A: PartialEq".to_string(),
        fields: vec![field("first", "A", vec![]), field("second", "B", vec![])],
        annotations: vec![],
    };
    let text = generate_source(&r).unwrap();
    assert!(text.starts_with(
        "#[allow(dead_code)]\nimpl<A, B: Default + Clone> Pair<A, B> where A: PartialEq {\n"
    ));
}

#[test]
fn failing_record_produces_no_text() {
    let r = plain_record("Unit", vec![], vec![]);
    let err = generate_source(&r).unwrap_err();
    assert_eq!(err, GenError::NoNamedFields("Unit".to_string()));
}
