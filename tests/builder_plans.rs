use typed_builder_core::config::{AttrArg, ConfigError, FieldSection, Section};
use typed_builder_core::plan::{check_shape, DeriveError, RecordShape};
use typed_builder_core::schema::{
    strip_raw_ident_prefix, BuildMethodSettings, BuilderAttr, CommonDeclarationSettings, FieldInfo,
    IntoSetting, Mutator, SchemaError, StructInfo, TypeBuilderAttr,
};
use typed_builder_core::state::{advance_state, pattern_accepts};
use typed_builder_core::typestate::{ArgShape, Binding, Marker};

fn settings(mutators: Vec<Mutator>) -> TypeBuilderAttr {
    TypeBuilderAttr::new(
        false,
        CommonDeclarationSettings::default(),
        CommonDeclarationSettings::default(),
        BuildMethodSettings::default(),
        "::typed_builder".to_string(),
        mutators,
    )
}

fn field(ordinal: usize, name: &str, ty_is_option: bool, attr: BuilderAttr) -> FieldInfo {
    FieldInfo::new(ordinal, name.to_string(), ty_is_option, attr).unwrap()
}

/// `{id: integer (required), name: string (default "anon"), tags: optional list (strip-option)}`
fn record() -> StructInfo {
    let id = BuilderAttr::new();
    let mut name = BuilderAttr::new();
    name.has_default = true;
    let mut tags = BuilderAttr::new();
    tags.has_default = true;
    tags.strip_option = true;
    StructInfo::new(
        "pub".to_string(),
        "Record".to_string(),
        vec![field(0, "id", false, id), field(1, "name", false, name), field(2, "tags", true, tags)],
        settings(vec![]),
    )
}

fn apply_setter(info: &StructInfo, k: usize, state: &Vec<bool>) -> Vec<bool> {
    let plan = info.field_impl(k).unwrap();
    assert!(pattern_accepts(&plan.input, state), "setter of field {} refused", k);
    advance_state(&plan.output, state)
}

fn start(info: &StructInfo) -> Vec<bool> {
    let creation = info.builder_creation_impl();
    advance_state(&creation.initial, &vec![false; info.fields.len()])
}

#[test]
fn record_id_only_builds_with_defaults() {
    let info = record();
    let s = apply_setter(&info, 0, &start(&info));
    assert_eq!(s, vec![true, false, false]);
    let build = info.build_method_impl();
    assert!(pattern_accepts(&build.pattern, &s));
    assert_eq!(build.bindings, vec![Binding::Unwrap, Binding::ResolveDefault, Binding::ResolveDefault]);
    assert_eq!(build.method_name, "build");
}

#[test]
fn record_all_setters_build_from_set_values() {
    let info = record();
    let mut s = start(&info);
    for k in [0usize, 1, 2] {
        s = apply_setter(&info, k, &s);
    }
    assert_eq!(s, vec![true, true, true]);
    let build = info.build_method_impl();
    assert!(pattern_accepts(&build.pattern, &s));
    let tags = info.field_impl(2).unwrap();
    assert_eq!(tags.arg, ArgShape::StripOption { into: false });
    let name = info.field_impl(1).unwrap();
    assert_eq!(name.arg, ArgShape::Value { into: false });
}

#[test]
fn record_missing_id_is_reported() {
    let info = record();
    let s = apply_setter(&info, 1, &start(&info));
    let build = info.build_method_impl();
    assert!(!pattern_accepts(&build.pattern, &s));
    let guard = info.required_field_impl(0);
    assert!(pattern_accepts(&guard.pattern, &s));
    assert_eq!(guard.message, "Missing required field id");
    assert_eq!(guard.error_type, "RecordBuilder_Error_Missing_required_field_id");
}

#[test]
fn setters_in_any_order_reach_build() {
    let info = record();
    for order in [[0usize, 1, 2], [2, 1, 0], [1, 2, 0], [2, 0, 1]] {
        let mut s = start(&info);
        for k in order {
            s = apply_setter(&info, k, &s);
        }
        let build = info.build_method_impl();
        assert!(pattern_accepts(&build.pattern, &s));
        assert!(!pattern_accepts(&info.required_field_impl(0).pattern, &s));
    }
}

#[test]
fn omitted_default_field_still_builds() {
    let info = record();
    let build = info.build_method_impl();
    let s = apply_setter(&info, 0, &start(&info));
    let t = apply_setter(&info, 1, &s);
    assert!(pattern_accepts(&build.pattern, &s));
    assert!(pattern_accepts(&build.pattern, &t));
    assert_eq!(build.pattern[1], Some(Marker::Generic));
}

#[test]
fn repeated_set_is_flagged() {
    let info = record();
    let plan = info.field_impl(0).unwrap();
    let s = apply_setter(&info, 0, &start(&info));
    assert!(!pattern_accepts(&plan.input, &s));
    assert!(pattern_accepts(&plan.output, &s));
    assert_eq!(advance_state(&plan.output, &s), s);
    assert_eq!(plan.repeated_message, "Repeated field id");
    assert_eq!(plan.repeated_error_type, "RecordBuilder_Error_Repeated_field_id");
}

fn two_required() -> StructInfo {
    let mutator = Mutator { name: "swap".to_string(), required_fields: vec!["a".to_string(), "b".to_string()] };
    let mut c = BuilderAttr::new();
    c.has_default = true;
    StructInfo::new(
        String::new(),
        "Pair".to_string(),
        vec![
            field(0, "a", false, BuilderAttr::new()),
            field(1, "b", false, BuilderAttr::new()),
            field(2, "c", false, c),
        ],
        settings(vec![mutator]),
    )
}

#[test]
fn first_missing_required_field_is_reported() {
    let info = two_required();
    let s = start(&info);
    let guard_a = info.required_field_impl(0);
    let guard_b = info.required_field_impl(1);
    assert!(pattern_accepts(&guard_a.pattern, &s));
    assert!(!pattern_accepts(&guard_b.pattern, &s));
    let s = apply_setter(&info, 0, &s);
    assert!(!pattern_accepts(&guard_a.pattern, &s));
    assert!(pattern_accepts(&guard_b.pattern, &s));
    assert_eq!(guard_b.pattern, vec![Some(Marker::Filled), Some(Marker::Unset), Some(Marker::Generic)]);
}

#[test]
fn mutator_needs_its_fields_and_keeps_state() {
    let info = two_required();
    let plan = info.mutator_impl(&info.builder_attr.mutators[0]);
    assert_eq!(plan.pattern, vec![Some(Marker::Filled), Some(Marker::Filled), Some(Marker::Generic)]);
    let s = apply_setter(&info, 0, &start(&info));
    assert!(!pattern_accepts(&plan.pattern, &s));
    let s = apply_setter(&info, 1, &s);
    assert!(pattern_accepts(&plan.pattern, &s));
    assert_eq!(advance_state(&plan.pattern, &s), s);
}

#[test]
fn skipped_and_mutator_only_fields() {
    let mut skipped = BuilderAttr::new();
    skipped.skip = true;
    skipped.has_default = true;
    let mut counter = BuilderAttr::new();
    counter.via_mutators = true;
    counter.via_mutators_init_is_literal = true;
    let info = StructInfo::new(
        String::new(),
        "r#Thing".to_string(),
        vec![field(0, "x", false, BuilderAttr::new()), field(1, "hidden", false, skipped), field(2, "count", false, counter)],
        settings(vec![]),
    );
    assert_eq!(info.builder_name, "ThingBuilder");
    assert_eq!(info.core, "ThingBuilder_core");
    assert_eq!(info.included_fields(), vec![0, 2]);
    assert_eq!(info.setter_fields(), vec![0]);
    let creation = info.builder_creation_impl();
    assert_eq!(creation.initial, vec![Some(Marker::Unset), None, Some(Marker::Filled)]);
    assert!(creation.is_const);
    assert_eq!(creation.method_name, "builder");
    let build = info.build_method_impl();
    assert_eq!(build.bindings, vec![Binding::Unwrap, Binding::EvaluateDefault, Binding::Unwrap]);
    assert_eq!(build.pattern, vec![Some(Marker::Filled), None, Some(Marker::Filled)]);
}

#[test]
fn non_literal_initializer_is_not_const() {
    let mut counter = BuilderAttr::new();
    counter.via_mutators = true;
    let info = StructInfo::new(String::new(), "T".to_string(), vec![field(0, "count", false, counter)], settings(vec![]));
    assert!(!info.builder_creation_impl().is_const);
}

#[test]
fn argument_shape_precedence() {
    let mut all = BuilderAttr::new();
    all.strip_bool = true;
    all.transform = true;
    all.strip_option = true;
    all.auto_into = true;
    let mut transform = BuilderAttr::new();
    transform.transform = true;
    transform.strip_option = true;
    let mut both = BuilderAttr::new();
    both.strip_option = true;
    both.auto_into = true;
    let mut into = BuilderAttr::new();
    into.auto_into = true;
    into.setter_name = Some("with_e".to_string());
    let info = StructInfo::new(
        String::new(),
        "S".to_string(),
        vec![
            field(0, "a", true, all),
            field(1, "b", false, transform),
            field(2, "c", true, both),
            field(3, "d", false, BuilderAttr::new()),
            field(4, "e", false, into),
        ],
        settings(vec![]),
    );
    assert_eq!(info.field_impl(0).unwrap().arg, ArgShape::Flag);
    assert_eq!(info.field_impl(1).unwrap().arg, ArgShape::Transform);
    assert_eq!(info.field_impl(2).unwrap().arg, ArgShape::StripOption { into: true });
    assert_eq!(info.field_impl(3).unwrap().arg, ArgShape::Value { into: false });
    let e = info.field_impl(4).unwrap();
    assert_eq!(e.arg, ArgShape::Value { into: true });
    assert_eq!(e.method_name, "with_e");
}

#[test]
fn strip_option_on_plain_type_is_refused() {
    let mut attr = BuilderAttr::new();
    attr.strip_option = true;
    let info = StructInfo::new(String::new(), "S".to_string(), vec![field(0, "a", false, attr)], settings(vec![]));
    assert_eq!(info.field_impl(0).err(), Some(SchemaError::StripOptionOnNonOption { field: 0 }));
    let err = info.impl_my_derive().err().unwrap();
    assert_eq!(err, DeriveError::Schema(SchemaError::StripOptionOnNonOption { field: 0 }));
    assert_eq!(err.message(), "can't `strip_option` - field is not `Option<...>`");
}

#[test]
fn skip_without_default_is_refused() {
    let mut attr = BuilderAttr::new();
    attr.skip = true;
    let r = FieldInfo::new(3, "a".to_string(), false, attr);
    assert_eq!(r.err(), Some(SchemaError::SkipWithoutDefault { field: 3 }));
}

#[test]
fn only_named_structs_are_supported() {
    assert!(check_shape(RecordShape::NamedStruct).is_ok());
    for (shape, text) in [
        (RecordShape::TupleStruct, "TypedBuilder is not supported for tuple structs"),
        (RecordShape::UnitStruct, "TypedBuilder is not supported for unit structs"),
        (RecordShape::Enum, "TypedBuilder is not supported for enums"),
        (RecordShape::Union, "TypedBuilder is not supported for unions"),
    ] {
        let err = check_shape(shape).err().unwrap();
        assert_eq!(err, DeriveError::Unsupported(shape));
        assert_eq!(err.message(), text);
    }
}

#[test]
fn derive_collects_every_plan() {
    let info = two_required();
    let plan = info.impl_my_derive().ok().unwrap();
    assert_eq!(plan.setters.iter().map(|p| p.field).collect::<Vec<_>>(), vec![0, 1, 2]);
    assert_eq!(plan.guards.iter().map(|p| p.field).collect::<Vec<_>>(), vec![0, 1]);
    assert_eq!(plan.mutators.len(), 1);
    assert_eq!(plan.creation.initial, vec![Some(Marker::Unset); 3]);
}

#[test]
fn raw_prefix_is_stripped() {
    assert_eq!(strip_raw_ident_prefix("r#type"), "type");
    assert_eq!(strip_raw_ident_prefix("rtype"), "rtype");
    assert_eq!(strip_raw_ident_prefix("r"), "r");
    let f = field(0, "r#type", false, BuilderAttr::new());
    assert_eq!(f.generic_ident(), "__type");
}

#[test]
fn generated_docs_and_visibility() {
    let info = two_required();
    assert_eq!(info.setters_doc(), "`.a(...)`, `.b(...)`, `.c(...)`(optional)");
    assert_eq!(
        info.builder_method_doc(),
        "Create a builder for building `Pair`.\nOn the builder, call `.a(...)`, `.b(...)`, `.c(...)`(optional) to set the values of the fields.\nFinally, call `.build()` to create the instance of `Pair`."
    );
    assert_eq!(info.builder_type_doc(), None);
    assert_eq!(info.build_method_doc(), None);
    assert_eq!(info.build_method_visibility(), "pub");
    assert_eq!(info.builder_type_visibility(), "");

    let mut builder_type = CommonDeclarationSettings::default();
    builder_type.vis = Some("pub(crate)".to_string());
    let attr = TypeBuilderAttr::new(
        true,
        CommonDeclarationSettings::default(),
        builder_type,
        BuildMethodSettings::default(),
        "::typed_builder".to_string(),
        vec![],
    );
    let info = StructInfo::new("pub".to_string(), "P".to_string(), vec![], attr);
    assert_eq!(info.builder_method_visibility(), "pub(crate)");
    assert_eq!(info.builder_type_doc().unwrap(), "Builder for [`P`] instances.\n\nSee [`P::builder()`] for more info.");
    assert_eq!(info.build_method_doc().unwrap(), "Finalise the builder and create its [`P`] instance");
}

#[test]
fn default_record_settings() {
    let attr = TypeBuilderAttr::default();
    assert!(!attr.doc);
    assert_eq!(attr.crate_module_path, "::typed_builder");
    assert!(attr.mutators.is_empty());
    assert!(matches!(attr.build_method.into, IntoSetting::NoConversion));
}

#[test]
fn configured_doc_turns_docs_on() {
    let mut build_method = BuildMethodSettings::default();
    build_method.common.doc = Some("\"Build it\"".to_string());
    let attr = TypeBuilderAttr::new(
        false,
        CommonDeclarationSettings::default(),
        CommonDeclarationSettings::default(),
        build_method,
        "::typed_builder".to_string(),
        vec![],
    );
    assert!(attr.doc);
}

#[test]
fn record_level_keys() {
    let mut attr = settings(vec![]);
    assert!(matches!(attr.apply_meta("doc", AttrArg::Flag), Ok(None)));
    assert!(attr.doc);
    assert!(matches!(attr.apply_meta("crate_module_path", AttrArg::KeyValue("::my".to_string())), Ok(None)));
    assert_eq!(attr.crate_module_path, "::my");
    assert!(matches!(attr.apply_meta("build_method", AttrArg::Sub), Ok(Some(Section::BuildMethod))));
    assert!(matches!(attr.apply_meta("field_defaults", AttrArg::Sub), Ok(Some(Section::FieldDefaults))));
    assert!(matches!(attr.apply_meta("mutators", AttrArg::Sub), Ok(Some(Section::Mutators))));
    assert!(matches!(attr.apply_meta("builder_type", AttrArg::Flag), Err(ConfigError::IncorrectType(_))));
    assert!(matches!(attr.apply_meta("build_method_doc", AttrArg::KeyValue("x".to_string())), Err(ConfigError::Deprecated(_))));
    match attr.apply_meta("colour", AttrArg::Flag) {
        Err(e @ ConfigError::UnknownParameter(_)) => assert_eq!(e.message(), "Unknown parameter `colour`"),
        _ => panic!("unknown key accepted"),
    }
    match attr.apply_meta("doc", AttrArg::Sub) {
        Err(e @ ConfigError::IncorrectType(_)) => assert_eq!(e.message(), "Wrong form of argument for `doc`"),
        _ => panic!("wrong form accepted"),
    }
}

#[test]
fn declaration_keys() {
    let mut common = CommonDeclarationSettings::default();
    assert!(common.apply_meta("name", AttrArg::KeyValue("make".to_string())).is_ok());
    assert_eq!(common.get_name(), Some("make".to_string()));
    assert!(matches!(common.apply_meta("vis", AttrArg::Flag), Err(ConfigError::IncorrectType(_))));
    assert!(common.vis.is_none());
    let mut build = BuildMethodSettings::default();
    assert!(build.apply_meta("into", AttrArg::Flag).is_ok());
    assert!(matches!(build.into, IntoSetting::GenericConversion));
    assert!(build.apply_meta("into", AttrArg::KeyValue("Other".to_string())).is_ok());
    assert!(matches!(&build.into, IntoSetting::TypeConversionToSpecificType(t) if t == "Other"));
    assert!(build.apply_meta("doc", AttrArg::KeyValue("\"d\"".to_string())).is_ok());
    assert_eq!(build.common.get_doc_or("generated".to_string()), "\"d\"");
}

#[test]
fn field_level_keys() {
    let mut attr = BuilderAttr::new();
    assert!(matches!(attr.apply_meta("default", AttrArg::Flag), Ok(None)));
    assert!(attr.has_default);
    assert!(matches!(attr.apply_meta("setter", AttrArg::Sub), Ok(Some(FieldSection::Setter))));
    assert!(matches!(attr.apply_meta("via_mutators", AttrArg::Sub), Ok(Some(FieldSection::ViaMutators))));
    assert!(attr.via_mutators);
    assert!(!attr.via_mutators_init_is_literal);
    assert!(matches!(attr.apply_meta("mutable_during_default_resolution", AttrArg::Flag), Ok(None)));
    assert!(attr.mutable_during_default_resolution);
    assert!(matches!(attr.apply_meta("default_code", AttrArg::Flag), Err(ConfigError::IncorrectType(_))));
    match attr.apply_meta("defualt", AttrArg::Flag) {
        Err(ConfigError::UnknownParameter(k)) => assert_eq!(k, "defualt"),
        _ => panic!("unknown key accepted"),
    }
}

#[test]
fn setter_keys() {
    let mut attr = BuilderAttr::new();
    assert!(attr.apply_setter_meta("strip_option", AttrArg::Flag).is_ok());
    assert!(attr.apply_setter_meta("into", AttrArg::Flag).is_ok());
    assert!(attr.apply_setter_meta("name", AttrArg::KeyValue("with_x".to_string())).is_ok());
    assert!(attr.strip_option && attr.auto_into);
    assert_eq!(attr.setter_name, Some("with_x".to_string()));
    assert!(matches!(attr.apply_setter_meta("skip", AttrArg::KeyValue("x".to_string())), Err(ConfigError::IncorrectType(_))));
    assert!(!attr.skip);
    assert!(matches!(attr.apply_setter_meta("prefix", AttrArg::Flag), Err(ConfigError::UnknownParameter(_))));
}
