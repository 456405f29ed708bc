use vstd::prelude::*;
use vstd::string::*;

use crate::schema::{join, BuildMethodSettings, BuilderAttr, CommonDeclarationSettings, IntoSetting, TypeBuilderAttr};

verus! {

/// One argument of a `#[builder(...)]` attribute, after its key.
pub enum AttrArg {
    /// The key alone: `doc`.
    Flag,
    /// `key = value`, the value as source text.
    KeyValue(String),
    /// `key(...)`: the items inside are applied to the section the key names.
    Sub,
}

/// A section of the record-level settings that nested items apply to.
#[derive(PartialEq, Eq, Structural, Clone, Copy, Debug)]
pub enum Section {
    Mutators,
    FieldDefaults,
    BuilderMethod,
    BuilderType,
    BuildMethod,
}

/// A malformed `#[builder(...)]` attribute.
pub enum ConfigError {
    /// No setting has this key.
    UnknownParameter(String),
    /// This key was replaced by another form, given in the message.
    Deprecated(String),
    /// The key exists but takes another kind of argument.
    IncorrectType(String),
}

pub open spec fn config_message_spec(e: ConfigError) -> Seq<char> {
    match e {
        ConfigError::UnknownParameter(k) => "Unknown parameter `"@ + k@ + "`"@,
        ConfigError::Deprecated(m) => m@,
        ConfigError::IncorrectType(k) => "Wrong form of argument for `"@ + k@ + "`"@,
    }
}

impl ConfigError {
    /// The diagnostic shown to the user.
    pub fn message(&self) -> (r: String)
        ensures
            r@ == config_message_spec(*self),
    {
        match self {
            ConfigError::UnknownParameter(k) => {
                let a = join("Unknown parameter `", k.as_str());
                join(a.as_str(), "`")
            },
            ConfigError::Deprecated(m) => m.clone(),
            ConfigError::IncorrectType(k) => {
                let a = join("Wrong form of argument for `", k.as_str());
                join(a.as_str(), "`")
            },
        }
    }
}

/// Whether `key` is `lit`.
pub fn is_key(key: &str, lit: &str) -> (r: bool)
    ensures
        r == (key@ == lit@),
{
    String::from_str(key) == String::from_str(lit)
}

/// A key of the common settings.
#[derive(PartialEq, Eq, Structural, Clone, Copy, Debug)]
pub enum CommonKey {
    Vis,
    Name,
    Doc,
}

pub open spec fn common_key(key: Seq<char>) -> Option<CommonKey> {
    if key == "vis"@ {
        Some(CommonKey::Vis)
    } else if key == "name"@ {
        Some(CommonKey::Name)
    } else if key == "doc"@ {
        Some(CommonKey::Doc)
    } else {
        None
    }
}

impl CommonDeclarationSettings {
    /// Applies `vis = ..`, `name = ..` or `doc = ..`.
    pub fn apply_meta(&mut self, key: &str, arg: AttrArg) -> (r: Result<(), ConfigError>)
        ensures
            r is Ok <==> (common_key(key@) is Some && arg is KeyValue),
            common_key(key@) is None ==> (r matches Err(ConfigError::UnknownParameter(k)) && k@ == key@),
            common_key(key@) is Some && !(arg is KeyValue) ==> (r matches Err(ConfigError::IncorrectType(k)) && k@ == key@),
            r is Err ==> *final(self) == *old(self),
            r is Ok ==> *final(self) == (match common_key(key@) {
                Some(CommonKey::Vis) => CommonDeclarationSettings { vis: Some(arg->KeyValue_0), ..*old(self) },
                Some(CommonKey::Name) => CommonDeclarationSettings { name: Some(arg->KeyValue_0), ..*old(self) },
                _ => CommonDeclarationSettings { doc: Some(arg->KeyValue_0), ..*old(self) },
            }),
    {
        let vis = is_key(key, "vis");
        let name = is_key(key, "name");
        let doc = is_key(key, "doc");
        if !vis && !name && !doc {
            return Err(ConfigError::UnknownParameter(String::from_str(key)));
        }
        match arg {
            AttrArg::KeyValue(value) => {
                if vis {
                    self.vis = Some(value);
                } else if name {
                    self.name = Some(value);
                } else {
                    self.doc = Some(value);
                }
                Ok(())
            },
            _ => Err(ConfigError::IncorrectType(String::from_str(key))),
        }
    }
}

impl BuildMethodSettings {
    /// Applies `into` (a flag: convert into what the caller asks for; with a
    /// type: convert into that type), or one of the common keys.
    pub fn apply_meta(&mut self, key: &str, arg: AttrArg) -> (r: Result<(), ConfigError>)
        ensures
            key@ == "into"@ && arg is Flag ==> r is Ok && final(self).into is GenericConversion
                && final(self).common == old(self).common,
            key@ == "into"@ && arg is KeyValue ==> r is Ok && final(self).into == IntoSetting::TypeConversionToSpecificType(
                arg->KeyValue_0,
            ) && final(self).common == old(self).common,
            key@ == "into"@ && arg is Sub ==> (r matches Err(ConfigError::IncorrectType(k)) && k@ == key@
                && *final(self) == *old(self)),
            key@ != "into"@ ==> final(self).into == old(self).into,
            key@ != "into"@ ==> (r is Ok <==> (common_key(key@) is Some && arg is KeyValue)),
    {
        if is_key(key, "into") {
            match arg {
                AttrArg::Flag => {
                    self.into = IntoSetting::GenericConversion;
                    Ok(())
                },
                AttrArg::KeyValue(ty) => {
                    self.into = IntoSetting::TypeConversionToSpecificType(ty);
                    Ok(())
                },
                AttrArg::Sub => Err(ConfigError::IncorrectType(String::from_str(key))),
            }
        } else {
            self.common.apply_meta(key, arg)
        }
    }
}

/// What a record-level key stands for.
#[derive(PartialEq, Eq, Structural, Clone, Copy, Debug)]
pub enum TypeKey {
    CrateModulePath,
    Deprecated,
    Doc,
    Opens(Section),
    Unknown,
}

pub open spec fn type_key(key: Seq<char>) -> TypeKey {
    if key == "crate_module_path"@ {
        TypeKey::CrateModulePath
    } else if key == "builder_method_doc"@ || key == "builder_type_doc"@ || key == "build_method_doc"@ {
        TypeKey::Deprecated
    } else if key == "doc"@ {
        TypeKey::Doc
    } else if key == "mutators"@ {
        TypeKey::Opens(Section::Mutators)
    } else if key == "field_defaults"@ {
        TypeKey::Opens(Section::FieldDefaults)
    } else if key == "builder_method"@ {
        TypeKey::Opens(Section::BuilderMethod)
    } else if key == "builder_type"@ {
        TypeKey::Opens(Section::BuilderType)
    } else if key == "build_method"@ {
        TypeKey::Opens(Section::BuildMethod)
    } else {
        TypeKey::Unknown
    }
}

impl TypeBuilderAttr {
    /// Applies one record-level key. A key that opens a section answers with
    /// that section, to which the caller applies the items inside.
    pub fn apply_meta(&mut self, key: &str, arg: AttrArg) -> (r: Result<Option<Section>, ConfigError>)
        ensures
            type_key(key@) == TypeKey::CrateModulePath && arg is KeyValue ==> r == Ok::<Option<Section>, ConfigError>(None)
                && final(self).crate_module_path == arg->KeyValue_0,
            type_key(key@) == TypeKey::Doc && arg is Flag ==> r == Ok::<Option<Section>, ConfigError>(None) && final(self).doc,
            type_key(key@) == TypeKey::Deprecated ==> r matches Err(ConfigError::Deprecated(_)),
            type_key(key@) is Opens && arg is Sub ==> r == Ok::<Option<Section>, ConfigError>(Some(type_key(key@)->Opens_0)),
            type_key(key@) == TypeKey::Unknown ==> (r matches Err(ConfigError::UnknownParameter(k)) && k@ == key@),
            (type_key(key@) == TypeKey::CrateModulePath && !(arg is KeyValue)) || (type_key(key@) == TypeKey::Doc
                && !(arg is Flag)) || (type_key(key@) is Opens && !(arg is Sub)) ==> (r matches Err(ConfigError::IncorrectType(k))
                && k@ == key@),
            !(type_key(key@) == TypeKey::CrateModulePath && arg is KeyValue) ==> final(self).crate_module_path == old(self).crate_module_path,
            !(type_key(key@) == TypeKey::Doc && arg is Flag) ==> final(self).doc == old(self).doc,
            final(self).builder_method == old(self).builder_method,
            final(self).builder_type == old(self).builder_type,
            final(self).build_method == old(self).build_method,
            final(self).mutators == old(self).mutators,
    {
        if is_key(key, "crate_module_path") {
            return match arg {
                AttrArg::KeyValue(path) => {
                    self.crate_module_path = path;
                    Ok(None)
                },
                _ => Err(ConfigError::IncorrectType(String::from_str(key))),
            };
        }
        if is_key(key, "builder_method_doc") {
            return Err(ConfigError::Deprecated(String::from_str("`builder_method_doc` is deprecated - use `builder_method(doc = \"...\")`")));
        }
        if is_key(key, "builder_type_doc") {
            return Err(ConfigError::Deprecated(String::from_str("`builder_type_doc` is deprecated - use `builder_type(doc = \"...\")`")));
        }
        if is_key(key, "build_method_doc") {
            return Err(ConfigError::Deprecated(String::from_str("`build_method_doc` is deprecated - use `build_method(doc = \"...\")`")));
        }
        if is_key(key, "doc") {
            return match arg {
                AttrArg::Flag => {
                    self.doc = true;
                    Ok(None)
                },
                _ => Err(ConfigError::IncorrectType(String::from_str(key))),
            };
        }
        let section = if is_key(key, "mutators") {
            Section::Mutators
        } else if is_key(key, "field_defaults") {
            Section::FieldDefaults
        } else if is_key(key, "builder_method") {
            Section::BuilderMethod
        } else if is_key(key, "builder_type") {
            Section::BuilderType
        } else if is_key(key, "build_method") {
            Section::BuildMethod
        } else {
            return Err(ConfigError::UnknownParameter(String::from_str(key)));
        };
        match arg {
            AttrArg::Sub => Ok(Some(section)),
            _ => Err(ConfigError::IncorrectType(String::from_str(key))),
        }
    }
}

/// A part of a field's settings that nested items apply to.
#[derive(PartialEq, Eq, Structural, Clone, Copy, Debug)]
pub enum FieldSection {
    Setter,
    ViaMutators,
    Mutators,
}

/// What a field-level key stands for.
#[derive(PartialEq, Eq, Structural, Clone, Copy, Debug)]
pub enum FieldKey {
    Default,
    DefaultCode,
    Setter,
    ViaMutators,
    Mutators,
    MutableDuringDefaultResolution,
    Unknown,
}

pub open spec fn field_key(key: Seq<char>) -> FieldKey {
    if key == "default"@ {
        FieldKey::Default
    } else if key == "default_code"@ {
        FieldKey::DefaultCode
    } else if key == "setter"@ {
        FieldKey::Setter
    } else if key == "via_mutators"@ {
        FieldKey::ViaMutators
    } else if key == "mutators"@ {
        FieldKey::Mutators
    } else if key == "mutable_during_default_resolution"@ {
        FieldKey::MutableDuringDefaultResolution
    } else {
        FieldKey::Unknown
    }
}

/// Whether `arg` is a form that `key` takes.
pub open spec fn field_arg_fits(k: FieldKey, arg: AttrArg) -> bool {
    match k {
        FieldKey::Default => !(arg is Sub),
        FieldKey::DefaultCode => arg is KeyValue,
        FieldKey::Setter | FieldKey::Mutators => arg is Sub,
        FieldKey::ViaMutators => !(arg is KeyValue),
        FieldKey::MutableDuringDefaultResolution => arg is Flag,
        FieldKey::Unknown => false,
    }
}

/// A field's settings after a key of form `arg` was applied.
pub open spec fn after_field_key(a: BuilderAttr, k: FieldKey, arg: AttrArg) -> BuilderAttr {
    match k {
        FieldKey::Default | FieldKey::DefaultCode => BuilderAttr { has_default: true, ..a },
        FieldKey::ViaMutators => BuilderAttr { via_mutators: true, via_mutators_init_is_literal: false, ..a },
        FieldKey::MutableDuringDefaultResolution => BuilderAttr { mutable_during_default_resolution: true, ..a },
        _ => a,
    }
}

pub open spec fn opened_field_section(k: FieldKey) -> Option<FieldSection> {
    match k {
        FieldKey::Setter => Some(FieldSection::Setter),
        FieldKey::ViaMutators => Some(FieldSection::ViaMutators),
        FieldKey::Mutators => Some(FieldSection::Mutators),
        _ => None,
    }
}

/// What a key inside `setter(...)` stands for.
#[derive(PartialEq, Eq, Structural, Clone, Copy, Debug)]
pub enum SetterKey {
    Skip,
    Into,
    StripOption,
    StripBool,
    Transform,
    Name,
    Doc,
    Unknown,
}

pub open spec fn setter_key(key: Seq<char>) -> SetterKey {
    if key == "skip"@ {
        SetterKey::Skip
    } else if key == "into"@ {
        SetterKey::Into
    } else if key == "strip_option"@ {
        SetterKey::StripOption
    } else if key == "strip_bool"@ {
        SetterKey::StripBool
    } else if key == "transform"@ {
        SetterKey::Transform
    } else if key == "name"@ {
        SetterKey::Name
    } else if key == "doc"@ {
        SetterKey::Doc
    } else {
        SetterKey::Unknown
    }
}

pub open spec fn setter_arg_fits(k: SetterKey, arg: AttrArg) -> bool {
    match k {
        SetterKey::Skip | SetterKey::Into | SetterKey::StripOption | SetterKey::StripBool => arg is Flag,
        SetterKey::Transform | SetterKey::Name | SetterKey::Doc => arg is KeyValue,
        SetterKey::Unknown => false,
    }
}

pub open spec fn after_setter_key(a: BuilderAttr, k: SetterKey, arg: AttrArg) -> BuilderAttr {
    match k {
        SetterKey::Skip => BuilderAttr { skip: true, ..a },
        SetterKey::Into => BuilderAttr { auto_into: true, ..a },
        SetterKey::StripOption => BuilderAttr { strip_option: true, ..a },
        SetterKey::StripBool => BuilderAttr { strip_bool: true, ..a },
        SetterKey::Transform => BuilderAttr { transform: true, ..a },
        SetterKey::Name => BuilderAttr { setter_name: Some(arg->KeyValue_0), ..a },
        SetterKey::Doc => BuilderAttr { setter_doc: Some(arg->KeyValue_0), ..a },
        SetterKey::Unknown => a,
    }
}

impl BuilderAttr {
    /// Applies one field-level key. A key that opens a part of the settings
    /// answers with it, and the caller applies the items inside there. A
    /// `via_mutators` initializer is taken to be no literal until the caller
    /// has read it.
    pub fn apply_meta(&mut self, key: &str, arg: AttrArg) -> (r: Result<Option<FieldSection>, ConfigError>)
        ensures
            field_key(key@) == FieldKey::Unknown ==> (r matches Err(ConfigError::UnknownParameter(k)) && k@ == key@),
            field_key(key@) != FieldKey::Unknown && !field_arg_fits(field_key(key@), arg) ==> (r matches Err(
                ConfigError::IncorrectType(k)) && k@ == key@),
            field_arg_fits(field_key(key@), arg) ==> r == Ok::<Option<FieldSection>, ConfigError>(
                if field_key(key@) == FieldKey::ViaMutators && arg is Flag {
                    None
                } else {
                    opened_field_section(field_key(key@))
                },
            ),
            field_arg_fits(field_key(key@), arg) ==> *final(self) == after_field_key(*old(self), field_key(key@), arg),
            !field_arg_fits(field_key(key@), arg) ==> *final(self) == *old(self),
    {
        let k = if is_key(key, "default") {
            FieldKey::Default
        } else if is_key(key, "default_code") {
            FieldKey::DefaultCode
        } else if is_key(key, "setter") {
            FieldKey::Setter
        } else if is_key(key, "via_mutators") {
            FieldKey::ViaMutators
        } else if is_key(key, "mutators") {
            FieldKey::Mutators
        } else if is_key(key, "mutable_during_default_resolution") {
            FieldKey::MutableDuringDefaultResolution
        } else {
            return Err(ConfigError::UnknownParameter(String::from_str(key)));
        };
        match (k, arg) {
            (FieldKey::Default, AttrArg::Flag) | (FieldKey::Default, AttrArg::KeyValue(_)) | (
                FieldKey::DefaultCode,
                AttrArg::KeyValue(_),
            ) => {
                self.has_default = true;
                Ok(None)
            },
            (FieldKey::Setter, AttrArg::Sub) => Ok(Some(FieldSection::Setter)),
            (FieldKey::Mutators, AttrArg::Sub) => Ok(Some(FieldSection::Mutators)),
            (FieldKey::ViaMutators, AttrArg::Flag) => {
                self.via_mutators = true;
                self.via_mutators_init_is_literal = false;
                Ok(None)
            },
            (FieldKey::ViaMutators, AttrArg::Sub) => {
                self.via_mutators = true;
                self.via_mutators_init_is_literal = false;
                Ok(Some(FieldSection::ViaMutators))
            },
            (FieldKey::MutableDuringDefaultResolution, AttrArg::Flag) => {
                self.mutable_during_default_resolution = true;
                Ok(None)
            },
            _ => Err(ConfigError::IncorrectType(String::from_str(key))),
        }
    }

    /// Applies one key inside `setter(...)`.
    pub fn apply_setter_meta(&mut self, key: &str, arg: AttrArg) -> (r: Result<(), ConfigError>)
        ensures
            setter_key(key@) == SetterKey::Unknown ==> (r matches Err(ConfigError::UnknownParameter(k)) && k@ == key@),
            setter_key(key@) != SetterKey::Unknown && !setter_arg_fits(setter_key(key@), arg) ==> (r matches Err(
                ConfigError::IncorrectType(k)) && k@ == key@),
            r is Ok <==> setter_arg_fits(setter_key(key@), arg),
            r is Ok ==> *final(self) == after_setter_key(*old(self), setter_key(key@), arg),
            r is Err ==> *final(self) == *old(self),
    {
        let k = if is_key(key, "skip") {
            SetterKey::Skip
        } else if is_key(key, "into") {
            SetterKey::Into
        } else if is_key(key, "strip_option") {
            SetterKey::StripOption
        } else if is_key(key, "strip_bool") {
            SetterKey::StripBool
        } else if is_key(key, "transform") {
            SetterKey::Transform
        } else if is_key(key, "name") {
            SetterKey::Name
        } else if is_key(key, "doc") {
            SetterKey::Doc
        } else {
            return Err(ConfigError::UnknownParameter(String::from_str(key)));
        };
        match (k, arg) {
            (SetterKey::Skip, AttrArg::Flag) => {
                self.skip = true;
                Ok(())
            },
            (SetterKey::Into, AttrArg::Flag) => {
                self.auto_into = true;
                Ok(())
            },
            (SetterKey::StripOption, AttrArg::Flag) => {
                self.strip_option = true;
                Ok(())
            },
            (SetterKey::StripBool, AttrArg::Flag) => {
                self.strip_bool = true;
                Ok(())
            },
            (SetterKey::Transform, AttrArg::KeyValue(_)) => {
                self.transform = true;
                Ok(())
            },
            (SetterKey::Name, AttrArg::KeyValue(n)) => {
                self.setter_name = Some(n);
                Ok(())
            },
            (SetterKey::Doc, AttrArg::KeyValue(d)) => {
                self.setter_doc = Some(d);
                Ok(())
            },
            _ => Err(ConfigError::IncorrectType(String::from_str(key))),
        }
    }
}

} // verus!
