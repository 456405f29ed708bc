use vstd::prelude::*;
use vstd::string::*;

verus! {

/// `s` with a leading raw-identifier marker `r#` removed.
pub open spec fn strip_raw_spec(s: Seq<char>) -> Seq<char> {
    if s.len() >= 2 && s[0] == 'r' && s[1] == '#' {
        s.subrange(2, s.len() as int)
    } else {
        s
    }
}

/// Drops the `r#` prefix of a raw identifier, so that it can be spliced into
/// a longer identifier.
pub fn strip_raw_ident_prefix(s: &str) -> (r: String)
    ensures
        r@ == strip_raw_spec(s@),
{
    let n = s.unicode_len();
    if n >= 2 && s.get_char(0) == 'r' && s.get_char(1) == '#' {
        String::from_str(s.substring_char(2, n))
    } else {
        String::from_str(s)
    }
}

/// `a` followed by `b`.
pub fn join(a: &str, b: &str) -> (r: String)
    ensures
        r@ == a@ + b@,
{
    let mut r = String::from_str(a);
    r.append(b);
    r
}

/// How the finished record is handed back by the build method.
pub enum IntoSetting {
    /// The record itself.
    NoConversion,
    /// Any type the record converts into, chosen by the caller.
    GenericConversion,
    /// One fixed type, given by its path.
    TypeConversionToSpecificType(String),
}

impl IntoSetting {
    pub fn default() -> (r: IntoSetting)
        ensures
            r is NoConversion,
    {
        IntoSetting::NoConversion
    }
}

/// Name, visibility and documentation of one generated declaration, each as
/// source text; `None` keeps the generated choice.
pub struct CommonDeclarationSettings {
    pub vis: Option<String>,
    pub name: Option<String>,
    pub doc: Option<String>,
}

impl CommonDeclarationSettings {
    pub fn default() -> (r: CommonDeclarationSettings)
        ensures
            r.vis is None,
            r.name is None,
            r.doc is None,
    {
        CommonDeclarationSettings { vis: None, name: None, doc: None }
    }

    pub fn get_name(&self) -> (r: Option<String>)
        ensures
            r == self.name,
    {
        match &self.name {
            Some(n) => Some(n.clone()),
            None => None,
        }
    }

    /// The configured documentation, or `generated` where none is configured.
    pub fn get_doc_or(&self, generated: String) -> (r: String)
        ensures
            r == (match self.doc {
                Some(d) => d,
                None => generated,
            }),
    {
        match &self.doc {
            Some(d) => d.clone(),
            None => generated,
        }
    }
}

/// Settings of the build method.
pub struct BuildMethodSettings {
    pub common: CommonDeclarationSettings,
    /// Whether to convert the built record while finishing the build.
    pub into: IntoSetting,
}

impl BuildMethodSettings {
    pub fn default() -> (r: BuildMethodSettings)
        ensures
            r.common.vis is None,
            r.common.name is None,
            r.common.doc is None,
            r.into is NoConversion,
    {
        BuildMethodSettings { common: CommonDeclarationSettings::default(), into: IntoSetting::default() }
    }
}

/// The settings of one field. Expressions (the default, a mutator's
/// initializer, a transform's body) stay with the caller; what the synthesis
/// decides on is whether they are there and what shape they have.
pub struct BuilderAttr {
    /// A default expression is configured.
    pub has_default: bool,
    /// The field has no setter and is always taken from its default.
    pub skip: bool,
    /// The setter takes `T` for a field of type `Option<T>`.
    pub strip_option: bool,
    /// The setter takes no argument and sets `true`.
    pub strip_bool: bool,
    /// The setter takes anything that converts into the field's type.
    pub auto_into: bool,
    /// The setter has a custom parameter list and body.
    pub transform: bool,
    /// The field is only written through mutators, starting from an initializer.
    pub via_mutators: bool,
    /// The mutators' initializer is a literal.
    pub via_mutators_init_is_literal: bool,
    /// The field's binding is mutable while later defaults are resolved.
    pub mutable_during_default_resolution: bool,
    /// A name for the setter other than the field's.
    pub setter_name: Option<String>,
    /// Documentation of the setter, as source text.
    pub setter_doc: Option<String>,
}

impl BuilderAttr {
    /// Settings of a field with nothing configured.
    pub fn new() -> (r: BuilderAttr)
        ensures
            !r.has_default,
            !r.skip,
            !r.strip_option,
            !r.strip_bool,
            !r.auto_into,
            !r.transform,
            !r.via_mutators,
            !r.via_mutators_init_is_literal,
            !r.mutable_during_default_resolution,
            r.setter_name is None,
            r.setter_doc is None,
    {
        BuilderAttr {
            has_default: false,
            skip: false,
            strip_option: false,
            strip_bool: false,
            auto_into: false,
            transform: false,
            via_mutators: false,
            via_mutators_init_is_literal: false,
            mutable_during_default_resolution: false,
            setter_name: None,
            setter_doc: None,
        }
    }
}

/// A configuration that cannot yield a builder.
#[derive(PartialEq, Eq, Structural, Clone, Copy, Debug)]
pub enum SchemaError {
    /// A skipped field has no default to take its value from.
    SkipWithoutDefault { field: usize },
    /// `strip_option` on a field whose type is not `Option<...>`.
    StripOptionOnNonOption { field: usize },
}

/// One field of the record.
pub struct FieldInfo {
    /// Position among the record's fields.
    pub ordinal: usize,
    pub name: String,
    /// The declared type is `Option<...>`.
    pub ty_is_option: bool,
    pub builder_attr: BuilderAttr,
}

impl FieldInfo {
    /// A field may be skipped only if it has a default.
    pub open spec fn wf(&self) -> bool {
        self.builder_attr.skip ==> self.builder_attr.has_default
    }

    /// Part of the builder's type-state.
    pub open spec fn included(&self) -> bool {
        !self.builder_attr.skip
    }

    /// Has an ordinary setter.
    pub open spec fn has_setter(&self) -> bool {
        self.included() && !self.builder_attr.via_mutators
    }

    /// Must be set before the record can be built.
    pub open spec fn required(&self) -> bool {
        self.has_setter() && !self.builder_attr.has_default
    }

    pub fn new(ordinal: usize, name: String, ty_is_option: bool, builder_attr: BuilderAttr) -> (r:
        Result<FieldInfo, SchemaError>)
        ensures
            builder_attr.skip && !builder_attr.has_default ==> r == Err::<FieldInfo, SchemaError>(
                SchemaError::SkipWithoutDefault { field: ordinal },
            ),
            !(builder_attr.skip && !builder_attr.has_default) ==> (r matches Ok(f) && f.wf()
                && f.ordinal == ordinal && f.name == name && f.ty_is_option == ty_is_option
                && f.builder_attr == builder_attr),
    {
        if builder_attr.skip && !builder_attr.has_default {
            Err(SchemaError::SkipWithoutDefault { field: ordinal })
        } else {
            Ok(FieldInfo { ordinal, name, ty_is_option, builder_attr })
        }
    }

    /// Name of the setter: the configured one, else the field's.
    pub fn setter_method_name(&self) -> (r: String)
        ensures
            r == (match self.builder_attr.setter_name {
                Some(n) => n,
                None => self.name,
            }),
    {
        match &self.builder_attr.setter_name {
            Some(n) => n.clone(),
            None => self.name.clone(),
        }
    }

    /// Name of the type parameter that stands for this field's marker.
    pub fn generic_ident(&self) -> (r: String)
        ensures
            r@ == "__"@ + strip_raw_spec(self.name@),
    {
        let stripped = strip_raw_ident_prefix(self.name.as_str());
        join("__", stripped.as_str())
    }
}

/// A named edit of fields that are already set.
pub struct Mutator {
    pub name: String,
    /// Fields that must be set before the mutator may run.
    pub required_fields: Vec<String>,
}

/// Record-level settings.
pub struct TypeBuilderAttr {
    /// Whether the builder type and build method are documented rather than hidden.
    pub doc: bool,
    pub builder_method: CommonDeclarationSettings,
    pub builder_type: CommonDeclarationSettings,
    pub build_method: BuildMethodSettings,
    /// Path of the support module that holds the default resolution helper.
    pub crate_module_path: String,
    pub mutators: Vec<Mutator>,
}

impl TypeBuilderAttr {
    /// Nothing configured: docs hidden, generated names and visibilities,
    /// the `typed_builder` support module, no mutators.
    pub fn default() -> (r: TypeBuilderAttr)
        ensures
            !r.doc,
            r.builder_method.vis is None && r.builder_method.name is None && r.builder_method.doc is None,
            r.builder_type.vis is None && r.builder_type.name is None && r.builder_type.doc is None,
            r.build_method.common.vis is None && r.build_method.common.name is None && r.build_method.common.doc is None,
            r.build_method.into is NoConversion,
            r.crate_module_path@ == "::typed_builder"@,
            r.mutators@.len() == 0,
    {
        TypeBuilderAttr {
            doc: false,
            builder_method: CommonDeclarationSettings::default(),
            builder_type: CommonDeclarationSettings::default(),
            build_method: BuildMethodSettings::default(),
            crate_module_path: String::from_str("::typed_builder"),
            mutators: Vec::new(),
        }
    }

    /// Record-level settings; documentation is shown when asked for, and
    /// whenever the builder type or the build method has a doc of its own.
    pub fn new(
        doc: bool,
        builder_method: CommonDeclarationSettings,
        builder_type: CommonDeclarationSettings,
        build_method: BuildMethodSettings,
        crate_module_path: String,
        mutators: Vec<Mutator>,
    ) -> (r: TypeBuilderAttr)
        ensures
            r.doc == (doc || builder_type.doc is Some || build_method.common.doc is Some),
            r.builder_method == builder_method,
            r.builder_type == builder_type,
            r.build_method == build_method,
            r.crate_module_path == crate_module_path,
            r.mutators == mutators,
    {
        let doc = doc || builder_type.doc.is_some() || build_method.common.doc.is_some();
        TypeBuilderAttr { doc, builder_method, builder_type, build_method, crate_module_path, mutators }
    }
}

/// The name of the builder type: the configured one, else the record's name
/// followed by `Builder`; without a raw-identifier prefix either way.
pub open spec fn builder_name_spec(name: Seq<char>, configured: Option<String>) -> Seq<char> {
    match configured {
        Some(c) => strip_raw_spec(c@),
        None => strip_raw_spec(name + "Builder"@),
    }
}

/// The record and everything the synthesis reads of it.
pub struct StructInfo {
    /// The record's visibility, as source text.
    pub vis: String,
    pub name: String,
    pub fields: Vec<FieldInfo>,
    pub builder_attr: TypeBuilderAttr,
    pub builder_name: String,
    /// Name of the builder's inner module.
    pub core: String,
}

impl StructInfo {
    pub open spec fn fields_wf(fields: Seq<FieldInfo>) -> bool {
        forall|i: int| 0 <= i < fields.len() ==> (#[trigger] fields[i]).ordinal == i && fields[i].wf()
    }

    pub open spec fn wf(&self) -> bool {
        &&& Self::fields_wf(self.fields@)
        &&& self.builder_name@ == builder_name_spec(self.name@, self.builder_attr.builder_type.name)
        &&& self.core@ == self.builder_name@ + "_core"@
    }

    pub open spec fn field(&self, i: int) -> FieldInfo {
        self.fields@[i]
    }

    pub fn new(vis: String, name: String, fields: Vec<FieldInfo>, builder_attr: TypeBuilderAttr) -> (r: StructInfo)
        requires
            Self::fields_wf(fields@),
        ensures
            r.wf(),
            r.vis == vis,
            r.name == name,
            r.fields == fields,
            r.builder_attr == builder_attr,
    {
        let builder_name = match builder_attr.builder_type.get_name() {
            Some(configured) => strip_raw_ident_prefix(configured.as_str()),
            None => {
                let full = join(name.as_str(), "Builder");
                strip_raw_ident_prefix(full.as_str())
            },
        };
        let core = join(builder_name.as_str(), "_core");
        StructInfo { vis, name, fields, builder_attr, builder_name, core }
    }

    /// Name of the build method: the configured one, else `build`.
    pub fn build_method_name(&self) -> (r: String)
        ensures
            r@ == (match self.builder_attr.build_method.common.name {
                Some(n) => n@,
                None => "build"@,
            }),
    {
        match self.builder_attr.build_method.common.get_name() {
            Some(n) => n,
            None => String::from_str("build"),
        }
    }
}

} // verus!
