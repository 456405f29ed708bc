use vstd::prelude::*;
use vstd::string::*;

use crate::schema::{
    join, strip_raw_ident_prefix, strip_raw_spec, BuilderAttr, FieldInfo, Mutator, SchemaError,
    StructInfo,
};

verus! {

/// The shape that one field's slot takes in an impl of the builder type.
/// `Unset` is `()`, `Filled` (set) is `(T,)`, `Generic` is a type parameter that
/// accepts either. A field outside the builder's state has no slot (`None`).
#[derive(PartialEq, Eq, Structural, Clone, Copy, Debug)]
pub enum Marker {
    Unset,
    Filled,
    Generic,
}

/// One slot per field of the record, in field order.
pub type Pattern = Vec<Option<Marker>>;

/// How the setter takes its value.
#[derive(PartialEq, Eq, Structural, Clone, Copy, Debug)]
pub enum ArgShape {
    /// No argument; the field becomes `true`.
    Flag,
    /// The configured parameter list, and the configured body computes the value.
    Transform,
    /// The inner type of the field's `Option`, wrapped in `Some`, converted
    /// first where `into` holds.
    StripOption { into: bool },
    /// The field's type, or anything that converts into it where `into` holds.
    Value { into: bool },
}

/// How the build method obtains a field's value.
#[derive(PartialEq, Eq, Structural, Clone, Copy, Debug)]
pub enum Binding {
    /// Take the value out of its `Set` slot.
    Unwrap,
    /// The slot's value if set, else the default, evaluated only then.
    ResolveDefault,
    /// The default itself: the field has no slot.
    EvaluateDefault,
}

pub open spec fn creation_marker(f: FieldInfo) -> Option<Marker> {
    if !f.included() {
        None
    } else if f.builder_attr.via_mutators {
        Some(Marker::Filled)
    } else {
        Some(Marker::Unset)
    }
}

/// The slot of field `f` in the impl of the setter of `target`: only the
/// target is pinned, to `pinned`.
pub open spec fn setter_marker(f: FieldInfo, is_target: bool, pinned: Marker) -> Option<Marker> {
    if !f.included() {
        None
    } else if is_target {
        Some(pinned)
    } else {
        Some(Marker::Generic)
    }
}

/// The slot of field `f` (at position `i`) in the guard that reports field
/// `k` missing: earlier required fields must be set, so that only the first
/// missing field is reported.
pub open spec fn guard_marker(f: FieldInfo, i: int, k: int) -> Option<Marker> {
    if !f.included() {
        None
    } else if f.builder_attr.has_default || f.builder_attr.via_mutators {
        Some(Marker::Generic)
    } else if i < k {
        Some(Marker::Filled)
    } else if i == k {
        Some(Marker::Unset)
    } else {
        Some(Marker::Generic)
    }
}

pub open spec fn names_contain(names: Seq<String>, name: Seq<char>) -> bool {
    exists|j: int| 0 <= j < names.len() && (#[trigger] names[j])@ == name
}

/// The slot of field `f` in the impl of a mutator that requires `required`.
pub open spec fn mutator_marker(f: FieldInfo, required: Seq<String>) -> Option<Marker> {
    if !f.included() {
        None
    } else if f.builder_attr.via_mutators || names_contain(required, f.name@) {
        Some(Marker::Filled)
    } else {
        Some(Marker::Generic)
    }
}

/// The slot of field `f` in the impl of the build method.
pub open spec fn build_marker(f: FieldInfo) -> Option<Marker> {
    if !f.included() {
        None
    } else if f.builder_attr.has_default {
        Some(Marker::Generic)
    } else {
        Some(Marker::Filled)
    }
}

pub open spec fn binding_spec(f: FieldInfo) -> Binding {
    if !f.builder_attr.has_default {
        Binding::Unwrap
    } else if f.builder_attr.skip {
        Binding::EvaluateDefault
    } else {
        Binding::ResolveDefault
    }
}

/// Argument shape, in order of precedence: flag, transform, stripped option, value.
pub open spec fn arg_shape_spec(a: BuilderAttr) -> ArgShape {
    if a.strip_bool {
        ArgShape::Flag
    } else if a.transform {
        ArgShape::Transform
    } else if a.strip_option {
        ArgShape::StripOption { into: a.auto_into }
    } else {
        ArgShape::Value { into: a.auto_into }
    }
}

/// `strip_option` needs an `Option` type, unless a transform replaces the argument.
pub open spec fn strip_option_misplaced(f: FieldInfo) -> bool {
    f.builder_attr.strip_option && !f.builder_attr.transform && !f.ty_is_option
}

pub open spec fn creation_pattern(info: StructInfo) -> Seq<Option<Marker>> {
    Seq::new(info.fields@.len(), |i: int| creation_marker(info.field(i)))
}

pub open spec fn setter_input(info: StructInfo, k: int) -> Seq<Option<Marker>> {
    Seq::new(info.fields@.len(), |i: int| setter_marker(info.field(i), i == k, Marker::Unset))
}

pub open spec fn setter_output(info: StructInfo, k: int) -> Seq<Option<Marker>> {
    Seq::new(info.fields@.len(), |i: int| setter_marker(info.field(i), i == k, Marker::Filled))
}

pub open spec fn guard_pattern(info: StructInfo, k: int) -> Seq<Option<Marker>> {
    Seq::new(info.fields@.len(), |i: int| guard_marker(info.field(i), i, k))
}

pub open spec fn mutator_pattern(info: StructInfo, required: Seq<String>) -> Seq<Option<Marker>> {
    Seq::new(info.fields@.len(), |i: int| mutator_marker(info.field(i), required))
}

pub open spec fn build_pattern(info: StructInfo) -> Seq<Option<Marker>> {
    Seq::new(info.fields@.len(), |i: int| build_marker(info.field(i)))
}

pub open spec fn build_bindings(info: StructInfo) -> Seq<Binding> {
    Seq::new(info.fields@.len(), |i: int| binding_spec(info.field(i)))
}

/// What the entry point that starts a builder looks like.
pub struct BuilderCreation {
    /// The state it starts in.
    pub initial: Pattern,
    /// Whether it can be a `const fn`: every mutator-only field starts from a literal.
    pub is_const: bool,
    pub method_name: String,
}

/// A setter, and beside it the same-named overload on `output` that flags a
/// repeated set.
pub struct SetterPlan {
    pub field: usize,
    pub input: Pattern,
    pub output: Pattern,
    pub arg: ArgShape,
    pub method_name: String,
    /// The uninhabited type the repeated-set overload takes.
    pub repeated_error_type: String,
    pub repeated_message: String,
}

/// A build overload that reports one missing required field.
pub struct GuardPlan {
    pub field: usize,
    pub pattern: Pattern,
    /// The uninhabited type the overload takes.
    pub error_type: String,
    pub message: String,
}

/// The impl a mutator stands in; it returns a builder of the same state.
pub struct MutatorPlan {
    pub pattern: Pattern,
}

/// The build method.
pub struct BuildPlan {
    pub pattern: Pattern,
    /// One per field of the record, in field order.
    pub bindings: Vec<Binding>,
    pub method_name: String,
}

impl FieldInfo {
    /// The slot of a field that may be in either state.
    pub fn generic_ty_param(&self) -> (r: Marker)
        ensures
            r == Marker::Generic,
    {
        Marker::Generic
    }

    /// The slot of a field that holds its value.
    pub fn tuplized_type_ty_param(&self) -> (r: Marker)
        ensures
            r == Marker::Filled,
    {
        Marker::Filled
    }

    /// The slot of a field that holds nothing yet.
    pub fn empty_ty_param() -> (r: Marker)
        ensures
            r == Marker::Unset,
    {
        Marker::Unset
    }
}

/// Positions, among the first `n` of `fields`, of those that satisfy `p`, in order.
pub open spec fn positions_where(fields: Seq<FieldInfo>, n: int, p: spec_fn(FieldInfo) -> bool) -> Seq<usize>
    decreases n,
{
    if n <= 0 {
        Seq::empty()
    } else if p(fields[n - 1]) {
        positions_where(fields, n - 1, p).push((n - 1) as usize)
    } else {
        positions_where(fields, n - 1, p)
    }
}

/// Whether `names` holds `name`.
pub fn contains_name(names: &Vec<String>, name: &String) -> (r: bool)
    ensures
        r == names_contain(names@, name@),
{
    let mut j: usize = 0;
    while j < names.len()
        invariant
            j <= names@.len(),
            forall|l: int| 0 <= l < j ==> (#[trigger] names@[l])@ != name@,
        decreases names@.len() - j,
    {
        if names[j] == *name {
            return true;
        }
        j += 1;
    }
    false
}

impl StructInfo {
    /// Positions of the fields that are part of the builder's state.
    pub fn included_fields(&self) -> (r: Vec<usize>)
        ensures
            r@ == positions_where(self.fields@, self.fields@.len() as int, |f: FieldInfo| f.included()),
    {
        let mut r: Vec<usize> = Vec::new();
        let mut i: usize = 0;
        while i < self.fields.len()
            invariant
                i <= self.fields@.len(),
                r@ == positions_where(self.fields@, i as int, |f: FieldInfo| f.included()),
            decreases self.fields@.len() - i,
        {
            if !self.fields[i].builder_attr.skip {
                r.push(i);
            }
            i += 1;
        }
        r
    }

    /// Positions of the fields that have an ordinary setter.
    pub fn setter_fields(&self) -> (r: Vec<usize>)
        ensures
            r@ == positions_where(self.fields@, self.fields@.len() as int, |f: FieldInfo| f.has_setter()),
    {
        let mut r: Vec<usize> = Vec::new();
        let mut i: usize = 0;
        while i < self.fields.len()
            invariant
                i <= self.fields@.len(),
                r@ == positions_where(self.fields@, i as int, |f: FieldInfo| f.has_setter()),
            decreases self.fields@.len() - i,
        {
            let a = &self.fields[i].builder_attr;
            if !a.skip && !a.via_mutators {
                r.push(i);
            }
            i += 1;
        }
        r
    }

    /// The entry point that starts a builder: every field unset but the
    /// mutator-only ones, which start from their initializer.
    pub fn builder_creation_impl(&self) -> (r: BuilderCreation)
        ensures
            r.initial@ == creation_pattern(*self),
            r.is_const == (forall|i: int| 0 <= i < self.fields@.len() && (#[trigger] self.field(i)).included()
                && self.field(i).builder_attr.via_mutators ==> self.field(i).builder_attr.via_mutators_init_is_literal),
            r.method_name@ == (match self.builder_attr.builder_method.name {
                Some(n) => n@,
                None => "builder"@,
            }),
    {
        let mut initial: Pattern = Vec::new();
        let mut is_const = true;
        let mut i: usize = 0;
        while i < self.fields.len()
            invariant
                i <= self.fields@.len(),
                initial@.len() == i,
                forall|m: int| 0 <= m < i ==> initial@[m] == creation_marker(#[trigger] self.field(m)),
                is_const == (forall|m: int| 0 <= m < i && (#[trigger] self.field(m)).included()
                    && self.field(m).builder_attr.via_mutators ==> self.field(m).builder_attr.via_mutators_init_is_literal),
            decreases self.fields@.len() - i,
        {
            let a = &self.fields[i].builder_attr;
            if a.skip {
                initial.push(None);
            } else if a.via_mutators {
                if !a.via_mutators_init_is_literal {
                    is_const = false;
                }
                initial.push(Some(Marker::Filled));
            } else {
                initial.push(Some(Marker::Unset));
            }
            assert(self.field(i as int).builder_attr == *a);
            i += 1;
        }
        assert(initial@ =~= creation_pattern(*self));
        let method_name = match self.builder_attr.builder_method.get_name() {
            Some(n) => n,
            None => String::from_str("builder"),
        };
        BuilderCreation { initial, is_const, method_name }
    }

    /// The setter of field `k` and its repeated-set overload.
    pub fn field_impl(&self, k: usize) -> (r: Result<SetterPlan, SchemaError>)
        requires
            self.wf(),
            k < self.fields@.len(),
            self.field(k as int).has_setter(),
        ensures
            strip_option_misplaced(self.field(k as int)) ==> r == Err::<SetterPlan, SchemaError>(
                SchemaError::StripOptionOnNonOption { field: k },
            ),
            !strip_option_misplaced(self.field(k as int)) ==> r is Ok,
            r matches Ok(p) ==> {
                &&& p.field == k
                &&& p.input@ == setter_input(*self, k as int)
                &&& p.output@ == setter_output(*self, k as int)
                &&& p.arg == arg_shape_spec(self.field(k as int).builder_attr)
                &&& p.method_name == (match self.field(k as int).builder_attr.setter_name {
                    Some(n) => n,
                    None => self.field(k as int).name,
                })
                &&& p.repeated_error_type@ == self.builder_name@ + "_Error_Repeated_field_"@
                    + strip_raw_spec(self.field(k as int).name@)
                &&& p.repeated_message@ == "Repeated field "@ + self.field(k as int).name@
            },
    {
        let field = &self.fields[k];
        let a = &field.builder_attr;
        if a.strip_option && !a.transform && !field.ty_is_option {
            return Err(SchemaError::StripOptionOnNonOption { field: k });
        }
        let mut input: Pattern = Vec::new();
        let mut output: Pattern = Vec::new();
        let mut i: usize = 0;
        while i < self.fields.len()
            invariant
                i <= self.fields@.len(),
                input@.len() == i,
                output@.len() == i,
                forall|m: int| 0 <= m < i ==> input@[m] == setter_marker(#[trigger] self.field(m), m == k, Marker::Unset),
                forall|m: int| 0 <= m < i ==> output@[m] == setter_marker(#[trigger] self.field(m), m == k, Marker::Filled),
            decreases self.fields@.len() - i,
        {
            if self.fields[i].builder_attr.skip {
                input.push(None);
                output.push(None);
            } else if i == k {
                input.push(Some(Marker::Unset));
                output.push(Some(Marker::Filled));
            } else {
                input.push(Some(Marker::Generic));
                output.push(Some(Marker::Generic));
            }
            i += 1;
        }
        assert(input@ =~= setter_input(*self, k as int));
        assert(output@ =~= setter_output(*self, k as int));
        let arg = if a.strip_bool {
            ArgShape::Flag
        } else if a.transform {
            ArgShape::Transform
        } else if a.strip_option {
            ArgShape::StripOption { into: a.auto_into }
        } else {
            ArgShape::Value { into: a.auto_into }
        };
        let prefix = join(self.builder_name.as_str(), "_Error_Repeated_field_");
        let stripped = strip_raw_ident_prefix(field.name.as_str());
        let repeated_error_type = join(prefix.as_str(), stripped.as_str());
        let repeated_message = join("Repeated field ", field.name.as_str());
        Ok(SetterPlan {
            field: k,
            input,
            output,
            arg,
            method_name: field.setter_method_name(),
            repeated_error_type,
            repeated_message,
        })
    }

    /// The build overload that reports required field `k` as missing.
    pub fn required_field_impl(&self, k: usize) -> (r: GuardPlan)
        requires
            self.wf(),
            k < self.fields@.len(),
            self.field(k as int).required(),
        ensures
            r.field == k,
            r.pattern@ == guard_pattern(*self, k as int),
            r.error_type@ == self.builder_name@ + "_Error_Missing_required_field_"@ + strip_raw_spec(self.field(k as int).name@),
            r.message@ == "Missing required field "@ + self.field(k as int).name@,
    {
        let mut pattern: Pattern = Vec::new();
        let mut i: usize = 0;
        while i < self.fields.len()
            invariant
                i <= self.fields@.len(),
                pattern@.len() == i,
                forall|m: int| 0 <= m < i ==> pattern@[m] == guard_marker(#[trigger] self.field(m), m, k as int),
            decreases self.fields@.len() - i,
        {
            let a = &self.fields[i].builder_attr;
            if a.skip {
                pattern.push(None);
            } else if a.has_default || a.via_mutators {
                pattern.push(Some(Marker::Generic));
            } else if i < k {
                pattern.push(Some(Marker::Filled));
            } else if i == k {
                pattern.push(Some(Marker::Unset));
            } else {
                pattern.push(Some(Marker::Generic));
            }
            i += 1;
        }
        assert(pattern@ =~= guard_pattern(*self, k as int));
        let name = &self.fields[k].name;
        let prefix = join(self.builder_name.as_str(), "_Error_Missing_required_field_");
        let stripped = strip_raw_ident_prefix(name.as_str());
        let error_type = join(prefix.as_str(), stripped.as_str());
        let message = join("Missing required field ", name.as_str());
        GuardPlan { field: k, pattern, error_type, message }
    }

    /// The impl that mutator `m` stands in: its required fields and the
    /// mutator-only fields are set, the others may be in either state.
    pub fn mutator_impl(&self, m: &Mutator) -> (r: MutatorPlan)
        ensures
            r.pattern@ == mutator_pattern(*self, m.required_fields@),
    {
        let mut pattern: Pattern = Vec::new();
        let mut i: usize = 0;
        while i < self.fields.len()
            invariant
                i <= self.fields@.len(),
                pattern@.len() == i,
                forall|j: int| 0 <= j < i ==> pattern@[j] == mutator_marker(#[trigger] self.field(j), m.required_fields@),
            decreases self.fields@.len() - i,
        {
            let f = &self.fields[i];
            if f.builder_attr.skip {
                pattern.push(None);
            } else if f.builder_attr.via_mutators || contains_name(&m.required_fields, &f.name) {
                pattern.push(Some(Marker::Filled));
            } else {
                pattern.push(Some(Marker::Generic));
            }
            i += 1;
        }
        assert(pattern@ =~= mutator_pattern(*self, m.required_fields@));
        MutatorPlan { pattern }
    }

    /// The build method: required fields set, defaulted ones in either state;
    /// each field bound in field order, so that a default may read the fields
    /// bound before it.
    pub fn build_method_impl(&self) -> (r: BuildPlan)
        ensures
            r.pattern@ == build_pattern(*self),
            r.bindings@ == build_bindings(*self),
            r.method_name@ == (match self.builder_attr.build_method.common.name {
                Some(n) => n@,
                None => "build"@,
            }),
    {
        let mut pattern: Pattern = Vec::new();
        let mut bindings: Vec<Binding> = Vec::new();
        let mut i: usize = 0;
        while i < self.fields.len()
            invariant
                i <= self.fields@.len(),
                pattern@.len() == i,
                bindings@.len() == i,
                forall|m: int| 0 <= m < i ==> pattern@[m] == build_marker(#[trigger] self.field(m)),
                forall|m: int| 0 <= m < i ==> bindings@[m] == binding_spec(#[trigger] self.field(m)),
            decreases self.fields@.len() - i,
        {
            let a = &self.fields[i].builder_attr;
            if a.skip {
                pattern.push(None);
            } else if a.has_default {
                pattern.push(Some(Marker::Generic));
            } else {
                pattern.push(Some(Marker::Filled));
            }
            if !a.has_default {
                bindings.push(Binding::Unwrap);
            } else if a.skip {
                bindings.push(Binding::EvaluateDefault);
            } else {
                bindings.push(Binding::ResolveDefault);
            }
            i += 1;
        }
        assert(pattern@ =~= build_pattern(*self));
        assert(bindings@ =~= build_bindings(*self));
        BuildPlan { pattern, bindings, method_name: self.build_method_name() }
    }
}

} // verus!
