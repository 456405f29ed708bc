use vstd::prelude::*;
use vstd::string::*;

use crate::schema::{FieldInfo, SchemaError, StructInfo};
use crate::typestate::{
    arg_shape_spec, build_bindings, build_pattern, creation_pattern, guard_pattern, mutator_pattern, positions_where, setter_input, setter_output,
    strip_option_misplaced, BuildPlan, BuilderCreation, GuardPlan, MutatorPlan, SetterPlan,
};

verus! {

/// The kind of type a builder is asked for.
#[derive(PartialEq, Eq, Structural, Clone, Copy, Debug)]
pub enum RecordShape {
    NamedStruct,
    TupleStruct,
    UnitStruct,
    Enum,
    Union,
}

/// Why no builder is generated for a type.
#[derive(PartialEq, Eq, Structural, Clone, Copy, Debug)]
pub enum DeriveError {
    /// Only structs with named fields get a builder.
    Unsupported(RecordShape),
    Schema(SchemaError),
}

/// The diagnostic shown for each error.
pub open spec fn message_spec(e: DeriveError) -> Seq<char> {
    match e {
        DeriveError::Unsupported(RecordShape::TupleStruct) => "TypedBuilder is not supported for tuple structs"@,
        DeriveError::Unsupported(RecordShape::UnitStruct) => "TypedBuilder is not supported for unit structs"@,
        DeriveError::Unsupported(RecordShape::Enum) => "TypedBuilder is not supported for enums"@,
        DeriveError::Unsupported(RecordShape::Union) => "TypedBuilder is not supported for unions"@,
        DeriveError::Unsupported(RecordShape::NamedStruct) => "TypedBuilder could not read the struct"@,
        DeriveError::Schema(SchemaError::SkipWithoutDefault { .. }) => "#[builder(skip)] must be accompanied by default"@,
        DeriveError::Schema(SchemaError::StripOptionOnNonOption { .. }) => "can't `strip_option` - field is not `Option<...>`"@,
    }
}

impl DeriveError {
    /// The diagnostic shown to the user.
    pub fn message(&self) -> (r: String)
        ensures
            r@ == message_spec(*self),
    {
        let r = match self {
            DeriveError::Unsupported(RecordShape::TupleStruct) => "TypedBuilder is not supported for tuple structs",
            DeriveError::Unsupported(RecordShape::UnitStruct) => "TypedBuilder is not supported for unit structs",
            DeriveError::Unsupported(RecordShape::Enum) => "TypedBuilder is not supported for enums",
            DeriveError::Unsupported(RecordShape::Union) => "TypedBuilder is not supported for unions",
            DeriveError::Unsupported(RecordShape::NamedStruct) => "TypedBuilder could not read the struct",
            DeriveError::Schema(SchemaError::SkipWithoutDefault { .. }) => "#[builder(skip)] must be accompanied by default",
            DeriveError::Schema(SchemaError::StripOptionOnNonOption { .. }) => "can't `strip_option` - field is not `Option<...>`",
        };
        String::from_str(r)
    }
}

/// Only a struct with named fields gets a builder.
pub fn check_shape(shape: RecordShape) -> (r: Result<(), DeriveError>)
    ensures
        shape == RecordShape::NamedStruct <==> r is Ok,
        r matches Err(e) ==> e == DeriveError::Unsupported(shape),
{
    match shape {
        RecordShape::NamedStruct => Ok(()),
        _ => Err(DeriveError::Unsupported(shape)),
    }
}

/// Everything generated for one record, in the order it is emitted.
pub struct BuilderPlan {
    pub creation: BuilderCreation,
    /// One per field with a setter, in field order.
    pub setters: Vec<SetterPlan>,
    /// One per required field, in field order.
    pub guards: Vec<GuardPlan>,
    /// One per mutator, in the order they are configured.
    pub mutators: Vec<MutatorPlan>,
    pub build: BuildPlan,
}

impl StructInfo {
    /// All the plans for this record, or the first field, in field order,
    /// whose `strip_option` cannot apply.
    pub fn impl_my_derive(&self) -> (r: Result<BuilderPlan, DeriveError>)
        requires
            self.wf(),
        ensures
            (exists|k: int| 0 <= k < self.fields@.len() && (#[trigger] self.field(k)).has_setter()
                && strip_option_misplaced(self.field(k))) <==> r is Err,
            r matches Err(e) ==> exists|k: int| 0 <= k < self.fields@.len() && (#[trigger] self.field(k)).has_setter()
                && strip_option_misplaced(self.field(k)) && e == DeriveError::Schema(
                SchemaError::StripOptionOnNonOption { field: k as usize },
            ) && forall|j: int| 0 <= j < k && (#[trigger] self.field(j)).has_setter() ==> !strip_option_misplaced(self.field(j)),
            r matches Ok(p) ==> {
                let setters = positions_where(self.fields@, self.fields@.len() as int, |f: FieldInfo| f.has_setter());
                let required = positions_where(self.fields@, self.fields@.len() as int, |f: FieldInfo| f.required());
                &&& p.setters@.len() == setters.len()
                &&& forall|j: int| 0 <= j < setters.len() ==> {
                    &&& (#[trigger] p.setters@[j]).field == setters[j]
                    &&& p.setters@[j].input@ == setter_input(*self, setters[j] as int)
                    &&& p.setters@[j].output@ == setter_output(*self, setters[j] as int)
                    &&& p.setters@[j].arg == arg_shape_spec(self.field(setters[j] as int).builder_attr)
                }
                &&& p.guards@.len() == required.len()
                &&& forall|j: int| 0 <= j < required.len() ==> {
                    &&& (#[trigger] p.guards@[j]).field == required[j]
                    &&& p.guards@[j].pattern@ == guard_pattern(*self, required[j] as int)
                }
                &&& p.mutators@.len() == self.builder_attr.mutators@.len()
                &&& forall|j: int| 0 <= j < p.mutators@.len() ==> (#[trigger] p.mutators@[j]).pattern@
                    == mutator_pattern(*self, self.builder_attr.mutators@[j].required_fields@)
                &&& p.creation.initial@ == creation_pattern(*self)
                &&& p.build.pattern@ == build_pattern(*self)
                &&& p.build.bindings@ == build_bindings(*self)
            },
    {
        let creation = self.builder_creation_impl();
        let mut setters: Vec<SetterPlan> = Vec::new();
        let mut guards: Vec<GuardPlan> = Vec::new();
        let mut i: usize = 0;
        while i < self.fields.len()
            invariant
                self.wf(),
                i <= self.fields@.len(),
                forall|j: int| 0 <= j < i && (#[trigger] self.field(j)).has_setter() ==> !strip_option_misplaced(self.field(j)),
                setters@.len() == positions_where(self.fields@, i as int, |f: FieldInfo| f.has_setter()).len(),
                forall|j: int| 0 <= j < setters@.len() ==> {
                    &&& (#[trigger] setters@[j]).field == positions_where(self.fields@, i as int, |f: FieldInfo| f.has_setter())[j]
                    &&& setters@[j].input@ == setter_input(*self, positions_where(self.fields@, i as int, |f: FieldInfo| f.has_setter())[j] as int)
                    &&& setters@[j].output@ == setter_output(*self, positions_where(self.fields@, i as int, |f: FieldInfo| f.has_setter())[j] as int)
                    &&& setters@[j].arg == arg_shape_spec(self.field(positions_where(self.fields@, i as int, |f: FieldInfo| f.has_setter())[j] as int).builder_attr)
                },
                guards@.len() == positions_where(self.fields@, i as int, |f: FieldInfo| f.required()).len(),
                forall|j: int| 0 <= j < guards@.len() ==> {
                    &&& (#[trigger] guards@[j]).field == positions_where(self.fields@, i as int, |f: FieldInfo| f.required())[j]
                    &&& guards@[j].pattern@ == guard_pattern(*self, positions_where(self.fields@, i as int, |f: FieldInfo| f.required())[j] as int)
                },
            decreases self.fields@.len() - i,
        {
            let a = &self.fields[i].builder_attr;
            assert(self.fields@[i as int].builder_attr == *a);
            assert(positions_where(self.fields@, i + 1, |f: FieldInfo| f.has_setter()) == if a.skip || a.via_mutators {
                positions_where(self.fields@, i as int, |f: FieldInfo| f.has_setter())
            } else {
                positions_where(self.fields@, i as int, |f: FieldInfo| f.has_setter()).push(i)
            });
            assert(positions_where(self.fields@, i + 1, |f: FieldInfo| f.required()) == if a.skip || a.via_mutators || a.has_default {
                positions_where(self.fields@, i as int, |f: FieldInfo| f.required())
            } else {
                positions_where(self.fields@, i as int, |f: FieldInfo| f.required()).push(i)
            });
            if !a.skip && !a.via_mutators {
                match self.field_impl(i) {
                    Ok(p) => setters.push(p),
                    Err(e) => {
                        return Err(DeriveError::Schema(e));
                    },
                }
                if !a.has_default {
                    guards.push(self.required_field_impl(i));
                }
            }
            i += 1;
        }
        let mut mutators: Vec<MutatorPlan> = Vec::new();
        let mut m: usize = 0;
        while m < self.builder_attr.mutators.len()
            invariant
                m <= self.builder_attr.mutators@.len(),
                mutators@.len() == m,
                forall|j: int| 0 <= j < m ==> (#[trigger] mutators@[j]).pattern@
                    == mutator_pattern(*self, self.builder_attr.mutators@[j].required_fields@),
            decreases self.builder_attr.mutators@.len() - m,
        {
            mutators.push(self.mutator_impl(&self.builder_attr.mutators[m]));
            m += 1;
        }
        let build = self.build_method_impl();
        Ok(BuilderPlan { creation, setters, guards, mutators, build })
    }
}

} // verus!
