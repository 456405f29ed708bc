use vstd::prelude::*;
use vstd::string::*;

use crate::schema::{join, FieldInfo, StructInfo};

verus! {

/// How the builder method's documentation names one setter.
pub open spec fn setter_mention(f: FieldInfo) -> Seq<char> {
    "`."@ + f.name@ + "(...)`"@ + (if f.builder_attr.has_default {
        "(optional)"@
    } else {
        Seq::empty()
    })
}

/// The setters among the first `n` of `fields`, named in order and separated by commas.
pub open spec fn setters_doc_upto(fields: Seq<FieldInfo>, n: int) -> Seq<char>
    decreases n,
{
    if n <= 0 {
        Seq::empty()
    } else if !fields[n - 1].has_setter() {
        setters_doc_upto(fields, n - 1)
    } else if forall|j: int| 0 <= j < n - 1 ==> !(#[trigger] fields[j]).has_setter() {
        setter_mention(fields[n - 1])
    } else {
        setters_doc_upto(fields, n - 1) + ", "@ + setter_mention(fields[n - 1])
    }
}

pub open spec fn builder_method_doc_spec(info: StructInfo) -> Seq<char> {
    "Create a builder for building `"@ + info.name@ + "`.\nOn the builder, call "@
        + setters_doc_upto(info.fields@, info.fields@.len() as int)
        + " to set the values of the fields.\nFinally, call `.build()` to create the instance of `"@
        + info.name@ + "`."@
}

pub open spec fn builder_type_doc_spec(info: StructInfo) -> Seq<char> {
    "Builder for [`"@ + info.name@ + "`] instances.\n\nSee [`"@ + info.name@ + "::builder()`] for more info."@
}

pub open spec fn build_method_doc_spec(info: StructInfo) -> Seq<char> {
    "Finalise the builder and create its [`"@ + info.name@ + "`] instance"@
}

impl StructInfo {
    /// The setters, named in field order and separated by commas; those of
    /// fields with a default are marked optional.
    pub fn setters_doc(&self) -> (r: String)
        ensures
            r@ == setters_doc_upto(self.fields@, self.fields@.len() as int),
    {
        let mut result = String::new();
        let mut is_first = true;
        let mut i: usize = 0;
        while i < self.fields.len()
            invariant
                i <= self.fields@.len(),
                result@ == setters_doc_upto(self.fields@, i as int),
                is_first == (forall|j: int| 0 <= j < i ==> !(#[trigger] self.fields@[j]).has_setter()),
                is_first ==> result@ == Seq::<char>::empty(),
            decreases self.fields@.len() - i,
        {
            let f = &self.fields[i];
            let ghost prev = result@;
            if !f.builder_attr.skip && !f.builder_attr.via_mutators {
                if !is_first {
                    result.append(", ");
                }
                result.append("`.");
                result.append(f.name.as_str());
                result.append("(...)`");
                if f.builder_attr.has_default {
                    result.append("(optional)");
                }
                if is_first {
                    assert(result@ =~= setter_mention(*f));
                } else {
                    assert(result@ =~= prev + ", "@ + setter_mention(*f));
                }
                is_first = false;
            }
            assert(self.fields@[i as int] == *f);
            i += 1;
        }
        result
    }

    /// Documentation of the builder method: the configured one, else one
    /// that names the setters.
    pub fn builder_method_doc(&self) -> (r: String)
        ensures
            r@ == (match self.builder_attr.builder_method.doc {
                Some(d) => d@,
                None => builder_method_doc_spec(*self),
            }),
    {
        let setters = self.setters_doc();
        let a = join("Create a builder for building `", self.name.as_str());
        let b = join(a.as_str(), "`.\nOn the builder, call ");
        let c = join(b.as_str(), setters.as_str());
        let d = join(c.as_str(), " to set the values of the fields.\nFinally, call `.build()` to create the instance of `");
        let e = join(d.as_str(), self.name.as_str());
        let generated = join(e.as_str(), "`.");
        self.builder_attr.builder_method.get_doc_or(generated)
    }

    /// Documentation of the builder type, or `None` where it is hidden.
    pub fn builder_type_doc(&self) -> (r: Option<String>)
        ensures
            !self.builder_attr.doc ==> r is None,
            self.builder_attr.doc ==> (r matches Some(d) && d@ == (match self.builder_attr.builder_type.doc {
                Some(c) => c@,
                None => builder_type_doc_spec(*self),
            })),
    {
        if !self.builder_attr.doc {
            return None;
        }
        let a = join("Builder for [`", self.name.as_str());
        let b = join(a.as_str(), "`] instances.\n\nSee [`");
        let c = join(b.as_str(), self.name.as_str());
        let generated = join(c.as_str(), "::builder()`] for more info.");
        Some(self.builder_attr.builder_type.get_doc_or(generated))
    }

    /// Documentation of the build method, or `None` where there is none.
    pub fn build_method_doc(&self) -> (r: Option<String>)
        ensures
            !self.builder_attr.doc ==> r is None,
            self.builder_attr.doc ==> (r matches Some(d) && d@ == (match self.builder_attr.build_method.common.doc {
                Some(c) => c@,
                None => build_method_doc_spec(*self),
            })),
    {
        if !self.builder_attr.doc {
            return None;
        }
        let a = join("Finalise the builder and create its [`", self.name.as_str());
        let generated = join(a.as_str(), "`] instance");
        Some(self.builder_attr.build_method.common.get_doc_or(generated))
    }

    /// Visibility of the builder method: its own, else the builder type's,
    /// else the record's.
    pub fn builder_method_visibility(&self) -> (r: String)
        ensures
            r == (match self.builder_attr.builder_method.vis {
                Some(v) => v,
                None => match self.builder_attr.builder_type.vis {
                    Some(v) => v,
                    None => self.vis,
                },
            }),
    {
        match &self.builder_attr.builder_method.vis {
            Some(v) => v.clone(),
            None => match &self.builder_attr.builder_type.vis {
                Some(v) => v.clone(),
                None => self.vis.clone(),
            },
        }
    }

    /// Visibility of the builder type: its own, else the record's.
    pub fn builder_type_visibility(&self) -> (r: String)
        ensures
            r == (match self.builder_attr.builder_type.vis {
                Some(v) => v,
                None => self.vis,
            }),
    {
        match &self.builder_attr.builder_type.vis {
            Some(v) => v.clone(),
            None => self.vis.clone(),
        }
    }

    /// Visibility of the build method and its guards: its own, else `pub`.
    pub fn build_method_visibility(&self) -> (r: String)
        ensures
            r@ == (match self.builder_attr.build_method.common.vis {
                Some(v) => v@,
                None => "pub"@,
            }),
    {
        match &self.builder_attr.build_method.common.vis {
            Some(v) => v.clone(),
            None => String::from_str("pub"),
        }
    }
}

} // verus!
