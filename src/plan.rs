//! From a record declaration to the plan of its builder: one descriptor per
//! field, and the builder's storage, setters and completeness checks.
use vstd::prelude::*;
use crate::attr::{field_directive, try_parse_builder_each, AttrError};
use crate::classify::{optional_inner, try_optional};
use crate::syntax::{FieldDecl, RecordBody, RecordDecl};

verus! {

/// What the generator knows of one field.
#[derive(Clone, Debug, PartialEq, Eq)]
pub struct FieldDescriptor {
    pub ident: String,
    /// The declared type, as written.
    pub declared: String,
    /// The inner type of an optional field; the declared type otherwise.
    pub effective: String,
    pub is_optional: bool,
    /// The name of the element-appending setter, if the field has one.
    pub alias: Option<String>,
}

/// Why no builder was generated.
#[derive(Clone, Debug, PartialEq, Eq)]
pub enum GenError {
    /// The declaration is not a struct with named fields.
    NotNamedRecord,
    /// A field's `#[builder]` annotation is malformed.
    Attribute { field: String, error: AttrError },
    /// A field's alias is the name of a field, so that two setters would share it.
    AliasConflict { field: String },
}

/// The builder to emit for a record.
#[derive(Clone, Debug, PartialEq, Eq)]
pub struct BuilderPlan {
    pub record: String,
    /// The builder type's name: the record's name followed by `Builder`.
    pub builder: String,
    /// One descriptor per field, in declaration order.
    pub fields: Vec<FieldDescriptor>,
}

/// One member of the builder: `ident: Option<ty>`.
#[derive(Clone, Debug, PartialEq, Eq)]
pub struct StorageMember {
    pub ident: String,
    pub ty: String,
}

#[derive(Clone, Copy, Debug, PartialEq, Eq)]
pub enum SetterKind {
    /// Stores a whole value of the field's effective type.
    Whole,
    /// Appends one element to the field's sequence.
    Append,
}

/// One setter of the builder: `name` writes to the member `field`.
#[derive(Clone, Debug, PartialEq, Eq)]
pub struct Setter {
    pub name: String,
    pub field: String,
    pub kind: SetterKind,
}

/// A test made by `build`: a required field that is absent fails it with `message`.
#[derive(Clone, Debug, PartialEq, Eq)]
pub struct RequiredCheck {
    pub field: String,
    pub message: String,
}

pub open spec fn descriptor_of(f: FieldDecl, alias: Option<String>) -> FieldDescriptor {
    FieldDescriptor {
        ident: f.ident,
        declared: f.ty.text,
        effective: match optional_inner(f.ty) {
            Some(t) => t,
            None => f.ty.text,
        },
        is_optional: optional_inner(f.ty) is Some,
        alias,
    }
}

/// Some field of the record is named `name`.
pub open spec fn names_field(fields: Seq<FieldDecl>, name: Seq<char>) -> bool {
    exists|j: int| 0 <= j < fields.len() && #[trigger] fields[j].ident@ == name
}

/// What stops generation at field `k`, if anything.
pub open spec fn field_fault(fields: Seq<FieldDecl>, k: int) -> Option<GenError> {
    match field_directive(fields[k].annotations@) {
        Err(e) => Some(GenError::Attribute { field: fields[k].ident, error: e }),
        Ok(Some(a)) => if names_field(fields, a@) {
            Some(GenError::AliasConflict { field: fields[k].ident })
        } else {
            None
        },
        Ok(None) => None,
    }
}

pub open spec fn all_fields_sound(fields: Seq<FieldDecl>) -> bool {
    forall|k: int| 0 <= k < fields.len() ==> (#[trigger] field_fault(fields, k)) is None
}

/// Generation gives a plan for this declaration.
pub open spec fn generation_succeeds(decl: RecordDecl) -> bool {
    match decl.body {
        RecordBody::Named(fields) => all_fields_sound(fields@),
        RecordBody::Other => false,
    }
}

/// Field `k` is the first that stops generation.
pub open spec fn first_fault(fields: Seq<FieldDecl>, k: int) -> bool {
    &&& 0 <= k < fields.len()
    &&& field_fault(fields, k) is Some
    &&& forall|j: int| 0 <= j < k ==> (#[trigger] field_fault(fields, j)) is None
}

/// The plan's fields describe the declared fields one for one.
pub open spec fn describes(plan_fields: Seq<FieldDescriptor>, fields: Seq<FieldDecl>) -> bool {
    &&& plan_fields.len() == fields.len()
    &&& forall|k: int|
        0 <= k < fields.len() ==> #[trigger] plan_fields[k] == descriptor_of(
            fields[k],
            field_directive(fields[k].annotations@)->Ok_0,
        )
}

/// The builder's storage: each field, stored as an option of its effective type.
pub open spec fn storage_of(fields: Seq<FieldDescriptor>) -> Seq<StorageMember> {
    fields.map_values(|f: FieldDescriptor| StorageMember { ident: f.ident, ty: f.effective })
}

/// The setters of one field: the whole-value setter, then the appending one.
pub open spec fn field_setters(f: FieldDescriptor) -> Seq<Setter> {
    let whole = Setter { name: f.ident, field: f.ident, kind: SetterKind::Whole };
    match f.alias {
        Some(a) => seq![whole, Setter { name: a, field: f.ident, kind: SetterKind::Append }],
        None => seq![whole],
    }
}

/// All setters, field by field in declaration order.
pub open spec fn setters_of(fields: Seq<FieldDescriptor>) -> Seq<Setter>
    decreases fields.len(),
{
    if fields.len() == 0 {
        Seq::empty()
    } else {
        setters_of(fields.drop_last()) + field_setters(fields.last())
    }
}

/// The required fields, in declaration order: those that `build` checks.
pub open spec fn required_of(fields: Seq<FieldDescriptor>) -> Seq<FieldDescriptor>
    decreases fields.len(),
{
    if fields.len() == 0 {
        Seq::empty()
    } else {
        let rest = required_of(fields.drop_last());
        if fields.last().is_optional {
            rest
        } else {
            rest.push(fields.last())
        }
    }
}

/// The check of `build` for the required field `f`.
pub open spec fn is_check_for(c: RequiredCheck, f: FieldDescriptor) -> bool {
    c.field == f.ident && c.message@ == f.ident@ + " not found"@
}

/// `checks` holds one check per required field, in declaration order.
pub open spec fn checks_match(checks: Seq<RequiredCheck>, fields: Seq<FieldDescriptor>) -> bool {
    let req = required_of(fields);
    &&& checks.len() == req.len()
    &&& forall|i: int| 0 <= i < req.len() ==> is_check_for(#[trigger] checks[i], req[i])
}

/// Builds the descriptor of one field whose directive gave `alias`.
pub fn describe_field(f: &FieldDecl, alias: Option<String>) -> (r: FieldDescriptor)
    ensures
        r == descriptor_of(*f, alias),
{
    let inner = try_optional(&f.ty);
    let is_optional = inner.is_some();
    let effective = match inner {
        Some(t) => t,
        None => f.ty.text.clone(),
    };
    FieldDescriptor {
        ident: f.ident.clone(),
        declared: f.ty.text.clone(),
        effective,
        is_optional,
        alias,
    }
}

fn find_field(fields: &Vec<FieldDecl>, name: &String) -> (r: bool)
    ensures
        r == names_field(fields@, name@),
{
    let mut j: usize = 0;
    while j < fields.len()
        invariant
            j <= fields@.len(),
            forall|i: int| 0 <= i < j ==> fields@[i].ident@ != name@,
        decreases fields@.len() - j,
    {
        if fields[j].ident.eq(name) {
            return true;
        }
        j = j + 1;
    }
    false
}

/// The alias of field `k`, or what stops generation there.
fn check_field(fields: &Vec<FieldDecl>, k: usize) -> (r: Result<Option<String>, GenError>)
    requires
        k < fields@.len(),
    ensures
        match r {
            Ok(a) => field_fault(fields@, k as int) is None && a == field_directive(
                fields@[k as int].annotations@,
            )->Ok_0,
            Err(e) => field_fault(fields@, k as int) == Some(e),
        },
{
    match try_parse_builder_each(&fields[k]) {
        Err(e) => Err(GenError::Attribute { field: fields[k].ident.clone(), error: e }),
        Ok(None) => Ok(None),
        Ok(Some(a)) => {
            if find_field(fields, &a) {
                Err(GenError::AliasConflict { field: fields[k].ident.clone() })
            } else {
                Ok(Some(a))
            }
        },
    }
}

/// Generates the plan of a record's builder. Generation fails as a whole on a
/// declaration without named fields, or at the first field, in declaration
/// order, whose directive is malformed or whose alias names a field.
pub fn generate(decl: &RecordDecl) -> (r: Result<BuilderPlan, GenError>)
    ensures
        r is Ok <==> generation_succeeds(*decl),
        match decl.body {
            RecordBody::Other => r == Err::<BuilderPlan, GenError>(GenError::NotNamedRecord),
            RecordBody::Named(fields) => {
                &&& r is Ok <==> all_fields_sound(fields@)
                &&& r is Ok ==> {
                    &&& r->Ok_0.record == decl.name
                    &&& r->Ok_0.builder@ == decl.name@ + "Builder"@
                    &&& describes(r->Ok_0.fields@, fields@)
                }
                &&& r is Err ==> exists|k: int| #[trigger]
                    first_fault(fields@, k) && r == Err::<BuilderPlan, GenError>(
                        field_fault(fields@, k)->Some_0,
                    )
            },
        },
{
    let fields = match &decl.body {
        RecordBody::Named(fields) => fields,
        RecordBody::Other => return Err(GenError::NotNamedRecord),
    };
    let mut out: Vec<FieldDescriptor> = Vec::new();
    let mut k: usize = 0;
    while k < fields.len()
        invariant
            k <= fields@.len(),
            decl.body == RecordBody::Named(*fields),
            forall|j: int| 0 <= j < k ==> (#[trigger] field_fault(fields@, j)) is None,
            describes(out@, fields@.subrange(0, k as int)),
        decreases fields@.len() - k,
    {
        let alias = match check_field(fields, k) {
            Err(e) => {
                assert(first_fault(fields@, k as int));
                return Err(e);
            },
            Ok(a) => a,
        };
        let d = describe_field(&fields[k], alias);
        out.push(d);
        k = k + 1;
        assert forall|i: int| 0 <= i < k implies #[trigger] out@[i] == descriptor_of(
            fields@.subrange(0, k as int)[i],
            field_directive(fields@.subrange(0, k as int)[i].annotations@)->Ok_0,
        ) by {
            assert(fields@.subrange(0, k as int)[i] == fields@[i]);
            if i < k - 1 {
                assert(fields@.subrange(0, k - 1)[i] == fields@[i]);
            }
        }
    }
    assert(fields@.subrange(0, k as int) =~= fields@);
    let name = decl.name.clone();
    let builder = decl.name.clone().concat("Builder");
    Ok(BuilderPlan { record: name, builder, fields: out })
}

impl BuilderPlan {
    /// The builder's members, one per field in declaration order.
    pub fn storage(&self) -> (r: Vec<StorageMember>)
        ensures
            r@ == storage_of(self.fields@),
    {
        let mut out: Vec<StorageMember> = Vec::new();
        let mut k: usize = 0;
        while k < self.fields.len()
            invariant
                k <= self.fields@.len(),
                out@ =~= storage_of(self.fields@.subrange(0, k as int)),
            decreases self.fields@.len() - k,
        {
            let f = &self.fields[k];
            out.push(StorageMember { ident: f.ident.clone(), ty: f.effective.clone() });
            k = k + 1;
            assert(out@ =~= storage_of(self.fields@.subrange(0, k as int)));
        }
        assert(self.fields@.subrange(0, k as int) =~= self.fields@);
        out
    }

    /// The builder's setters: for each field in declaration order, its
    /// whole-value setter, then its appending setter if it has an alias.
    pub fn setters(&self) -> (r: Vec<Setter>)
        ensures
            r@ == setters_of(self.fields@),
    {
        let mut out: Vec<Setter> = Vec::new();
        let mut k: usize = 0;
        assert(self.fields@.subrange(0, 0) =~= Seq::<FieldDescriptor>::empty());
        while k < self.fields.len()
            invariant
                k <= self.fields@.len(),
                out@ == setters_of(self.fields@.subrange(0, k as int)),
            decreases self.fields@.len() - k,
        {
            let f = &self.fields[k];
            out.push(Setter { name: f.ident.clone(), field: f.ident.clone(), kind: SetterKind::Whole });
            if let Some(a) = &f.alias {
                out.push(Setter { name: a.clone(), field: f.ident.clone(), kind: SetterKind::Append });
            }
            let ghost prefix = self.fields@.subrange(0, k + 1);
            assert(prefix.drop_last() =~= self.fields@.subrange(0, k as int));
            assert(prefix.last() == self.fields@[k as int]);
            assert(out@ =~= setters_of(prefix));
            k = k + 1;
        }
        assert(self.fields@.subrange(0, k as int) =~= self.fields@);
        out
    }

    /// The completeness checks of `build`, one per required field in
    /// declaration order, each with the message `<field> not found`.
    pub fn checks(&self) -> (r: Vec<RequiredCheck>)
        ensures
            checks_match(r@, self.fields@),
    {
        let mut out: Vec<RequiredCheck> = Vec::new();
        let mut k: usize = 0;
        assert(self.fields@.subrange(0, 0) =~= Seq::<FieldDescriptor>::empty());
        while k < self.fields.len()
            invariant
                k <= self.fields@.len(),
                checks_match(out@, self.fields@.subrange(0, k as int)),
            decreases self.fields@.len() - k,
        {
            let f = &self.fields[k];
            if !f.is_optional {
                let message = f.ident.clone().concat(" not found");
                out.push(RequiredCheck { field: f.ident.clone(), message });
            }
            let ghost prefix = self.fields@.subrange(0, k + 1);
            assert(prefix.drop_last() =~= self.fields@.subrange(0, k as int));
            assert(prefix.last() == self.fields@[k as int]);
            assert(checks_match(out@, prefix));
            k = k + 1;
        }
        assert(self.fields@.subrange(0, k as int) =~= self.fields@);
        out
    }
}

} // verus!
