//! The attribute parser: reads the `#[builder(each = "...")]` directive.
use vstd::prelude::*;
use crate::syntax::{Annotation, AnnotationArgs, FieldDecl, NestedItem, NestedValue};

verus! {

/// Why a `#[builder]` annotation was rejected.
#[derive(Clone, Debug, PartialEq, Eq)]
pub enum AttrError {
    /// `#[builder]` or `#[builder = ...]`: no argument list.
    NotAList,
    /// `#[builder()]`: the list names no key.
    MissingKey,
    /// A key other than `each`; holds the key as written.
    UnrecognizedKey(String),
    /// `each` is not bound to a string literal.
    ExpectedString,
    /// A second entry after a well-formed `each`.
    RepeatedKey,
    /// `each = ""`.
    EmptyAlias,
}

/// The annotation is the builder directive.
pub open spec fn is_directive(a: Annotation) -> bool {
    a.path@ == "builder"@
}

/// What is wrong with one entry of the directive's list, if anything.
pub open spec fn item_fault(it: NestedItem) -> Option<AttrError> {
    if it.key@ != "each"@ {
        Some(AttrError::UnrecognizedKey(it.key))
    } else {
        match it.value {
            NestedValue::Str(_) => None,
            _ => Some(AttrError::ExpectedString),
        }
    }
}

/// The alias that a directive's arguments give, or why they give none.
/// Entries are read in order and the first fault wins.
pub open spec fn parse_directive(args: AnnotationArgs) -> Result<String, AttrError> {
    match args {
        AnnotationArgs::List(items) => {
            if items@.len() == 0 {
                Err(AttrError::MissingKey)
            } else if item_fault(items@[0]) is Some {
                Err(item_fault(items@[0])->Some_0)
            } else if items@.len() > 1 {
                if item_fault(items@[1]) is Some {
                    Err(item_fault(items@[1])->Some_0)
                } else {
                    Err(AttrError::RepeatedKey)
                }
            } else if items@[0].value->Str_0@.len() == 0 {
                Err(AttrError::EmptyAlias)
            } else {
                Ok(items@[0].value->Str_0)
            }
        },
        _ => Err(AttrError::NotAList),
    }
}

/// The accumulator alias of a field with these annotations: the first
/// directive decides, later ones are not read; no directive gives no alias.
pub open spec fn field_directive(anns: Seq<Annotation>) -> Result<Option<String>, AttrError>
    decreases anns.len(),
{
    if anns.len() == 0 {
        Ok(None)
    } else if is_directive(anns[0]) {
        match parse_directive(anns[0].args) {
            Ok(s) => Ok(Some(s)),
            Err(e) => Err(e),
        }
    } else {
        field_directive(anns.drop_first())
    }
}

fn item_check(it: &NestedItem) -> (r: Option<AttrError>)
    ensures
        r == item_fault(*it),
{
    let each = String::from_str("each");
    if !it.key.eq(&each) {
        Some(AttrError::UnrecognizedKey(it.key.clone()))
    } else {
        match &it.value {
            NestedValue::Str(_) => None,
            _ => Some(AttrError::ExpectedString),
        }
    }
}

/// Reads the arguments of one `#[builder(...)]` annotation.
pub fn parse_each(args: &AnnotationArgs) -> (r: Result<String, AttrError>)
    ensures
        r == parse_directive(*args),
{
    match args {
        AnnotationArgs::List(items) => {
            if items.len() == 0 {
                return Err(AttrError::MissingKey);
            }
            if let Some(e) = item_check(&items[0]) {
                return Err(e);
            }
            if items.len() > 1 {
                return match item_check(&items[1]) {
                    Some(e) => Err(e),
                    None => Err(AttrError::RepeatedKey),
                };
            }
            match &items[0].value {
                NestedValue::Str(s) => {
                    if s.as_str().is_empty() {
                        Err(AttrError::EmptyAlias)
                    } else {
                        Ok(s.clone())
                    }
                },
                _ => Err(AttrError::ExpectedString),
            }
        },
        _ => Err(AttrError::NotAList),
    }
}

/// Finds a field's accumulator alias: `Ok(None)` without a directive, the
/// alias of the first directive, or the fault in that directive.
pub fn try_parse_builder_each(field: &FieldDecl) -> (r: Result<Option<String>, AttrError>)
    ensures
        r == field_directive(field.annotations@),
{
    let anns = &field.annotations;
    let builder = String::from_str("builder");
    let mut i: usize = 0;
    assert(anns@.subrange(0, anns@.len() as int) =~= anns@);
    while i < anns.len()
        invariant
            i <= anns@.len(),
            builder@ == "builder"@,
            anns@ == field.annotations@,
            field_directive(anns@) == field_directive(anns@.subrange(i as int, anns@.len() as int)),
        decreases anns@.len() - i,
    {
        let rest = Ghost(anns@.subrange(i as int, anns@.len() as int));
        assert(rest@.len() > 0 && rest@[0] == anns@[i as int]);
        assert(field_directive(rest@) == if is_directive(rest@[0]) {
            match parse_directive(rest@[0].args) {
                Ok(s) => Ok(Some(s)),
                Err(e) => Err(e),
            }
        } else {
            field_directive(rest@.drop_first())
        });
        if anns[i].path.eq(&builder) {
            return match parse_each(&anns[i].args) {
                Ok(s) => Ok(Some(s)),
                Err(e) => Err(e),
            };
        }
        assert(rest@.drop_first() =~= anns@.subrange(i + 1, anns@.len() as int));
        i = i + 1;
    }
    assert(anns@.subrange(i as int, anns@.len() as int) =~= Seq::<Annotation>::empty());
    Ok(None)
}

} // verus!
