//! The type classifier: is a field's type `Option<T>`, and if so, what is `T`?
use vstd::prelude::*;
use crate::syntax::{GenericArg, SegmentArgs, TypeExpr, TypeShape};

verus! {

/// The inner type's text when `ty` is exactly a one-segment path `Option`
/// with one type argument; `None` for every other shape. The test is on the
/// syntax alone: an alias of `Option` is not recognized.
pub open spec fn optional_inner(ty: TypeExpr) -> Option<String> {
    match ty.shape {
        TypeShape::Path(segs) => {
            if segs@.len() == 1 && segs@[0].ident@ == "Option"@ {
                match segs@[0].args {
                    SegmentArgs::Angle(args) => {
                        if args@.len() == 1 {
                            match args@[0] {
                                GenericArg::Type(t) => Some(t),
                                _ => None,
                            }
                        } else {
                            None
                        }
                    },
                    _ => None,
                }
            } else {
                None
            }
        },
        TypeShape::Other => None,
    }
}

/// Returns the text of `T` when `ty` is written `Option<T>`.
pub fn try_optional(ty: &TypeExpr) -> (r: Option<String>)
    ensures
        r == optional_inner(*ty),
{
    let option = String::from_str("Option");
    match &ty.shape {
        TypeShape::Path(segs) => {
            if segs.len() != 1 || !segs[0].ident.eq(&option) {
                return None;
            }
            match &segs[0].args {
                SegmentArgs::Angle(args) => {
                    if args.len() != 1 {
                        return None;
                    }
                    match &args[0] {
                        GenericArg::Type(t) => Some(t.clone()),
                        _ => None,
                    }
                },
                _ => None,
            }
        },
        TypeShape::Other => None,
    }
}

} // verus!
