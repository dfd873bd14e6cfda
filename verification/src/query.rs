//! The `zst_query` lint: queries that fetch the data of a zero-sized type, which holds none.

use vstd::prelude::*;

use crate::paths::BevyPath;
use crate::text::concat;
use crate::ty::Ty;

verus! {

/// The items of a tuple type, looking through references; any other type stands alone.
pub open spec fn spec_detuple(ty: Ty) -> Seq<Ty> {
    match ty.peeled() {
        Ty::Tuple(items) => items@,
        _ => seq![ty],
    }
}

/// The list of types inside a tuple type, or the type itself when it is not a tuple. Works for
/// references to tuples too, such as `&(f32, &str)`.
pub fn detuple(ty: &Ty) -> (r: Vec<&Ty>)
    ensures
        r@.len() == spec_detuple(*ty).len(),
        forall|i: int| 0 <= i < r@.len() ==> *r@[i] == spec_detuple(*ty)[i],
{
    let mut out: Vec<&Ty> = Vec::new();
    match ty.peel_refs() {
        Ty::Tuple(items) => {
            let mut i: usize = 0;
            while i < items.len()
                invariant
                    ty.peeled() == (Ty::Tuple(*items)),
                    i <= items@.len(),
                    out@.len() == i,
                    forall|j: int| 0 <= j < i ==> *out@[j] == items@[j],
                decreases items@.len() - i,
            {
                out.push(&items[i]);
                i = i + 1;
            }
        },
        _ => {
            out.push(ty);
        },
    }
    out
}

/// The kinds of queries that the lint inspects.
#[derive(Clone, Copy, Debug, PartialEq, Eq, Structural)]
pub enum QueryKind {
    Query,
}

impl QueryKind {
    /// The kind of query that a type is, if any.
    pub fn try_from_ty(ty: &Ty) -> (r: Option<QueryKind>)
        ensures
            r == if ty.is_bevy(BevyPath::Query) {
                Some(QueryKind::Query)
            } else {
                None
            },
    {
        if ty.matches(BevyPath::Query) {
            Some(QueryKind::Query)
        } else {
            None
        }
    }

    /// "zero-sized types do not retrieve any data, consider using a filter instead: `With<{ty}>`"
    pub fn help(&self, ty_text: &str) -> (r: String)
        ensures
            r@ == "zero-sized types do not retrieve any data, consider using a filter instead: `With<"@
                + ty_text@ + ">`"@,
    {
        let r = concat(
            &[
                "zero-sized types do not retrieve any data, consider using a filter instead: `With<",
                ty_text,
                ">`",
            ],
        );
        proof {
            reveal_with_fuel(crate::text::concat_all, 4);
        }
        r
    }
}

/// The description of the `zst_query` lint, which is also its message.
pub fn zst_query_description() -> (r: &'static str)
    ensures
        r@ == "queried a zero-sized type"@,
{
    "queried a zero-sized type"
}

/// Whether a type is zero-sized: `None` when its size cannot be known because it cannot be
/// normalized, or when the compiler could not compute its layout (`layout_size` is `None`).
pub fn is_zero_sized(normalizable: bool, layout_size: Option<u64>) -> (r: Option<bool>)
    ensures
        r == if !normalizable {
            None
        } else {
            match layout_size {
                Some(s) => Some(s == 0),
                None => None,
            }
        },
{
    if !normalizable {
        return None;
    }
    match layout_size {
        Some(s) => Some(s == 0),
        None => None,
    }
}

/// The indices among the first `n` entries of `zero_sized` that are known to be zero-sized.
pub open spec fn zero_sized_indices(zero_sized: Seq<Option<bool>>, n: int) -> Seq<usize>
    decreases n,
{
    if n <= 0 {
        Seq::empty()
    } else {
        zero_sized_indices(zero_sized, n - 1) + if zero_sized[n - 1] == Some(true) {
            seq![(n - 1) as usize]
        } else {
            Seq::empty()
        }
    }
}

/// The items that the `zst_query` lint reports for a written type `ty`: when `ty` is a `Query`
/// whose data parameter is `data`, the indices of the items of `detuple(data)` that are
/// zero-sized. `zero_sized[i]` is [`is_zero_sized`] of item `i` with its references removed; an
/// unknown size counts as not zero-sized.
pub fn zst_query(ty: &Ty, in_external_macro: bool, data: Option<&Ty>, zero_sized: &Vec<Option<bool>>) -> (r:
    Vec<usize>)
    requires
        data matches Some(d) ==> zero_sized@.len() == spec_detuple(*d).len(),
    ensures
        r@ == if in_external_macro || !ty.is_bevy(BevyPath::Query) || data is None {
            Seq::empty()
        } else {
            zero_sized_indices(zero_sized@, zero_sized@.len() as int)
        },
{
    let mut out: Vec<usize> = Vec::new();
    if in_external_macro {
        return out;
    }
    if QueryKind::try_from_ty(ty).is_none() || data.is_none() {
        return out;
    }
    let mut i: usize = 0;
    while i < zero_sized.len()
        invariant
            i <= zero_sized@.len(),
            out@ == zero_sized_indices(zero_sized@, i as int),
        decreases zero_sized@.len() - i,
    {
        if zero_sized[i] == Some(true) {
            out.push(i);
        }
        i = i + 1;
        assert(out@ =~= zero_sized_indices(zero_sized@, i as int));
    }
    out
}

} // verus!
