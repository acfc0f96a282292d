//! Rule-engine component descriptors: the type queries.

use vstd::prelude::*;
use crate::error::ApiError;
use crate::text::{chars_of, concat_str, split, split_chars, string_of, trim, trim_chars};

verus! {

/// A single type query needs a type that is not blank.
pub fn check_component_type(component_type: &str) -> (r: Result<(), ApiError>)
    ensures
        (trim(component_type@).len() > 0) <==> r is Ok,
        r matches Err(e) ==> (e matches ApiError::BadRequest(m) && m@ == "componentType is required"@),
{
    let t = trim_chars(chars_of(component_type).as_slice());
    if t.len() == 0 {
        Err(ApiError::BadRequest("componentType is required".to_owned()))
    } else {
        Ok(())
    }
}

/// A descriptor missing by class name.
pub fn descriptor_not_found(clazz: &str) -> (e: ApiError)
    ensures
        e matches ApiError::NotFound(m) && m@ == "ComponentDescriptor ["@ + clazz@ + "] not found"@,
{
    let a = concat_str("ComponentDescriptor [", clazz);
    ApiError::NotFound(concat_str(a.as_str(), "] not found"))
}

/// What a multi-type query asks for.
pub enum ComponentQuery {
    /// Every descriptor (no types given).
    All,
    /// The descriptors of these types.
    Types(Vec<String>),
    /// Nothing (only separators were given).
    Nothing,
}

/// The trimmed, non-empty pieces of a comma-separated list, in order.
pub open spec fn listed_types(pieces: Seq<Seq<char>>) -> Seq<Seq<char>>
    decreases pieces.len(),
{
    if pieces.len() == 0 {
        Seq::empty()
    } else {
        let init = listed_types(pieces.drop_last());
        let t = trim(pieces.last());
        if t.len() > 0 { init.push(t) } else { init }
    }
}

pub open spec fn strings_view(v: Seq<String>) -> Seq<Seq<char>> {
    v.map_values(|s: String| s@)
}

/// A multi-type query: all descriptors when the list is missing or blank, else the
/// listed types, or nothing when none remains.
pub fn component_query(types: Option<String>) -> (r: ComponentQuery)
    ensures
        ({
            let t = match types { Some(s) => s@, None => Seq::<char>::empty() };
            &&& trim(t).len() == 0 ==> r is All
            &&& trim(t).len() > 0 && listed_types(split(t, ',')).len() == 0 ==> r is Nothing
            &&& trim(t).len() > 0 && listed_types(split(t, ',')).len() > 0 ==>
                (r matches ComponentQuery::Types(v) && strings_view(v@) == listed_types(split(t, ',')))
        }),
{
    let text: Vec<char> = match &types {
        Some(s) => chars_of(s.as_str()),
        None => Vec::new(),
    };
    if trim_chars(text.as_slice()).len() == 0 {
        return ComponentQuery::All;
    }
    let pieces = split_chars(text.as_slice(), ',');
    let ghost ps = split(text@, ',');
    let mut out: Vec<String> = Vec::new();
    let mut k: usize = 0;
    while k < pieces.len()
        invariant
            k <= pieces@.len(),
            pieces@.len() == ps.len(),
            forall|j: int| 0 <= j < pieces@.len() ==> #[trigger] pieces@[j]@ == ps[j],
            strings_view(out@) == listed_types(ps.subrange(0, k as int)),
        decreases pieces@.len() - k,
    {
        proof {
            assert(ps.subrange(0, k + 1).drop_last() =~= ps.subrange(0, k as int));
        }
        let t = trim_chars(pieces[k].as_slice());
        if t.len() > 0 {
            let s = string_of(t.as_slice());
            let ghost before = out@;
            out.push(s);
            proof {
                assert(strings_view(out@) =~= strings_view(before).push(s@));
            }
        }
        k = k + 1;
    }
    assert(ps.subrange(0, ps.len() as int) =~= ps);
    if out.len() == 0 {
        ComponentQuery::Nothing
    } else {
        ComponentQuery::Types(out)
    }
}

} // verus!
