use vstd::prelude::*;
use crate::uniforms::{Uniform, UniformTable, uniform_name};

verus! {

/// Whether `t` holds a handle for every transform uniform.
pub open spec fn holds_transforms<H>(t: Map<Seq<char>, H>) -> bool {
    &&& t.contains_key(uniform_name(Uniform::Model))
    &&& t.contains_key(uniform_name(Uniform::View))
    &&& t.contains_key(uniform_name(Uniform::Projection))
}

/// The handles that a frame sets, in the order model, view, projection;
/// `None` when one of them is not held.
pub fn frame_handles<H>(t: &UniformTable<H>) -> (r: Option<(&H, &H, &H)>)
    requires
        t.wf(),
    ensures
        r is Some <==> holds_transforms(t@),
        r matches Some((m, v, p)) ==> {
            &&& *m == t@[uniform_name(Uniform::Model)]
            &&& *v == t@[uniform_name(Uniform::View)]
            &&& *p == t@[uniform_name(Uniform::Projection)]
        },
{
    let m = t.get(Uniform::Model.name());
    let v = t.get(Uniform::View.name());
    let p = t.get(Uniform::Projection.name());
    match (m, v, p) {
        (Some(m), Some(v), Some(p)) => Some((m, v, p)),
        _ => None,
    }
}

} // verus!
