//! The object-transformation hook of the linking pipeline.
//!
//! A registered [`ObjectTransformer`] is invoked immediately before an object
//! buffer is linked and may rewrite or replace the buffer in place. The
//! engine keeps at most one transformer, stored in a single registration
//! cell; [`object_transform_layer_transform_function`] is the bridge the
//! engine calls into that cell. When the transformer reports failure the
//! buffer is invalidated before the error propagates, so nothing later
//! touches contents the transformer may have abandoned.

use vstd::prelude::*;

use crate::error::LLVMError;
use crate::unit::ObjectBuffer;

verus! {

/// User-supplied logic applied to each object buffer before it is linked.
///
/// Implementations may be invoked from a thread the registering caller does
/// not control, and for the whole lifetime of the engine they are registered
/// with.
pub trait ObjectTransformer {
    /// Applies a transformation to `object_in_out`, leaving or replacing its
    /// contents, or reports failure.
    fn transform(&mut self, object_in_out: &mut ObjectBuffer) -> Result<(), LLVMError>;
}

/// Routes the engine's pre-link hook into the registration cell: with no
/// transformer registered the buffer passes through untouched; with one
/// registered, whatever contents the transformer leaves are what gets
/// linked, and on failure the buffer is invalidated before the transformer's
/// error propagates.
pub fn object_transform_layer_transform_function<T: ObjectTransformer>(
    ctx: &mut Option<T>,
    object_in_out: &mut ObjectBuffer,
) -> (r: Result<(), LLVMError>)
    ensures
        *old(ctx) is None ==> r is Ok && *final(object_in_out) == *old(object_in_out)
            && *final(ctx) is None,
        *final(ctx) is Some <==> *old(ctx) is Some,
        r is Err ==> final(object_in_out).defs@.len() == 0,
{
    match ctx {
        None => Ok(()),
        Some(transformer) => {
            match transformer.transform(object_in_out) {
                Ok(()) => Ok(()),
                Err(e) => {
                    object_in_out.invalidate();
                    Err(e)
                },
            }
        },
    }
}

} // verus!
