//! The functions that begin an operation.

use vstd::prelude::*;
use vstd::string::*;

verus! {

/// The functions that begin an operation.
pub struct Begin;

/// The functions that begin an operation.
pub const BEGIN_FNS: &'static str = "#[inline(always)]
pub async fn begin_op(&self) -> Result<es_entity::DbOp<'static>, sqlx::Error> {
    self.begin_op_with_clock(es_entity::clock::Clock::handle()).await
}
#[inline(always)]
pub async fn begin_op_with_clock(
    &self,
    clock: &es_entity::clock::ClockHandle,
) -> Result<es_entity::DbOp<'static>, sqlx::Error> {
    es_entity::DbOp::init_with_clock(self.pool(), clock).await
}";

impl Begin {
    /// Appends the functions.
    pub fn to_tokens(&self, tokens: &mut String)
        ensures
            final(tokens)@ == old(tokens)@ + BEGIN_FNS@,
    {
        tokens.append(BEGIN_FNS);
    }
}

} // verus!
