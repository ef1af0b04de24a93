//! The function that runs the hook for events that were written.

use vstd::prelude::*;
use vstd::string::*;

use crate::options::repository::{PostPersistHookConfig, RepositoryOptions};

verus! {

/// The function that runs the hook for events that were written.
pub struct PostPersistHook<'a> {
    pub event: &'a str,
    pub entity: &'a str,
    pub hook: &'a Option<PostPersistHookConfig>,
}

/// The function that runs the hook.
pub open spec fn persist_hook_fn_code(
    op_param: Seq<char>,
    entity: Seq<char>,
    event: Seq<char>,
    error_ty: Seq<char>,
    hook: Seq<char>,
) -> Seq<char> {
    "#[inline(always)]
async fn execute_post_persist_hook<OP>(
    &self,
    "@ + op_param + ",
    entity: &"@ + entity + ",
    new_events: es_entity::LastPersisted<'_, "@ + event + ">
) -> Result<(), "@ + error_ty + ">
    where
        OP: es_entity::AtomicOperation + ?Sized
{
    "@ + hook + "
}"@
}

/// The function that runs the hook.
fn persist_hook_fn(
    op_param: &str,
    entity: &str,
    event: &str,
    error_ty: &str,
    hook: &str,
) -> (res: String)
    ensures
        res@ == persist_hook_fn_code(op_param@, entity@, event@, error_ty@, hook@),
{
    "#[inline(always)]
async fn execute_post_persist_hook<OP>(
    &self,
    ".to_string().concat(op_param).concat(",
    entity: &").concat(entity).concat(",
    new_events: es_entity::LastPersisted<'_, ").concat(event).concat(">
) -> Result<(), ").concat(error_ty).concat(">
    where
        OP: es_entity::AtomicOperation + ?Sized
{
    ").concat(hook).concat("
}")
}

/// The call of the hook's method.
pub open spec fn call_hook_code(method: Seq<char>) -> Seq<char> {
    "self."@ + method + "(&mut op, entity, new_events).await?;
Ok(())"@
}

/// The call of the hook's method.
fn call_hook(method: &str) -> (res: String)
    ensures
        res@ == call_hook_code(method@),
{
    "self.".to_string().concat(method).concat("(&mut op, entity, new_events).await?;
Ok(())")
}

/// The call of the hook for the events of an entity.
pub open spec fn run_persist_hook_code(error: Seq<char>) -> Seq<char> {
    "self.execute_post_persist_hook(op, &entity, entity.events().last_persisted(n_events)).await.map_err("@ + error + "::PostPersistHookError)?;"@
}

/// The call of the hook for the events of an entity.
pub fn run_persist_hook(error: &str) -> (res: String)
    ensures
        res@ == run_persist_hook_code(error@),
{
    "self.execute_post_persist_hook(op, &entity, entity.events().last_persisted(n_events)).await.map_err(".to_string().concat(error).concat("::PostPersistHookError)?;")
}

impl<'a> PostPersistHook<'a> {
    /// The function: it calls the method of the hook, and does nothing
    /// without one.
    #[verifier::opaque]
    pub open spec fn code(&self) -> Seq<char> {
        match *self.hook {
            Some(config) => persist_hook_fn_code(
                "mut op: &mut OP"@,
                self.entity@,
                self.event@,
                config.error@,
                call_hook_code(config.method@),
            ),
            None => persist_hook_fn_code(
                "op: &mut OP"@,
                self.entity@,
                self.event@,
                "sqlx::Error"@,
                "Ok(())"@,
            ),
        }
    }

    /// Whether this is what the options of a repository ask for.
    pub open spec fn made_from(&self, opts: &RepositoryOptions) -> bool {
        &&& self.event@ == opts.event_text()
        &&& self.entity@ == opts.entity_ident@
        &&& *self.hook == opts.post_persist_hook
    }

    /// The function for a repository.
    pub fn from(opts: &'a RepositoryOptions) -> (res: Self)
        requires
            opts.ready(),
        ensures
            res.made_from(opts),
    {
        PostPersistHook {
            event: opts.event(),
            entity: opts.entity(),
            hook: &opts.post_persist_hook,
        }
    }

    /// Appends the function.
    pub fn to_tokens(&self, tokens: &mut String)
        ensures
            final(tokens)@ == old(tokens)@ + self.code(),
    {
        proof {
            reveal(PostPersistHook::code);
        }
        let code = match self.hook {
            Some(config) => persist_hook_fn(
                "mut op: &mut OP",
                self.entity,
                self.event,
                config.error.as_str(),
                call_hook(config.method.as_str()).as_str(),
            ),
            None => persist_hook_fn("op: &mut OP", self.entity, self.event, "sqlx::Error", "Ok(())"),
        };
        tokens.append(code.as_str());
    }
}

} // verus!
