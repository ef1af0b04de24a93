//! The function that runs the hook for an entity that was read.

use vstd::prelude::*;
use vstd::string::*;

use crate::options::repository::{PostHydrateHookConfig, RepositoryOptions};

verus! {

/// The function that runs the hook for an entity that was read.
pub struct PostHydrateHook<'a> {
    pub entity: &'a str,
    pub hook: &'a Option<PostHydrateHookConfig>,
}

/// The function that runs the hook.
pub open spec fn hydrate_hook_fn_code(
    entity: Seq<char>,
    return_type: Seq<char>,
    hook: Seq<char>,
) -> Seq<char> {
    "#[inline(always)]
fn execute_post_hydrate_hook(
    &self,
    entity: &"@ + entity + ",
) -> Result<(), "@ + return_type + "> {
    "@ + hook + "
}"@
}

/// The function that runs the hook.
fn hydrate_hook_fn(entity: &str, return_type: &str, hook: &str) -> (res: String)
    ensures
        res@ == hydrate_hook_fn_code(entity@, return_type@, hook@),
{
    "#[inline(always)]
fn execute_post_hydrate_hook(
    &self,
    entity: &".to_string().concat(entity).concat(",
) -> Result<(), ").concat(return_type).concat("> {
    ").concat(hook).concat("
}")
}

/// The call of the hook for an entity.
pub open spec fn check_hydrated_code(error: Seq<char>) -> Seq<char> {
    "self.execute_post_hydrate_hook(&entity).map_err("@ + error + "::PostHydrateError)?;"@
}

/// The call of the hook for an entity.
pub fn check_hydrated(error: &str) -> (res: String)
    ensures
        res@ == check_hydrated_code(error@),
{
    "self.execute_post_hydrate_hook(&entity).map_err(".to_string().concat(error).concat("::PostHydrateError)?;")
}

/// The calls of the hook for several entities.
pub open spec fn check_all_hydrated_code(error: Seq<char>) -> Seq<char> {
    "for __entity in &entities {
    self.execute_post_hydrate_hook(__entity).map_err("@ + error + "::PostHydrateError)?;
}"@
}

/// The calls of the hook for several entities.
pub fn check_all_hydrated(error: &str) -> (res: String)
    ensures
        res@ == check_all_hydrated_code(error@),
{
    "for __entity in &entities {
    self.execute_post_hydrate_hook(__entity).map_err(".to_string().concat(error).concat("::PostHydrateError)?;
}")
}

impl<'a> PostHydrateHook<'a> {
    /// The function: it calls the method of the hook, and does nothing
    /// without one.
    #[verifier::opaque]
    pub open spec fn code(&self) -> Seq<char> {
        match *self.hook {
            Some(config) => hydrate_hook_fn_code(
                self.entity@,
                config.error@,
                "self."@ + config.method@ + "(entity)"@,
            ),
            None => hydrate_hook_fn_code(self.entity@, "std::convert::Infallible"@, "Ok(())"@),
        }
    }

    /// Whether this is what the options of a repository ask for.
    pub open spec fn made_from(&self, opts: &RepositoryOptions) -> bool {
        &&& self.entity@ == opts.entity_ident@
        &&& *self.hook == opts.post_hydrate_hook
    }

    /// The function for a repository.
    pub fn from(opts: &'a RepositoryOptions) -> (res: Self)
        ensures
            res.made_from(opts),
    {
        PostHydrateHook { entity: opts.entity(), hook: &opts.post_hydrate_hook }
    }

    /// Appends the function.
    pub fn to_tokens(&self, tokens: &mut String)
        ensures
            final(tokens)@ == old(tokens)@ + self.code(),
    {
        proof {
            reveal(PostHydrateHook::code);
        }
        let code = match self.hook {
            Some(config) => {
                let call = "self.".to_string().concat(config.method.as_str()).concat("(entity)");
                hydrate_hook_fn(self.entity, config.error.as_str(), call.as_str())
            },
            None => hydrate_hook_fn(self.entity, "std::convert::Infallible", "Ok(())"),
        };
        tokens.append(code.as_str());
    }
}

} // verus!
