//! The functions of a repository that read and write the entities of a nested
//! one.

use vstd::prelude::*;
use vstd::string::*;

use crate::options::repository::{NestedFn, RepoField, RepositoryOptions};

verus! {

/// The functions that read and write the entities of a nested repository.
pub struct Nested<'a> {
    pub field: &'a RepoField,
    pub parent_modify_error: String,
}

/// The functions.
pub open spec fn nested_fns_code(
    pending_work_fn_name: Seq<char>,
    nested_repo_ty: Seq<char>,
    create_fn_name: Seq<char>,
    repo_field: Seq<char>,
    update_fn_name: Seq<char>,
    parent_modify_error: Seq<char>,
    find_fn_name: Seq<char>,
    find_include_deleted_fn_name: Seq<char>,
    delete_fn_name: Seq<char>,
) -> Seq<char> {
    "fn "@ + pending_work_fn_name + "<P>(entities: &mut [&mut P]) -> bool
    where
        P: es_entity::Parent<<"@ + nested_repo_ty + " as es_entity::EsRepo>::Entity>,
{
    for entity in entities.iter_mut() {
        if !entity.new_children_mut().is_empty() {
            return true;
        }
        let mut persisted: Vec<_> = entity.iter_persisted_children_mut().collect();
        if persisted.iter().any(|child| child.events().any_new()) {
            return true;
        }
        if <"@ + nested_repo_ty + " as es_entity::EsRepo>::has_pending_nested_work(&mut persisted) {
            return true;
        }
    }
    false
}
async fn "@ + create_fn_name + "<OP, P>(&self, op: &mut OP, entities: &mut [&mut P]) -> Result<(), <"@ + nested_repo_ty + " as es_entity::EsRepo>::CreateError>
    where
        P: es_entity::Parent<<"@ + nested_repo_ty + " as EsRepo>::Entity>,
        OP: es_entity::AtomicOperation
{
    let counts: Vec<usize> = entities
        .iter_mut()
        .map(|entity| entity.new_children_mut().len())
        .collect();
    if counts.iter().all(|n| *n == 0) {
        return Ok(());
    }
    let new_children: Vec<_> = entities
        .iter_mut()
        .flat_map(|entity| entity.new_children_mut().drain(..))
        .collect();
    let mut children = self."@ + repo_field + ".create_all_in_op(op, new_children).await?.into_iter();
    for (entity, n) in entities.iter_mut().zip(counts) {
        entity.inject_children(children.by_ref().take(n));
    }
    Ok(())
}
async fn "@ + update_fn_name + "<OP, P>(&self, op: &mut OP, entities: &mut [&mut P]) -> Result<(), "@ + parent_modify_error + ">
    where
        P: es_entity::Parent<<"@ + nested_repo_ty + " as EsRepo>::Entity>,
        OP: es_entity::AtomicOperation
{
    let persisted: Vec<_> = entities
        .iter_mut()
        .flat_map(|entity| entity.iter_persisted_children_mut())
        .collect();
    if !persisted.is_empty() {
        self."@ + repo_field + ".update_all_mut_in_op(op, persisted).await?;
    }
    self."@ + create_fn_name + "(op, entities).await?;
    Ok(())
}
async fn "@ + find_fn_name + "<OP, P, __EsErr>(op: &mut OP, entities: &mut [P]) -> Result<(), __EsErr>
    where
        OP: es_entity::AtomicOperation,
        P: es_entity::Parent<<"@ + nested_repo_ty + " as es_entity::EsRepo>::Entity> + es_entity::EsEntity,
        "@ + nested_repo_ty + ": es_entity::PopulateNested<<<P as es_entity::EsEntity>::Event as es_entity::EsEvent>::EntityId>,
        __EsErr: From<sqlx::Error> + From<es_entity::EntityHydrationError> + Send,
{
    let lookup = entities.iter_mut().map(|e| (e.events().entity_id.clone(), e)).collect();
    <"@ + nested_repo_ty + ">::populate_in_op::<_, _, __EsErr>(op, lookup).await?;
    Ok(())
}
async fn "@ + find_include_deleted_fn_name + "<OP, P, __EsErr>(op: &mut OP, entities: &mut [P]) -> Result<(), __EsErr>
    where
        OP: es_entity::AtomicOperation,
        P: es_entity::Parent<<"@ + nested_repo_ty + " as es_entity::EsRepo>::Entity> + es_entity::EsEntity,
        "@ + nested_repo_ty + ": es_entity::PopulateNested<<<P as es_entity::EsEntity>::Event as es_entity::EsEvent>::EntityId>,
        __EsErr: From<sqlx::Error> + From<es_entity::EntityHydrationError> + Send,
{
    let lookup = entities.iter_mut().map(|e| (e.events().entity_id.clone(), e)).collect();
    <"@ + nested_repo_ty + ">::populate_in_op_include_deleted::<_, _, __EsErr>(op, lookup).await?;
    Ok(())
}
async fn "@ + delete_fn_name + "<OP, P, __EsErr>(op: &mut OP, entity: &P) -> Result<(), __EsErr>
    where
        OP: es_entity::AtomicOperation,
        P: es_entity::EsEntity,
        "@ + nested_repo_ty + ": es_entity::CascadeDeleteNested<<<P as es_entity::EsEntity>::Event as es_entity::EsEvent>::EntityId>,
        __EsErr: From<sqlx::Error> + Send,
{
    <"@ + nested_repo_ty + ">::cascade_delete_in_op::<_, __EsErr>(op, &entity.events().entity_id).await?;
    Ok(())
}"@
}

/// The functions.
pub fn nested_fns(
    pending_work_fn_name: &str,
    nested_repo_ty: &str,
    create_fn_name: &str,
    repo_field: &str,
    update_fn_name: &str,
    parent_modify_error: &str,
    find_fn_name: &str,
    find_include_deleted_fn_name: &str,
    delete_fn_name: &str,
) -> (res: String)
    ensures
        res@ == nested_fns_code(
            pending_work_fn_name@,
            nested_repo_ty@,
            create_fn_name@,
            repo_field@,
            update_fn_name@,
            parent_modify_error@,
            find_fn_name@,
            find_include_deleted_fn_name@,
            delete_fn_name@,
        ),
{
    "fn ".to_string().concat(pending_work_fn_name).concat("<P>(entities: &mut [&mut P]) -> bool
    where
        P: es_entity::Parent<<").concat(nested_repo_ty).concat(" as es_entity::EsRepo>::Entity>,
{
    for entity in entities.iter_mut() {
        if !entity.new_children_mut().is_empty() {
            return true;
        }
        let mut persisted: Vec<_> = entity.iter_persisted_children_mut().collect();
        if persisted.iter().any(|child| child.events().any_new()) {
            return true;
        }
        if <").concat(nested_repo_ty).concat(" as es_entity::EsRepo>::has_pending_nested_work(&mut persisted) {
            return true;
        }
    }
    false
}
async fn ").concat(create_fn_name).concat("<OP, P>(&self, op: &mut OP, entities: &mut [&mut P]) -> Result<(), <").concat(nested_repo_ty).concat(" as es_entity::EsRepo>::CreateError>
    where
        P: es_entity::Parent<<").concat(nested_repo_ty).concat(" as EsRepo>::Entity>,
        OP: es_entity::AtomicOperation
{
    let counts: Vec<usize> = entities
        .iter_mut()
        .map(|entity| entity.new_children_mut().len())
        .collect();
    if counts.iter().all(|n| *n == 0) {
        return Ok(());
    }
    let new_children: Vec<_> = entities
        .iter_mut()
        .flat_map(|entity| entity.new_children_mut().drain(..))
        .collect();
    let mut children = self.").concat(repo_field).concat(".create_all_in_op(op, new_children).await?.into_iter();
    for (entity, n) in entities.iter_mut().zip(counts) {
        entity.inject_children(children.by_ref().take(n));
    }
    Ok(())
}
async fn ").concat(update_fn_name).concat("<OP, P>(&self, op: &mut OP, entities: &mut [&mut P]) -> Result<(), ").concat(parent_modify_error).concat(">
    where
        P: es_entity::Parent<<").concat(nested_repo_ty).concat(" as EsRepo>::Entity>,
        OP: es_entity::AtomicOperation
{
    let persisted: Vec<_> = entities
        .iter_mut()
        .flat_map(|entity| entity.iter_persisted_children_mut())
        .collect();
    if !persisted.is_empty() {
        self.").concat(repo_field).concat(".update_all_mut_in_op(op, persisted).await?;
    }
    self.").concat(create_fn_name).concat("(op, entities).await?;
    Ok(())
}
async fn ").concat(find_fn_name).concat("<OP, P, __EsErr>(op: &mut OP, entities: &mut [P]) -> Result<(), __EsErr>
    where
        OP: es_entity::AtomicOperation,
        P: es_entity::Parent<<").concat(nested_repo_ty).concat(" as es_entity::EsRepo>::Entity> + es_entity::EsEntity,
        ").concat(nested_repo_ty).concat(": es_entity::PopulateNested<<<P as es_entity::EsEntity>::Event as es_entity::EsEvent>::EntityId>,
        __EsErr: From<sqlx::Error> + From<es_entity::EntityHydrationError> + Send,
{
    let lookup = entities.iter_mut().map(|e| (e.events().entity_id.clone(), e)).collect();
    <").concat(nested_repo_ty).concat(">::populate_in_op::<_, _, __EsErr>(op, lookup).await?;
    Ok(())
}
async fn ").concat(find_include_deleted_fn_name).concat("<OP, P, __EsErr>(op: &mut OP, entities: &mut [P]) -> Result<(), __EsErr>
    where
        OP: es_entity::AtomicOperation,
        P: es_entity::Parent<<").concat(nested_repo_ty).concat(" as es_entity::EsRepo>::Entity> + es_entity::EsEntity,
        ").concat(nested_repo_ty).concat(": es_entity::PopulateNested<<<P as es_entity::EsEntity>::Event as es_entity::EsEvent>::EntityId>,
        __EsErr: From<sqlx::Error> + From<es_entity::EntityHydrationError> + Send,
{
    let lookup = entities.iter_mut().map(|e| (e.events().entity_id.clone(), e)).collect();
    <").concat(nested_repo_ty).concat(">::populate_in_op_include_deleted::<_, _, __EsErr>(op, lookup).await?;
    Ok(())
}
async fn ").concat(delete_fn_name).concat("<OP, P, __EsErr>(op: &mut OP, entity: &P) -> Result<(), __EsErr>
    where
        OP: es_entity::AtomicOperation,
        P: es_entity::EsEntity,
        ").concat(nested_repo_ty).concat(": es_entity::CascadeDeleteNested<<<P as es_entity::EsEntity>::Event as es_entity::EsEvent>::EntityId>,
        __EsErr: From<sqlx::Error> + Send,
{
    <").concat(nested_repo_ty).concat(">::cascade_delete_in_op::<_, __EsErr>(op, &entity.events().entity_id).await?;
    Ok(())
}")
}

impl<'a> Nested<'a> {
    /// The functions.
    #[verifier::opaque]
    pub open spec fn code(&self) -> Seq<char> {
        let label = self.field.label();
        nested_fns_code(
            NestedFn::PendingWork.name(label),
            self.field.ty.text@,
            NestedFn::Create.name(label),
            label,
            NestedFn::Update.name(label),
            self.parent_modify_error@,
            NestedFn::Find.name(label),
            NestedFn::FindIncludeDeleted.name(label),
            NestedFn::Delete.name(label),
        )
    }

    /// Whether this is what the options of a repository ask for.
    pub open spec fn made_from(&self, field: &RepoField, opts: &RepositoryOptions) -> bool {
        &&& self.field == field
        &&& self.parent_modify_error@ == opts.entity_ident@ + "ModifyError"@
    }

    pub fn new(field: &'a RepoField, opts: &'a RepositoryOptions) -> (res: Nested<'a>)
        ensures
            res.made_from(field, opts),
    {
        Nested { field, parent_modify_error: opts.modify_error() }
    }

    /// Appends the functions.
    pub fn to_tokens(&self, tokens: &mut String)
        requires
            self.field.ident is Some,
        ensures
            final(tokens)@ == old(tokens)@ + self.code(),
    {
        proof {
            reveal(Nested::code);
        }
        let code = nested_fns(
            self.field.pending_nested_work_fn_name().as_str(),
            self.field.ty.text.as_str(),
            self.field.create_nested_fn_name().as_str(),
            self.field.ident(),
            self.field.update_nested_fn_name().as_str(),
            self.parent_modify_error.as_str(),
            self.field.find_nested_fn_name().as_str(),
            self.field.find_nested_include_deleted_fn_name().as_str(),
            self.field.delete_nested_fn_name().as_str(),
        );
        tokens.append(code.as_str());
    }
}

} // verus!
