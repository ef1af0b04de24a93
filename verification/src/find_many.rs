//! The function that finds the entities that meet one of several filters, and
//! takes the filter and the sort column as values.

use vstd::prelude::*;
use vstd::string::*;

use crate::combo_cursor::ComboCursor;
use crate::list_for_filter_fn::{
    filter_arms, filter_type, filter_variants, variants_text, CaseNames, FilterCases,
};
use crate::list_for_fn::ListForFn;
use crate::naming::{cased, number_form, pluralize, to_case, NameCase};
use crate::options::column::Column;
use crate::options::columns::columns_of;
use crate::options::delete::DeleteOption;
use crate::options::repository::RepositoryOptions;
use crate::text::{ended, join, joined};

verus! {

/// The filters that can be searched by: none, or a value of one of the columns.
pub struct ManyFilter<'a> {
    pub columns: Vec<&'a Column>,
    /// The plural of the entity's name.
    pub plural: String,
}

impl<'a> ManyFilter<'a> {
    /// The name of the type.
    pub open spec fn named(&self) -> Seq<char> {
        cased("find_many_"@ + self.plural@, NameCase::UpperCamel)
    }

    /// The type.
    #[verifier::opaque]
    pub open spec fn code(&self) -> Seq<char> {
        crate::list_for_filter_fn::filter_type_code(
            self.named(),
            ended(filter_variants(columns_of(self.columns@)), "\n"@),
        )
    }

    pub fn new(opts: &'a RepositoryOptions, columns: Vec<&'a Column>) -> (res: Self)
        ensures
            res.columns == columns,
            number_form(opts.entity_ident@, 2, res.plural@),
    {
        let (word, count) = opts.plural_request();
        ManyFilter { columns, plural: pluralize(word, count) }
    }

    /// The name of the type.
    pub fn ident(&self) -> (res: String)
        ensures
            res@ == self.named(),
    {
        let name = "find_many_".to_string().concat(self.plural.as_str());
        to_case(name.as_str(), NameCase::UpperCamel)
    }

    /// The variants of the filters by columns.
    pub fn variants(&self) -> (res: String)
        ensures
            res@ == ended(filter_variants(columns_of(self.columns@)), "\n"@),
    {
        variants_text(&self.columns)
    }

    /// Appends the type.
    pub fn to_tokens(&self, tokens: &mut String)
        ensures
            final(tokens)@ == old(tokens)@ + self.code(),
    {
        proof {
            reveal(ManyFilter::code);
        }
        tokens.append(filter_type(self.ident().as_str(), self.variants().as_str()).as_str());
    }
}

/// The function that finds the entities that meet a filter.
pub struct FindManyFn<'a> {
    pub filter: ManyFilter<'a>,
    pub entity: &'a str,
    pub error: String,
    pub list_for_fns: &'a Vec<ListForFn<'a>>,
    pub by_columns: Vec<&'a Column>,
    pub cursor: &'a ComboCursor,
    pub delete: DeleteOption,
    pub cursor_mod: String,
}

/// The function.
pub open spec fn find_many_fns_code(
    fn_name: Seq<char>,
    filter_name: Seq<char>,
    sort_by_name: Seq<char>,
    cursor_mod: Seq<char>,
    cursor_ident: Seq<char>,
    entity: Seq<char>,
    error: Seq<char>,
    variants: Seq<char>,
) -> Seq<char> {
    "pub async fn "@ + fn_name + "(
    &self,
    filter: "@ + filter_name + ",
    sort: es_entity::Sort<"@ + sort_by_name + ">,
    cursor: es_entity::PaginatedQueryArgs<"@ + cursor_mod + "::"@ + cursor_ident + ">,
) -> Result<es_entity::PaginatedQueryRet<"@ + entity + ", "@ + cursor_mod + "::"@ + cursor_ident + ">, "@ + error + ">
    where "@ + error + ": From<es_entity::CursorDestructureError>
{
    let es_entity::Sort { by, direction } = sort;
    let es_entity::PaginatedQueryArgs { first, after } = cursor;
    use "@ + cursor_mod + "::"@ + cursor_ident + ";
    let res = match (filter, by) {
        "@ + variants + "
    };
    Ok(res)
}"@
}

/// The function.
pub fn find_many_fns(
    fn_name: &str,
    filter_name: &str,
    sort_by_name: &str,
    cursor_mod: &str,
    cursor_ident: &str,
    entity: &str,
    error: &str,
    variants: &str,
) -> (res: String)
    ensures
        res@ == find_many_fns_code(
            fn_name@,
            filter_name@,
            sort_by_name@,
            cursor_mod@,
            cursor_ident@,
            entity@,
            error@,
            variants@,
        ),
{
    "pub async fn ".to_string().concat(fn_name).concat("(
    &self,
    filter: ").concat(filter_name).concat(",
    sort: es_entity::Sort<").concat(sort_by_name).concat(">,
    cursor: es_entity::PaginatedQueryArgs<").concat(cursor_mod).concat("::").concat(cursor_ident).concat(">,
) -> Result<es_entity::PaginatedQueryRet<").concat(entity).concat(", ").concat(cursor_mod).concat("::").concat(cursor_ident).concat(">, ").concat(error).concat(">
    where ").concat(error).concat(": From<es_entity::CursorDestructureError>
{
    let es_entity::Sort { by, direction } = sort;
    let es_entity::PaginatedQueryArgs { first, after } = cursor;
    use ").concat(cursor_mod).concat("::").concat(cursor_ident).concat(";
    let res = match (filter, by) {
        ").concat(variants).concat("
    };
    Ok(res)
}")
}

impl<'a> FindManyFn<'a> {
    /// The names that the function uses.
    pub open spec fn names(&self) -> CaseNames {
        CaseNames {
            filter: self.filter.named(),
            plural: self.filter.plural@,
            sort_by: self.cursor.sort_by_name@,
            cursor: self.cursor.ident@,
            cursor_mod: self.cursor_mod@,
        }
    }

    /// What the function for a variant chooses from.
    pub open spec fn arms(&self, variant: DeleteOption) -> Seq<char> {
        filter_arms(self.names(), self.list_for_fns@, columns_of(self.by_columns@), variant)
    }

    /// The function for a variant.
    pub open spec fn variant_code(&self, variant: DeleteOption) -> Seq<char> {
        find_many_fns_code(
            "find_many"@ + variant.postfix(),
            self.filter.named(),
            self.cursor.sort_by_name@,
            self.cursor_mod@,
            self.cursor.ident@,
            self.entity@,
            self.error@,
            self.arms(variant),
        )
    }

    /// The functions: the one that finds live entities, and where deleted ones
    /// can be found the one that does so.
    #[verifier::opaque]
    pub open spec fn code(&self) -> Seq<char> {
        joined(
            Seq::new(
                self.delete.variants().len(),
                |i: int| self.variant_code(self.delete.variants()[i]),
            ),
            "\n"@,
        )
    }

    pub fn new(
        opts: &'a RepositoryOptions,
        list_for_fns: &'a Vec<ListForFn<'a>>,
        for_columns: Vec<&'a Column>,
        by_columns: Vec<&'a Column>,
        cursor: &'a ComboCursor,
    ) -> (res: Self)
        ensures
            res.filter.columns == for_columns,
            res.entity@ == opts.entity_ident@,
            res.error@ == opts.entity_ident@ + "QueryError"@,
            res.list_for_fns == list_for_fns,
            res.by_columns == by_columns,
            res.cursor == cursor,
            res.delete == opts.delete,
            res.cursor_mod@ == cased(opts.entity_ident@ + "Cursor"@, NameCase::Snake),
    {
        FindManyFn {
            filter: ManyFilter::new(opts, for_columns),
            entity: opts.entity(),
            error: opts.query_error(),
            list_for_fns,
            by_columns,
            cursor,
            delete: opts.delete,
            cursor_mod: opts.cursor_mod(),
        }
    }

    /// What the function chooses from.
    pub fn cases(&self) -> (res: FilterCases<'_>)
        ensures
            res.names() == self.names(),
            res.list_for_fns == self.list_for_fns,
            *res.by_columns == self.by_columns,
    {
        FilterCases {
            filter_name: self.filter.ident(),
            plural: self.filter.plural.as_str(),
            list_for_fns: self.list_for_fns,
            by_columns: &self.by_columns,
            cursor: self.cursor,
            cursor_mod: self.cursor_mod.as_str(),
        }
    }

    /// Appends the functions.
    pub fn to_tokens(&self, tokens: &mut String)
        ensures
            final(tokens)@ == old(tokens)@ + self.code(),
    {
        proof {
            reveal(FindManyFn::code);
        }
        let cases = self.cases();
        let variants = self.delete.query_variants();
        let mut parts: Vec<String> = Vec::new();
        let mut i: usize = 0;
        while i < variants.len()
            invariant
                i <= variants.len(),
                variants@ == self.delete.variants(),
                cases.names() == self.names(),
                cases.list_for_fns == self.list_for_fns,
                *cases.by_columns == self.by_columns,
                parts.len() == i,
                forall|j: int|
                    0 <= j < i ==> (#[trigger] parts@[j])@ == self.variant_code(variants@[j]),
            decreases variants.len() - i,
        {
            let fn_name = "find_many".to_string().concat(
                variants[i].include_deletion_fn_postfix(),
            );
            parts.push(
                find_many_fns(
                    fn_name.as_str(),
                    cases.filter_name.as_str(),
                    self.cursor.sort_by_name(),
                    self.cursor_mod.as_str(),
                    self.cursor.ident(),
                    self.entity,
                    self.error.as_str(),
                    cases.generate(variants[i]).as_str(),
                ),
            );
            i = i + 1;
        }
        assert(parts.deep_view() =~= Seq::new(
            self.delete.variants().len(),
            |i: int| self.variant_code(self.delete.variants()[i]),
        ));
        tokens.append(join(&parts, "\n").as_str());
    }
}

} // verus!
