//! The function that lists the entities that meet one of several filters, and
//! takes the filter and the sort column as values.

use vstd::prelude::*;
use vstd::string::*;

use crate::combo_cursor::ComboCursor;
use crate::instrument::{trace, traced, EXTRACT_HAS_CURSOR, RECORD_PAGE};
use crate::list_for_fn::ListForFn;
use crate::naming::{cased, number_form, pluralize, to_case, NameCase};
use crate::options::column::Column;
use crate::options::columns::columns_of;
use crate::options::delete::DeleteOption;
use crate::options::repository::RepositoryOptions;
use crate::text::{end_each, ended, join, joined, literal, quote};
use crate::types::opt_text;

verus! {

/// The filters that a list can have: none, or a value of one of the columns.
pub struct Filter<'a> {
    pub columns: Vec<&'a Column>,
    /// The plural of the entity's name.
    pub plural: String,
}

/// The variant of a filter.
pub open spec fn filter_variant_code(tag: Seq<char>, ty: Seq<char>) -> Seq<char> {
    tag + "("@ + ty + "),"@
}

/// The variant of a filter.
fn filter_variant(tag: &str, ty: &str) -> (res: String)
    ensures
        res@ == filter_variant_code(tag@, ty@),
{
    tag.to_string().concat("(").concat(ty).concat("),")
}

/// The type of the filters.
pub open spec fn filter_type_code(ident: Seq<char>, variants: Seq<char>) -> Seq<char> {
    "#[derive(Debug)]
#[allow(clippy::enum_variant_names)]
pub enum "@ + ident + " {
    NoFilter,
    "@ + variants + "
}"@
}

/// The type of the filters.
pub fn filter_type(ident: &str, variants: &str) -> (res: String)
    ensures
        res@ == filter_type_code(ident@, variants@),
{
    "#[derive(Debug)]
#[allow(clippy::enum_variant_names)]
pub enum ".to_string().concat(ident).concat(" {
    NoFilter,
    ").concat(variants).concat("
}")
}

/// The tag of the filter by a column.
pub open spec fn filter_tag(c: Column) -> Seq<char> {
    cased("with_"@ + c.name@, NameCase::UpperCamel)
}

/// The variants of the filters by columns.
pub open spec fn filter_variants(cols: Seq<Column>) -> Seq<Seq<char>> {
    Seq::new(cols.len(), |i: int| filter_variant_code(filter_tag(cols[i]), cols[i].opts.ty.text@))
}

/// The tag of the filter by a column.
pub fn tag(column: &Column) -> (res: String)
    ensures
        res@ == filter_tag(*column),
{
    let name = "with_".to_string().concat(column.name());
    to_case(name.as_str(), NameCase::UpperCamel)
}

/// The variants of the filters by columns.
pub fn variants_text(columns: &Vec<&Column>) -> (res: String)
    ensures
        res@ == ended(filter_variants(columns_of(columns@)), "\n"@),
{
    let mut parts: Vec<String> = Vec::new();
    let mut i: usize = 0;
    while i < columns.len()
        invariant
            i <= columns.len(),
            parts.len() == i,
            forall|j: int|
                0 <= j < i ==> (#[trigger] parts@[j])@ == filter_variants(columns_of(columns@))[j],
        decreases columns.len() - i,
    {
        parts.push(
            filter_variant(tag(columns[i]).as_str(), columns[i].opts.ty.text.as_str()),
        );
        i = i + 1;
    }
    assert(parts.deep_view() =~= filter_variants(columns_of(columns@)));
    end_each(&parts, "\n")
}

impl<'a> Filter<'a> {
    /// The name of the type.
    pub open spec fn named(&self) -> Seq<char> {
        cased(self.plural@ + "_filter"@, NameCase::UpperCamel)
    }

    /// The type.
    #[verifier::opaque]
    pub open spec fn code(&self) -> Seq<char> {
        filter_type_code(
            self.named(),
            ended(filter_variants(columns_of(self.columns@)), "\n"@),
        )
    }

    pub fn new(opts: &'a RepositoryOptions, columns: Vec<&'a Column>) -> (res: Self)
        ensures
            res.columns == columns,
            number_form(opts.entity_ident@, 2, res.plural@),
    {
        let (word, count) = opts.plural_request();
        Filter { columns, plural: pluralize(word, count) }
    }

    /// The name of the type.
    pub fn ident(&self) -> (res: String)
        ensures
            res@ == self.named(),
    {
        let name = self.plural.clone().concat("_filter");
        to_case(name.as_str(), NameCase::UpperCamel)
    }

    /// The variants of the filters by columns.
    pub fn variants(&self) -> (res: String)
        ensures
            res@ == ended(filter_variants(columns_of(self.columns@)), "\n"@),
    {
        variants_text(&self.columns)
    }

    /// Appends the type.
    pub fn to_tokens(&self, tokens: &mut String)
        ensures
            final(tokens)@ == old(tokens)@ + self.code(),
    {
        proof {
            reveal(Filter::code);
        }
        tokens.append(filter_type(self.ident().as_str(), self.variants().as_str()).as_str());
    }
}

/// What a function that takes a filter and a sort column chooses from.
pub struct FilterCases<'a> {
    pub filter_name: String,
    /// The plural of the entity's name.
    pub plural: &'a str,
    pub list_for_fns: &'a Vec<ListForFn<'a>>,
    pub by_columns: &'a Vec<&'a Column>,
    pub cursor: &'a ComboCursor,
    pub cursor_mod: &'a str,
}

/// The choice of a filter and a sort column.
pub open spec fn case_arm_code(
    filter_name: Seq<char>,
    filter_pattern: Seq<char>,
    sort_by_name: Seq<char>,
    by_variant: Seq<char>,
    cursor_mod: Seq<char>,
    inner_cursor_ident: Seq<char>,
    fn_name: Seq<char>,
    filter_pass: Seq<char>,
    cursor_ident: Seq<char>,
) -> Seq<char> {
    "("@ + filter_name + "::"@ + filter_pattern + ", "@ + sort_by_name + "::"@ + by_variant + ") => {
    let after = after.map("@ + cursor_mod + "::"@ + inner_cursor_ident + "::try_from).transpose()?;
    let query = es_entity::PaginatedQueryArgs { first, after };
    let es_entity::PaginatedQueryRet {
        entities,
        has_next_page,
        end_cursor,
    } = self."@ + fn_name + "("@ + filter_pass + " query, direction).await?;
    es_entity::PaginatedQueryRet {
        entities,
        has_next_page,
        end_cursor: end_cursor.map("@ + cursor_mod + "::"@ + cursor_ident + "::from)
    }
}"@
}

/// The choice of a filter and a sort column.
pub fn case_arm(
    filter_name: &str,
    filter_pattern: &str,
    sort_by_name: &str,
    by_variant: &str,
    cursor_mod: &str,
    inner_cursor_ident: &str,
    fn_name: &str,
    filter_pass: &str,
    cursor_ident: &str,
) -> (res: String)
    ensures
        res@ == case_arm_code(
            filter_name@,
            filter_pattern@,
            sort_by_name@,
            by_variant@,
            cursor_mod@,
            inner_cursor_ident@,
            fn_name@,
            filter_pass@,
            cursor_ident@,
        ),
{
    "(".to_string().concat(filter_name).concat("::").concat(filter_pattern).concat(", ").concat(sort_by_name).concat("::").concat(by_variant).concat(") => {
    let after = after.map(").concat(cursor_mod).concat("::").concat(inner_cursor_ident).concat("::try_from).transpose()?;
    let query = es_entity::PaginatedQueryArgs { first, after };
    let es_entity::PaginatedQueryRet {
        entities,
        has_next_page,
        end_cursor,
    } = self.").concat(fn_name).concat("(").concat(filter_pass).concat(" query, direction).await?;
    es_entity::PaginatedQueryRet {
        entities,
        has_next_page,
        end_cursor: end_cursor.map(").concat(cursor_mod).concat("::").concat(cursor_ident).concat("::from)
    }
}")
}

/// The names that a function which takes a filter and a sort column uses: the
/// type of the filters, the plural of the entity's name, the choice of a sort
/// column, the cursor, and the module of the cursors.
pub struct CaseNames {
    pub filter: Seq<char>,
    pub plural: Seq<char>,
    pub sort_by: Seq<char>,
    pub cursor: Seq<char>,
    pub cursor_mod: Seq<char>,
}

/// The cursor of a list sorted by a column.
pub open spec fn inner_cursor(names: CaseNames, by: Column) -> Seq<char> {
    cased(names.plural + "_by_"@ + by.name@ + "_cursor"@, NameCase::UpperCamel)
}

/// The choice of a list with a filter.
pub open spec fn list_for_arm(names: CaseNames, f: ListForFn, variant: DeleteOption) -> Seq<char> {
    case_arm_code(
        names.filter,
        filter_tag(*f.for_column) + "(filter_value)"@,
        names.sort_by,
        cased(f.by_column.name@, NameCase::UpperCamel),
        names.cursor_mod,
        inner_cursor(names, *f.by_column),
        "list_for_"@ + f.for_column.name@ + "_by_"@ + f.by_column.name@ + variant.postfix(),
        "filter_value,"@,
        names.cursor,
    )
}

/// The choice of a list without a filter.
pub open spec fn list_by_arm(names: CaseNames, by: Column, variant: DeleteOption) -> Seq<char> {
    case_arm_code(
        names.filter,
        "NoFilter"@,
        names.sort_by,
        cased(by.name@, NameCase::UpperCamel),
        names.cursor_mod,
        inner_cursor(names, by),
        "list_by_"@ + by.name@ + variant.postfix(),
        ""@,
        names.cursor,
    )
}

/// The choices: each list with a filter, then the lists without.
pub open spec fn filter_arms(
    names: CaseNames,
    list_for_fns: Seq<ListForFn>,
    by_columns: Seq<Column>,
    variant: DeleteOption,
) -> Seq<char> {
    ended(
        Seq::new(
            list_for_fns.len(),
            |i: int| list_for_arm(names, list_for_fns[i], variant),
        ),
        "\n"@,
    ) + ended(
        Seq::new(by_columns.len(), |i: int| list_by_arm(names, by_columns[i], variant)),
        "\n"@,
    )
}

impl<'a> FilterCases<'a> {
    pub open spec fn names(&self) -> CaseNames {
        CaseNames {
            filter: self.filter_name@,
            plural: self.plural@,
            sort_by: self.cursor.sort_by_name@,
            cursor: self.cursor.ident@,
            cursor_mod: self.cursor_mod@,
        }
    }

    fn inner_cursor_text(&self, by: &Column) -> (res: String)
        ensures
            res@ == inner_cursor(self.names(), *by),
    {
        let name = self.plural.to_string().concat("_by_").concat(by.name()).concat("_cursor");
        to_case(name.as_str(), NameCase::UpperCamel)
    }

    /// The choices.
    pub fn generate(&self, variant: DeleteOption) -> (res: String)
        ensures
            res@ == filter_arms(
                self.names(),
                self.list_for_fns@,
                columns_of(self.by_columns@),
                variant,
            ),
    {
        let mut with: Vec<String> = Vec::new();
        let mut i: usize = 0;
        while i < self.list_for_fns.len()
            invariant
                i <= self.list_for_fns.len(),
                with.len() == i,
                forall|j: int|
                    0 <= j < i ==> (#[trigger] with@[j])@ == list_for_arm(
                        self.names(),
                        self.list_for_fns@[j],
                        variant,
                    ),
            decreases self.list_for_fns.len() - i,
        {
            let f = &self.list_for_fns[i];
            let pattern = tag(f.for_column).concat("(filter_value)");
            let fn_name = "list_for_".to_string().concat(f.for_column.name()).concat(
                "_by_",
            ).concat(f.by_column.name()).concat(variant.include_deletion_fn_postfix());
            with.push(
                case_arm(
                    self.filter_name.as_str(),
                    pattern.as_str(),
                    self.cursor.sort_by_name(),
                    to_case(f.by_column.name(), NameCase::UpperCamel).as_str(),
                    self.cursor_mod,
                    self.inner_cursor_text(f.by_column).as_str(),
                    fn_name.as_str(),
                    "filter_value,",
                    self.cursor.ident(),
                ),
            );
            i = i + 1;
        }
        assert(with.deep_view() =~= Seq::new(
            self.list_for_fns@.len(),
            |i: int| list_for_arm(self.names(), self.list_for_fns@[i], variant),
        ));
        let mut without: Vec<String> = Vec::new();
        let mut k: usize = 0;
        while k < self.by_columns.len()
            invariant
                k <= self.by_columns.len(),
                without.len() == k,
                forall|j: int|
                    0 <= j < k ==> (#[trigger] without@[j])@ == list_by_arm(
                        self.names(),
                        *self.by_columns@[j],
                        variant,
                    ),
            decreases self.by_columns.len() - k,
        {
            let by = self.by_columns[k];
            let fn_name = "list_by_".to_string().concat(by.name()).concat(
                variant.include_deletion_fn_postfix(),
            );
            without.push(
                case_arm(
                    self.filter_name.as_str(),
                    "NoFilter",
                    self.cursor.sort_by_name(),
                    to_case(by.name(), NameCase::UpperCamel).as_str(),
                    self.cursor_mod,
                    self.inner_cursor_text(by).as_str(),
                    fn_name.as_str(),
                    "",
                    self.cursor.ident(),
                ),
            );
            k = k + 1;
        }
        assert(without.deep_view() =~= Seq::new(
            columns_of(self.by_columns@).len(),
            |i: int| list_by_arm(self.names(), columns_of(self.by_columns@)[i], variant),
        ));
        end_each(&with, "\n").concat(end_each(&without, "\n").as_str())
    }
}

/// The function that lists the entities that meet a filter.
pub struct ListForFilterFn<'a> {
    pub filter: Filter<'a>,
    pub entity: &'a str,
    pub error: String,
    pub list_for_fns: &'a Vec<ListForFn<'a>>,
    pub by_columns: Vec<&'a Column>,
    pub cursor: &'a ComboCursor,
    pub delete: DeleteOption,
    pub cursor_mod: String,
    /// The repository's name in the spans, where functions are traced.
    pub repo_name_snake: Option<String>,
}

/// The attribute of the function where it is traced.
pub open spec fn list_for_filter_attr_code(
    span_name: Seq<char>,
    entity_name: Seq<char>,
) -> Seq<char> {
    "#[tracing::instrument(name = "@ + span_name + ", skip_all, fields(entity = "@ + entity_name + ", filter = tracing::field::debug(&filter), sort_by = tracing::field::debug(&sort.by), direction = tracing::field::debug(&sort.direction), first, has_cursor, count = tracing::field::Empty, has_next_page = tracing::field::Empty, ids = tracing::field::Empty, exception.message = tracing::field::Empty, exception.type = tracing::field::Empty))]"@
}

/// The attribute of the function where it is traced.
fn list_for_filter_attr(span_name: &str, entity_name: &str) -> (res: String)
    ensures
        res@ == list_for_filter_attr_code(span_name@, entity_name@),
{
    "#[tracing::instrument(name = ".to_string().concat(span_name).concat(", skip_all, fields(entity = ").concat(entity_name).concat(", filter = tracing::field::debug(&filter), sort_by = tracing::field::debug(&sort.by), direction = tracing::field::debug(&sort.direction), first, has_cursor, count = tracing::field::Empty, has_next_page = tracing::field::Empty, ids = tracing::field::Empty, exception.message = tracing::field::Empty, exception.type = tracing::field::Empty))]")
}

/// Records which entities were read.
pub const RECORD_PAGE_OF_RESULT: &'static str = "let result_ids: Vec<_> = res.entities.iter().map(|e| &e.id).collect();
tracing::Span::current().record(\"count\", result_ids.len());
tracing::Span::current().record(\"has_next_page\", res.has_next_page);
tracing::Span::current().record(\"ids\", tracing::field::debug(&result_ids));";

/// Records the exception of a function's result.
pub const EXCEPTION_RECORDING: &'static str = "if let Err(ref e) = __result {
    tracing::Span::current().record(\"exception.message\", tracing::field::display(e));
    tracing::Span::current().record(\"exception.type\", std::any::type_name_of_val(e));
}";

/// The page that the filter and the order choose.
pub open spec fn chosen_page_code(
    extract_has_cursor: Seq<char>,
    record_fields: Seq<char>,
    cursor_mod: Seq<char>,
    cursor_ident: Seq<char>,
    variants: Seq<char>,
    record_results: Seq<char>,
) -> Seq<char> {
    extract_has_cursor + "
let es_entity::Sort { by, direction } = sort;
let es_entity::PaginatedQueryArgs { first, after } = cursor;
"@ + record_fields + "
use "@ + cursor_mod + "::"@ + cursor_ident + ";
let res = match (filter, by) {
    "@ + variants + "
};
"@ + record_results + "
Ok(res)"@
}

/// The page that the filter and the order choose.
fn chosen_page(
    extract_has_cursor: &str,
    record_fields: &str,
    cursor_mod: &str,
    cursor_ident: &str,
    variants: &str,
    record_results: &str,
) -> (res: String)
    ensures
        res@ == chosen_page_code(
            extract_has_cursor@,
            record_fields@,
            cursor_mod@,
            cursor_ident@,
            variants@,
            record_results@,
        ),
{
    extract_has_cursor.to_string().concat("
let es_entity::Sort { by, direction } = sort;
let es_entity::PaginatedQueryArgs { first, after } = cursor;
").concat(record_fields).concat("
use ").concat(cursor_mod).concat("::").concat(cursor_ident).concat(";
let res = match (filter, by) {
    ").concat(variants).concat("
};
").concat(record_results).concat("
Ok(res)")
}

/// A page of which the span records a failure.
pub open spec fn recorded_page_code(
    entity: Seq<char>,
    cursor_mod: Seq<char>,
    cursor_ident: Seq<char>,
    error: Seq<char>,
    page: Seq<char>,
    error_recording: Seq<char>,
) -> Seq<char> {
    "let __result: Result<es_entity::PaginatedQueryRet<"@ + entity + ", "@ + cursor_mod + "::"@ + cursor_ident + ">, "@ + error + "> = async {
    "@ + page + "
}.await;
"@ + error_recording + "
__result"@
}

/// A page of which the span records a failure.
fn recorded_page(
    entity: &str,
    cursor_mod: &str,
    cursor_ident: &str,
    error: &str,
    page: &str,
    error_recording: &str,
) -> (res: String)
    ensures
        res@ == recorded_page_code(
            entity@,
            cursor_mod@,
            cursor_ident@,
            error@,
            page@,
            error_recording@,
        ),
{
    "let __result: Result<es_entity::PaginatedQueryRet<".to_string().concat(entity).concat(", ").concat(cursor_mod).concat("::").concat(cursor_ident).concat(">, ").concat(error).concat("> = async {
    ").concat(page).concat("
}.await;
").concat(error_recording).concat("
__result")
}

/// The function that lists by one of the filters.
pub open spec fn list_for_filter_fns_code(
    instrument_attr: Seq<char>,
    fn_name: Seq<char>,
    filter_name: Seq<char>,
    sort_by_name: Seq<char>,
    cursor_mod: Seq<char>,
    cursor_ident: Seq<char>,
    entity: Seq<char>,
    error: Seq<char>,
    body: Seq<char>,
) -> Seq<char> {
    instrument_attr + "
pub async fn "@ + fn_name + "(
    &self,
    filter: "@ + filter_name + ",
    sort: es_entity::Sort<"@ + sort_by_name + ">,
    cursor: es_entity::PaginatedQueryArgs<"@ + cursor_mod + "::"@ + cursor_ident + ">,
) -> Result<es_entity::PaginatedQueryRet<"@ + entity + ", "@ + cursor_mod + "::"@ + cursor_ident + ">, "@ + error + ">
    where "@ + error + ": From<es_entity::CursorDestructureError>
{
    "@ + body + "
}"@
}

/// The function that lists by one of the filters.
pub fn list_for_filter_fns(
    instrument_attr: &str,
    fn_name: &str,
    filter_name: &str,
    sort_by_name: &str,
    cursor_mod: &str,
    cursor_ident: &str,
    entity: &str,
    error: &str,
    body: &str,
) -> (res: String)
    ensures
        res@ == list_for_filter_fns_code(
            instrument_attr@,
            fn_name@,
            filter_name@,
            sort_by_name@,
            cursor_mod@,
            cursor_ident@,
            entity@,
            error@,
            body@,
        ),
{
    instrument_attr.to_string().concat("
pub async fn ").concat(fn_name).concat("(
    &self,
    filter: ").concat(filter_name).concat(",
    sort: es_entity::Sort<").concat(sort_by_name).concat(">,
    cursor: es_entity::PaginatedQueryArgs<").concat(cursor_mod).concat("::").concat(cursor_ident).concat(">,
) -> Result<es_entity::PaginatedQueryRet<").concat(entity).concat(", ").concat(cursor_mod).concat("::").concat(cursor_ident).concat(">, ").concat(error).concat(">
    where ").concat(error).concat(": From<es_entity::CursorDestructureError>
{
    ").concat(body).concat("
}")
}

impl<'a> ListForFilterFn<'a> {
    /// The names that the function uses.
    pub open spec fn names(&self) -> CaseNames {
        CaseNames {
            filter: self.filter.named(),
            plural: self.filter.plural@,
            sort_by: self.cursor.sort_by_name@,
            cursor: self.cursor.ident@,
            cursor_mod: self.cursor_mod@,
        }
    }

    /// What the function for a variant chooses from.
    pub open spec fn arms(&self, variant: DeleteOption) -> Seq<char> {
        filter_arms(self.names(), self.list_for_fns@, columns_of(self.by_columns@), variant)
    }

    /// The body of the function for a variant. Where spans are emitted they
    /// record the page, or why there is none.
    pub open spec fn body_code(&self, variant: DeleteOption) -> Seq<char> {
        let prefix = opt_text(self.repo_name_snake);
        let page = chosen_page_code(
            traced(prefix, EXTRACT_HAS_CURSOR@),
            traced(prefix, RECORD_PAGE@),
            self.cursor_mod@,
            self.cursor.ident@,
            self.arms(variant),
            traced(prefix, RECORD_PAGE_OF_RESULT@),
        );
        match prefix {
            Some(_) => recorded_page_code(
                self.entity@,
                self.cursor_mod@,
                self.cursor.ident@,
                self.error@,
                page,
                EXCEPTION_RECORDING@,
            ),
            None => page,
        }
    }

    /// The function for a variant.
    pub open spec fn variant_code(&self, variant: DeleteOption) -> Seq<char> {
        list_for_filter_fns_code(
            match opt_text(self.repo_name_snake) {
                Some(repo) => list_for_filter_attr_code(
                    literal(repo + ".list_for_filter"@),
                    literal(self.entity@),
                ),
                None => Seq::empty(),
            },
            "list_for_filter"@ + variant.postfix(),
            self.filter.named(),
            self.cursor.sort_by_name@,
            self.cursor_mod@,
            self.cursor.ident@,
            self.entity@,
            self.error@,
            self.body_code(variant),
        )
    }

    /// The functions: the one that lists live entities, and where deleted ones
    /// can be listed the one that does so.
    #[verifier::opaque]
    pub open spec fn code(&self) -> Seq<char> {
        joined(
            Seq::new(
                self.delete.variants().len(),
                |i: int| self.variant_code(self.delete.variants()[i]),
            ),
            "\n"@,
        )
    }

    pub fn new(
        opts: &'a RepositoryOptions,
        list_for_fns: &'a Vec<ListForFn<'a>>,
        for_columns: Vec<&'a Column>,
        by_columns: Vec<&'a Column>,
        cursor: &'a ComboCursor,
    ) -> (res: Self)
        ensures
            res.filter.columns == for_columns,
            res.entity@ == opts.entity_ident@,
            res.error@ == opts.entity_ident@ + "QueryError"@,
            res.list_for_fns == list_for_fns,
            res.by_columns == by_columns,
            res.cursor == cursor,
            res.delete == opts.delete,
            res.cursor_mod@ == cased(opts.entity_ident@ + "Cursor"@, NameCase::Snake),
            opt_text(res.repo_name_snake) == opts.span_prefix(),
    {
        ListForFilterFn {
            filter: Filter::new(opts, for_columns),
            entity: opts.entity(),
            error: opts.query_error(),
            list_for_fns,
            by_columns,
            cursor,
            delete: opts.delete,
            cursor_mod: opts.cursor_mod(),
            repo_name_snake: opts.instrumented_as(),
        }
    }

    /// What the function chooses from.
    pub fn cases(&self) -> (res: FilterCases<'_>)
        ensures
            res.names() == self.names(),
            res.list_for_fns == self.list_for_fns,
            *res.by_columns == self.by_columns,
    {
        FilterCases {
            filter_name: self.filter.ident(),
            plural: self.filter.plural.as_str(),
            list_for_fns: self.list_for_fns,
            by_columns: &self.by_columns,
            cursor: self.cursor,
            cursor_mod: self.cursor_mod.as_str(),
        }
    }

    fn body_text(&self, variant: DeleteOption, arms: &str) -> (res: String)
        requires
            arms@ == self.arms(variant),
        ensures
            res@ == self.body_code(variant),
    {
        let page = chosen_page(
            trace(&self.repo_name_snake, EXTRACT_HAS_CURSOR).as_str(),
            trace(&self.repo_name_snake, RECORD_PAGE).as_str(),
            self.cursor_mod.as_str(),
            self.cursor.ident(),
            arms,
            trace(&self.repo_name_snake, RECORD_PAGE_OF_RESULT).as_str(),
        );
        match &self.repo_name_snake {
            Some(_) => recorded_page(
                self.entity,
                self.cursor_mod.as_str(),
                self.cursor.ident(),
                self.error.as_str(),
                page.as_str(),
                EXCEPTION_RECORDING,
            ),
            None => page,
        }
    }

    fn variant_text(&self, variant: DeleteOption, arms: &str) -> (res: String)
        requires
            arms@ == self.arms(variant),
        ensures
            res@ == self.variant_code(variant),
    {
        let attr = match &self.repo_name_snake {
            Some(repo) => {
                let span_name = repo.clone().concat(".list_for_filter");
                list_for_filter_attr(
                    quote(span_name.as_str()).as_str(),
                    quote(self.entity).as_str(),
                )
            },
            None => String::new(),
        };
        let fn_name = "list_for_filter".to_string().concat(variant.include_deletion_fn_postfix());
        list_for_filter_fns(
            attr.as_str(),
            fn_name.as_str(),
            self.filter.ident().as_str(),
            self.cursor.sort_by_name(),
            self.cursor_mod.as_str(),
            self.cursor.ident(),
            self.entity,
            self.error.as_str(),
            self.body_text(variant, arms).as_str(),
        )
    }

    /// Appends the functions.
    pub fn to_tokens(&self, tokens: &mut String)
        ensures
            final(tokens)@ == old(tokens)@ + self.code(),
    {
        proof {
            reveal(ListForFilterFn::code);
        }
        let cases = self.cases();
        let variants = self.delete.query_variants();
        let mut parts: Vec<String> = Vec::new();
        let mut i: usize = 0;
        while i < variants.len()
            invariant
                i <= variants.len(),
                variants@ == self.delete.variants(),
                cases.names() == self.names(),
                cases.list_for_fns == self.list_for_fns,
                *cases.by_columns == self.by_columns,
                parts.len() == i,
                forall|j: int|
                    0 <= j < i ==> (#[trigger] parts@[j])@ == self.variant_code(variants@[j]),
            decreases variants.len() - i,
        {
            parts.push(
                self.variant_text(variants[i], cases.generate(variants[i]).as_str()),
            );
            i = i + 1;
        }
        assert(parts.deep_view() =~= Seq::new(
            self.delete.variants().len(),
            |i: int| self.variant_code(self.delete.variants()[i]),
        ));
        tokens.append(join(&parts, "\n").as_str());
    }
}

} // verus!
