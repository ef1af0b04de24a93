//! The parts of the code that lists the entities that meet filters.

use vstd::prelude::*;
use vstd::string::*;

use crate::filters_struct::{apply_local, filter_local, virtual_local};
use crate::list_by_fn::es_query;
use crate::options::column::Column;
use crate::text::literal;

verus! {

/// The table of the snapshots, for a query.
pub open spec fn snapshot_arg(table: Option<Seq<char>>) -> Seq<char> {
    match table {
        Some(table) => "snapshot_tbl = "@ + literal(table) + ","@,
        None => Seq::empty(),
    }
}

/// The query for one combination of the states of the filters.
pub open spec fn specialized_arm_code(pattern: Seq<char>, es_query: Seq<char>) -> Seq<char> {
    pattern + " => {
    "@ + es_query + ".fetch_n(op, first).await?
},"@
}

/// The query for one combination of the states of the filters.
pub fn specialized_arm(pattern: &str, es_query: &str) -> (res: String)
    ensures
        res@ == specialized_arm_code(pattern@, es_query@),
{
    pattern.to_string().concat(" => {
    ").concat(es_query).concat(".fetch_n(op, first).await?
},")
}

/// The query for all combinations that have none of their own.
pub open spec fn fallback_arm_code(pattern: Seq<char>, es_query: Seq<char>) -> Seq<char> {
    pattern + " => "@ + es_query + ".fetch_n(op, first).await?,"@
}

/// The query for all combinations that have none of their own.
pub fn fallback_arm(pattern: &str, es_query: &str) -> (res: String)
    ensures
        res@ == fallback_arm_code(pattern@, es_query@),
{
    pattern.to_string().concat(" => ").concat(es_query).concat(".fetch_n(op, first).await?,")
}

/// The choice of the query by the direction and the states of the filters.
pub open spec fn filters_match_code(
    scrutinee: Seq<char>,
    ascending: Seq<char>,
    descending: Seq<char>,
) -> Seq<char> {
    "match direction {
    es_entity::ListDirection::Ascending => match ("@ + scrutinee + ") {
        "@ + ascending + "
    },
    es_entity::ListDirection::Descending => match ("@ + scrutinee + ") {
        "@ + descending + "
    }
}"@
}

/// The choice of the query by the direction and the states of the filters.
pub fn filters_match(scrutinee: &str, ascending: &str, descending: &str) -> (res: String)
    ensures
        res@ == filters_match_code(scrutinee@, ascending@, descending@),
{
    "match direction {
    es_entity::ListDirection::Ascending => match (".to_string().concat(scrutinee).concat(") {
        ").concat(ascending).concat("
    },
    es_entity::ListDirection::Descending => match (").concat(scrutinee).concat(") {
        ").concat(descending).concat("
    }
}")
}

/// Takes the filter by a column whose type is an `Option` out of the struct.
pub open spec fn take_optional_filter_code(
    apply_name: Seq<char>,
    filter_name: Seq<char>,
    col_name: Seq<char>,
) -> Seq<char> {
    "let "@ + apply_name + " = filters."@ + col_name + ".is_some();
let "@ + filter_name + " = filters."@ + col_name + ".flatten();"@
}

/// Takes the filter by a column whose type is an `Option` out of the struct.
pub fn take_optional_filter(
    apply_name: &str,
    filter_name: &str,
    col_name: &str,
) -> (res: String)
    ensures
        res@ == take_optional_filter_code(apply_name@, filter_name@, col_name@),
{
    "let ".to_string().concat(apply_name).concat(" = filters.").concat(col_name).concat(".is_some();
let ").concat(filter_name).concat(" = filters.").concat(col_name).concat(".flatten();")
}

/// Takes a filter out of the struct.
pub open spec fn take_filter_code(filter_name: Seq<char>, col_name: Seq<char>) -> Seq<char> {
    "let "@ + filter_name + " = filters."@ + col_name + ";"@
}

/// Takes a filter out of the struct.
pub fn take_filter(filter_name: &str, col_name: &str) -> (res: String)
    ensures
        res@ == take_filter_code(filter_name@, col_name@),
{
    "let ".to_string().concat(filter_name).concat(" = filters.").concat(col_name).concat(";")
}

/// The function sorted by a column for callers without a connection.
pub open spec fn by_standalone_code(
    fn_name: Seq<char>,
    fn_in_op: Seq<char>,
    scope_fn_arg: Seq<char>,
    filters_ident: Seq<char>,
    cursor_mod: Seq<char>,
    cursor_ident: Seq<char>,
    entity: Seq<char>,
    error: Seq<char>,
    query_fn_get_op: Seq<char>,
    scope_fn_pass: Seq<char>,
) -> Seq<char> {
    "pub async fn "@ + fn_name + "(
    &self,
    "@ + scope_fn_arg + "
    filters: "@ + filters_ident + ",
    cursor: es_entity::PaginatedQueryArgs<"@ + cursor_mod + "::"@ + cursor_ident + ">,
    direction: es_entity::ListDirection,
) -> Result<es_entity::PaginatedQueryRet<"@ + entity + ", "@ + cursor_mod + "::"@ + cursor_ident + ">, "@ + error + "> {
    self."@ + fn_in_op + "("@ + query_fn_get_op + ", "@ + scope_fn_pass + " filters, cursor, direction).await
}"@
}

/// The function sorted by a column for callers without a connection.
pub fn by_standalone(
    fn_name: &str,
    fn_in_op: &str,
    scope_fn_arg: &str,
    filters_ident: &str,
    cursor_mod: &str,
    cursor_ident: &str,
    entity: &str,
    error: &str,
    query_fn_get_op: &str,
    scope_fn_pass: &str,
) -> (res: String)
    ensures
        res@ == by_standalone_code(
            fn_name@,
            fn_in_op@,
            scope_fn_arg@,
            filters_ident@,
            cursor_mod@,
            cursor_ident@,
            entity@,
            error@,
            query_fn_get_op@,
            scope_fn_pass@,
        ),
{
    "pub async fn ".to_string().concat(fn_name).concat("(
    &self,
    ").concat(scope_fn_arg).concat("
    filters: ").concat(filters_ident).concat(",
    cursor: es_entity::PaginatedQueryArgs<").concat(cursor_mod).concat("::").concat(cursor_ident).concat(">,
    direction: es_entity::ListDirection,
) -> Result<es_entity::PaginatedQueryRet<").concat(entity).concat(", ").concat(cursor_mod).concat("::").concat(cursor_ident).concat(">, ").concat(error).concat("> {
    self.").concat(fn_in_op).concat("(").concat(query_fn_get_op).concat(", ").concat(scope_fn_pass).concat(" filters, cursor, direction).await
}")
}

/// The page, with the cursor of the next one where there is one.
pub open spec fn page_with_next_code(
    cursor_mod: Seq<char>,
    cursor_ident: Seq<char>,
) -> Seq<char> {
    "let next_page = if has_next_page {
    entities.last().map("@ + cursor_mod + "::"@ + cursor_ident + "::from)
} else {
    None
};
Ok(es_entity::PaginatedQueryRet::new(entities, next_page, first))"@
}

/// The page, with the cursor of the next one where there is one.
pub fn page_with_next(cursor_mod: &str, cursor_ident: &str) -> (res: String)
    ensures
        res@ == page_with_next_code(cursor_mod@, cursor_ident@),
{
    "let next_page = if has_next_page {
    entities.last().map(".to_string().concat(cursor_mod).concat("::").concat(cursor_ident).concat("::from)
} else {
    None
};
Ok(es_entity::PaginatedQueryRet::new(entities, next_page, first))")
}

/// The page, with the cursor of its end.
pub open spec fn page_with_end_code(
    cursor_mod: Seq<char>,
    cursor_ident: Seq<char>,
) -> Seq<char> {
    "let end_cursor = entities.last().map("@ + cursor_mod + "::"@ + cursor_ident + "::from);
Ok(es_entity::PaginatedQueryRet::new(entities, has_next_page, end_cursor, first))"@
}

/// The page, with the cursor of its end.
pub fn page_with_end(cursor_mod: &str, cursor_ident: &str) -> (res: String)
    ensures
        res@ == page_with_end_code(cursor_mod@, cursor_ident@),
{
    "let end_cursor = entities.last().map(".to_string().concat(cursor_mod).concat("::").concat(cursor_ident).concat("::from);
Ok(es_entity::PaginatedQueryRet::new(entities, has_next_page, end_cursor, first))")
}

/// The functions sorted by a column.
pub open spec fn by_fns_code(
    standalone: Seq<char>,
    instrument_attr: Seq<char>,
    fn_in_op: Seq<char>,
    query_fn_generics: Seq<char>,
    query_fn_op_arg: Seq<char>,
    scope_fn_arg: Seq<char>,
    filters_ident: Seq<char>,
    cursor_mod: Seq<char>,
    cursor_ident: Seq<char>,
    entity: Seq<char>,
    error: Seq<char>,
    query_fn_op_traits: Seq<char>,
    scope_convert: Seq<char>,
    extract_has_cursor: Seq<char>,
    destructure_filters: Seq<char>,
    destructure_tokens: Seq<char>,
    record_fields: Seq<char>,
    match_expr: Seq<char>,
    post_hydrate_check: Seq<char>,
    record_results: Seq<char>,
    page: Seq<char>,
    error_recording: Seq<char>,
) -> Seq<char> {
    standalone + "
"@ + instrument_attr + "
pub async fn "@ + fn_in_op + " "@ + query_fn_generics + "(
    &self,
    "@ + query_fn_op_arg + ",
    "@ + scope_fn_arg + "
    filters: "@ + filters_ident + ",
    cursor: es_entity::PaginatedQueryArgs<"@ + cursor_mod + "::"@ + cursor_ident + ">,
    direction: es_entity::ListDirection,
) -> Result<es_entity::PaginatedQueryRet<"@ + entity + ", "@ + cursor_mod + "::"@ + cursor_ident + ">, "@ + error + ">
    where
        OP: "@ + query_fn_op_traits + "
{
    let __result: Result<es_entity::PaginatedQueryRet<"@ + entity + ", "@ + cursor_mod + "::"@ + cursor_ident + ">, "@ + error + "> = async {
        "@ + scope_convert + "
        "@ + extract_has_cursor + "
        "@ + destructure_filters + "
        "@ + destructure_tokens + "
        "@ + record_fields + "
        let (entities, has_next_page) = "@ + match_expr + ";
        "@ + post_hydrate_check + "
        "@ + record_results + "
        "@ + page + "
    }.await;
    "@ + error_recording + "
    __result
}"@
}

/// The functions sorted by a column.
pub fn by_fns(
    standalone: &str,
    instrument_attr: &str,
    fn_in_op: &str,
    query_fn_generics: &str,
    query_fn_op_arg: &str,
    scope_fn_arg: &str,
    filters_ident: &str,
    cursor_mod: &str,
    cursor_ident: &str,
    entity: &str,
    error: &str,
    query_fn_op_traits: &str,
    scope_convert: &str,
    extract_has_cursor: &str,
    destructure_filters: &str,
    destructure_tokens: &str,
    record_fields: &str,
    match_expr: &str,
    post_hydrate_check: &str,
    record_results: &str,
    page: &str,
    error_recording: &str,
) -> (res: String)
    ensures
        res@ == by_fns_code(
            standalone@,
            instrument_attr@,
            fn_in_op@,
            query_fn_generics@,
            query_fn_op_arg@,
            scope_fn_arg@,
            filters_ident@,
            cursor_mod@,
            cursor_ident@,
            entity@,
            error@,
            query_fn_op_traits@,
            scope_convert@,
            extract_has_cursor@,
            destructure_filters@,
            destructure_tokens@,
            record_fields@,
            match_expr@,
            post_hydrate_check@,
            record_results@,
            page@,
            error_recording@,
        ),
{
    standalone.to_string().concat("
").concat(instrument_attr).concat("
pub async fn ").concat(fn_in_op).concat(" ").concat(query_fn_generics).concat("(
    &self,
    ").concat(query_fn_op_arg).concat(",
    ").concat(scope_fn_arg).concat("
    filters: ").concat(filters_ident).concat(",
    cursor: es_entity::PaginatedQueryArgs<").concat(cursor_mod).concat("::").concat(cursor_ident).concat(">,
    direction: es_entity::ListDirection,
) -> Result<es_entity::PaginatedQueryRet<").concat(entity).concat(", ").concat(cursor_mod).concat("::").concat(cursor_ident).concat(">, ").concat(error).concat(">
    where
        OP: ").concat(query_fn_op_traits).concat("
{
    let __result: Result<es_entity::PaginatedQueryRet<").concat(entity).concat(", ").concat(cursor_mod).concat("::").concat(cursor_ident).concat(">, ").concat(error).concat("> = async {
        ").concat(scope_convert).concat("
        ").concat(extract_has_cursor).concat("
        ").concat(destructure_filters).concat("
        ").concat(destructure_tokens).concat("
        ").concat(record_fields).concat("
        let (entities, has_next_page) = ").concat(match_expr).concat(";
        ").concat(post_hydrate_check).concat("
        ").concat(record_results).concat("
        ").concat(page).concat("
    }.await;
    ").concat(error_recording).concat("
    __result
}")
}

/// The function that takes the sort column as a value, for callers without a
/// connection.
pub open spec fn sort_standalone_code(
    fn_name: Seq<char>,
    fn_in_op: Seq<char>,
    scope_fn_arg: Seq<char>,
    filters_name: Seq<char>,
    sort_by_name: Seq<char>,
    cursor_mod: Seq<char>,
    cursor_ident: Seq<char>,
    entity: Seq<char>,
    error: Seq<char>,
    query_fn_get_op: Seq<char>,
    scope_fn_pass: Seq<char>,
) -> Seq<char> {
    "pub async fn "@ + fn_name + "(
    &self,
    "@ + scope_fn_arg + "
    filters: "@ + filters_name + ",
    sort: es_entity::Sort<"@ + sort_by_name + ">,
    cursor: es_entity::PaginatedQueryArgs<"@ + cursor_mod + "::"@ + cursor_ident + ">,
) -> Result<es_entity::PaginatedQueryRet<"@ + entity + ", "@ + cursor_mod + "::"@ + cursor_ident + ">, "@ + error + ">
{
    self."@ + fn_in_op + "("@ + query_fn_get_op + ", "@ + scope_fn_pass + " filters, sort, cursor).await
}"@
}

/// The function that takes the sort column as a value, for callers without a
/// connection.
pub fn sort_standalone(
    fn_name: &str,
    fn_in_op: &str,
    scope_fn_arg: &str,
    filters_name: &str,
    sort_by_name: &str,
    cursor_mod: &str,
    cursor_ident: &str,
    entity: &str,
    error: &str,
    query_fn_get_op: &str,
    scope_fn_pass: &str,
) -> (res: String)
    ensures
        res@ == sort_standalone_code(
            fn_name@,
            fn_in_op@,
            scope_fn_arg@,
            filters_name@,
            sort_by_name@,
            cursor_mod@,
            cursor_ident@,
            entity@,
            error@,
            query_fn_get_op@,
            scope_fn_pass@,
        ),
{
    "pub async fn ".to_string().concat(fn_name).concat("(
    &self,
    ").concat(scope_fn_arg).concat("
    filters: ").concat(filters_name).concat(",
    sort: es_entity::Sort<").concat(sort_by_name).concat(">,
    cursor: es_entity::PaginatedQueryArgs<").concat(cursor_mod).concat("::").concat(cursor_ident).concat(">,
) -> Result<es_entity::PaginatedQueryRet<").concat(entity).concat(", ").concat(cursor_mod).concat("::").concat(cursor_ident).concat(">, ").concat(error).concat(">
{
    self.").concat(fn_in_op).concat("(").concat(query_fn_get_op).concat(", ").concat(scope_fn_pass).concat(" filters, sort, cursor).await
}")
}

/// The functions that take the sort column as a value.
pub open spec fn sort_fns_code(
    standalone: Seq<char>,
    instrument_attr: Seq<char>,
    fn_in_op: Seq<char>,
    query_fn_generics: Seq<char>,
    query_fn_op_arg: Seq<char>,
    scope_fn_arg: Seq<char>,
    filters_name: Seq<char>,
    sort_by_name: Seq<char>,
    cursor_mod: Seq<char>,
    cursor_ident: Seq<char>,
    entity: Seq<char>,
    error: Seq<char>,
    query_fn_op_traits: Seq<char>,
    scope_convert: Seq<char>,
    extract_has_cursor: Seq<char>,
    record_fields: Seq<char>,
    dispatch_arms: Seq<char>,
    record_results: Seq<char>,
    error_recording: Seq<char>,
) -> Seq<char> {
    standalone + "
"@ + instrument_attr + "
pub async fn "@ + fn_in_op + " "@ + query_fn_generics + "(
    &self,
    "@ + query_fn_op_arg + ",
    "@ + scope_fn_arg + "
    filters: "@ + filters_name + ",
    sort: es_entity::Sort<"@ + sort_by_name + ">,
    cursor: es_entity::PaginatedQueryArgs<"@ + cursor_mod + "::"@ + cursor_ident + ">,
) -> Result<es_entity::PaginatedQueryRet<"@ + entity + ", "@ + cursor_mod + "::"@ + cursor_ident + ">, "@ + error + ">
    where
        OP: "@ + query_fn_op_traits + "
{
    let __result: Result<es_entity::PaginatedQueryRet<"@ + entity + ", "@ + cursor_mod + "::"@ + cursor_ident + ">, "@ + error + "> = async {
        "@ + scope_convert + "
        "@ + extract_has_cursor + "
        let es_entity::Sort { by, direction } = sort;
        let es_entity::PaginatedQueryArgs { first, after } = cursor;
        "@ + record_fields + "
        use "@ + cursor_mod + "::"@ + cursor_ident + ";
        let res = match by {
            "@ + dispatch_arms + "
        };
        "@ + record_results + "
        Ok(res)
    }.await;
    "@ + error_recording + "
    __result
}"@
}

/// The functions that take the sort column as a value.
pub fn sort_fns(
    standalone: &str,
    instrument_attr: &str,
    fn_in_op: &str,
    query_fn_generics: &str,
    query_fn_op_arg: &str,
    scope_fn_arg: &str,
    filters_name: &str,
    sort_by_name: &str,
    cursor_mod: &str,
    cursor_ident: &str,
    entity: &str,
    error: &str,
    query_fn_op_traits: &str,
    scope_convert: &str,
    extract_has_cursor: &str,
    record_fields: &str,
    dispatch_arms: &str,
    record_results: &str,
    error_recording: &str,
) -> (res: String)
    ensures
        res@ == sort_fns_code(
            standalone@,
            instrument_attr@,
            fn_in_op@,
            query_fn_generics@,
            query_fn_op_arg@,
            scope_fn_arg@,
            filters_name@,
            sort_by_name@,
            cursor_mod@,
            cursor_ident@,
            entity@,
            error@,
            query_fn_op_traits@,
            scope_convert@,
            extract_has_cursor@,
            record_fields@,
            dispatch_arms@,
            record_results@,
            error_recording@,
        ),
{
    standalone.to_string().concat("
").concat(instrument_attr).concat("
pub async fn ").concat(fn_in_op).concat(" ").concat(query_fn_generics).concat("(
    &self,
    ").concat(query_fn_op_arg).concat(",
    ").concat(scope_fn_arg).concat("
    filters: ").concat(filters_name).concat(",
    sort: es_entity::Sort<").concat(sort_by_name).concat(">,
    cursor: es_entity::PaginatedQueryArgs<").concat(cursor_mod).concat("::").concat(cursor_ident).concat(">,
) -> Result<es_entity::PaginatedQueryRet<").concat(entity).concat(", ").concat(cursor_mod).concat("::").concat(cursor_ident).concat(">, ").concat(error).concat(">
    where
        OP: ").concat(query_fn_op_traits).concat("
{
    let __result: Result<es_entity::PaginatedQueryRet<").concat(entity).concat(", ").concat(cursor_mod).concat("::").concat(cursor_ident).concat(">, ").concat(error).concat("> = async {
        ").concat(scope_convert).concat("
        ").concat(extract_has_cursor).concat("
        let es_entity::Sort { by, direction } = sort;
        let es_entity::PaginatedQueryArgs { first, after } = cursor;
        ").concat(record_fields).concat("
        use ").concat(cursor_mod).concat("::").concat(cursor_ident).concat(";
        let res = match by {
            ").concat(dispatch_arms).concat("
        };
        ").concat(record_results).concat("
        Ok(res)
    }.await;
    ").concat(error_recording).concat("
    __result
}")
}

/// What is called for one of the sort columns.
pub open spec fn sort_arm_code(
    sort_by_name: Seq<char>,
    by_variant: Seq<char>,
    cursor_mod: Seq<char>,
    inner_cursor_ident: Seq<char>,
    proxy_body: Seq<char>,
    map_cursor: Seq<char>,
    cursor_ident: Seq<char>,
) -> Seq<char> {
    sort_by_name + "::"@ + by_variant + " => {
    let after = after.map("@ + cursor_mod + "::"@ + inner_cursor_ident + "::try_from).transpose()?;
    let query = es_entity::PaginatedQueryArgs { first, after };
    "@ + proxy_body + "."@ + map_cursor + "("@ + cursor_mod + "::"@ + cursor_ident + "::from)
}"@
}

/// What is called for one of the sort columns.
pub fn sort_arm(
    sort_by_name: &str,
    by_variant: &str,
    cursor_mod: &str,
    inner_cursor_ident: &str,
    proxy_body: &str,
    map_cursor: &str,
    cursor_ident: &str,
) -> (res: String)
    ensures
        res@ == sort_arm_code(
            sort_by_name@,
            by_variant@,
            cursor_mod@,
            inner_cursor_ident@,
            proxy_body@,
            map_cursor@,
            cursor_ident@,
        ),
{
    sort_by_name.to_string().concat("::").concat(by_variant).concat(" => {
    let after = after.map(").concat(cursor_mod).concat("::").concat(inner_cursor_ident).concat("::try_from).transpose()?;
    let query = es_entity::PaginatedQueryArgs { first, after };
    ").concat(proxy_body).concat(".").concat(map_cursor).concat("(").concat(cursor_mod).concat("::").concat(cursor_ident).concat("::from)
}")
}

/// The call of the list without filters.
pub open spec fn list_by_call_code(
    list_by_fn: Seq<char>,
    op_pass: Seq<char>,
    scope_pass: Seq<char>,
) -> Seq<char> {
    "self."@ + list_by_fn + "("@ + op_pass + " "@ + scope_pass + " query, direction).await?"@
}

/// The call of the list without filters.
pub fn list_by_call(list_by_fn: &str, op_pass: &str, scope_pass: &str) -> (res: String)
    ensures
        res@ == list_by_call_code(list_by_fn@, op_pass@, scope_pass@),
{
    "self.".to_string().concat(list_by_fn).concat("(").concat(op_pass).concat(" ").concat(scope_pass).concat(" query, direction).await?")
}

/// The choice of the function by which filters are applied.
pub open spec fn filters_choice_code(
    all_none: Seq<char>,
    list_by_call: Seq<char>,
    single_filter_branches: Seq<char>,
    multi_filter_fallback: Seq<char>,
) -> Seq<char> {
    "if "@ + all_none + " {
    "@ + list_by_call + "
}
"@ + single_filter_branches + "
"@ + multi_filter_fallback
}

/// The choice of the function by which filters are applied.
pub fn filters_choice(
    all_none: &str,
    list_by_call: &str,
    single_filter_branches: &str,
    multi_filter_fallback: &str,
) -> (res: String)
    ensures
        res@ == filters_choice_code(
            all_none@,
            list_by_call@,
            single_filter_branches@,
            multi_filter_fallback@,
        ),
{
    "if ".to_string().concat(all_none).concat(" {
    ").concat(list_by_call).concat("
}
").concat(single_filter_branches).concat("
").concat(multi_filter_fallback)
}

/// The call of the list for the only filter.
pub open spec fn only_filter_branch_code(
    fn_name: Seq<char>,
    op_pass: Seq<char>,
    scope_pass: Seq<char>,
    for_col_name: Seq<char>,
) -> Seq<char> {
    "else {
    self."@ + fn_name + "("@ + op_pass + " "@ + scope_pass + " filters."@ + for_col_name + ".unwrap(), query, direction).await?
}"@
}

/// The call of the list for the only filter.
pub fn only_filter_branch(
    fn_name: &str,
    op_pass: &str,
    scope_pass: &str,
    for_col_name: &str,
) -> (res: String)
    ensures
        res@ == only_filter_branch_code(fn_name@, op_pass@, scope_pass@, for_col_name@),
{
    "else {
    self.".to_string().concat(fn_name).concat("(").concat(op_pass).concat(" ").concat(scope_pass).concat(" filters.").concat(for_col_name).concat(".unwrap(), query, direction).await?
}")
}

/// The call of the list for one filter where no other is applied.
pub open spec fn single_filter_branch_code(
    others_none: Seq<char>,
    fn_name: Seq<char>,
    op_pass: Seq<char>,
    scope_pass: Seq<char>,
    for_col_name: Seq<char>,
) -> Seq<char> {
    "else if "@ + others_none + " {
    self."@ + fn_name + "("@ + op_pass + " "@ + scope_pass + " filters."@ + for_col_name + ".unwrap(), query, direction).await?
}"@
}

/// The call of the list for one filter where no other is applied.
pub fn single_filter_branch(
    others_none: &str,
    fn_name: &str,
    op_pass: &str,
    scope_pass: &str,
    for_col_name: &str,
) -> (res: String)
    ensures
        res@ == single_filter_branch_code(
            others_none@,
            fn_name@,
            op_pass@,
            scope_pass@,
            for_col_name@,
        ),
{
    "else if ".to_string().concat(others_none).concat(" {
    self.").concat(fn_name).concat("(").concat(op_pass).concat(" ").concat(scope_pass).concat(" filters.").concat(for_col_name).concat(".unwrap(), query, direction).await?
}")
}

/// The call of the list for several filters.
pub open spec fn several_filters_branch_code(
    list_for_filters_fn: Seq<char>,
    op_pass: Seq<char>,
    scope_pass: Seq<char>,
) -> Seq<char> {
    "else {
    self."@ + list_for_filters_fn + "("@ + op_pass + " "@ + scope_pass + " filters, query, direction).await?
}"@
}

/// The call of the list for several filters.
pub fn several_filters_branch(
    list_for_filters_fn: &str,
    op_pass: &str,
    scope_pass: &str,
) -> (res: String)
    ensures
        res@ == several_filters_branch_code(list_for_filters_fn@, op_pass@, scope_pass@),
{
    "else {
    self.".to_string().concat(list_for_filters_fn).concat("(").concat(op_pass).concat(" ").concat(scope_pass).concat(" filters, query, direction).await?
}")
}

/// The function sorted by a column, of the view that is bound to a scope, for
/// callers without a connection.
pub open spec fn by_delegate_standalone_code(
    fn_name: Seq<char>,
    filters_ident: Seq<char>,
    cursor_mod: Seq<char>,
    cursor_ident: Seq<char>,
    entity: Seq<char>,
    error: Seq<char>,
) -> Seq<char> {
    "pub async fn "@ + fn_name + "(
    &self,
    filters: "@ + filters_ident + ",
    cursor: es_entity::PaginatedQueryArgs<"@ + cursor_mod + "::"@ + cursor_ident + ">,
    direction: es_entity::ListDirection,
) -> Result<es_entity::PaginatedQueryRet<"@ + entity + ", "@ + cursor_mod + "::"@ + cursor_ident + ">, "@ + error + "> {
    self.repo."@ + fn_name + "(self.scope, filters, cursor, direction).await
}"@
}

/// The function sorted by a column, of the view that is bound to a scope, for
/// callers without a connection.
pub fn by_delegate_standalone(
    fn_name: &str,
    filters_ident: &str,
    cursor_mod: &str,
    cursor_ident: &str,
    entity: &str,
    error: &str,
) -> (res: String)
    ensures
        res@ == by_delegate_standalone_code(
            fn_name@,
            filters_ident@,
            cursor_mod@,
            cursor_ident@,
            entity@,
            error@,
        ),
{
    "pub async fn ".to_string().concat(fn_name).concat("(
    &self,
    filters: ").concat(filters_ident).concat(",
    cursor: es_entity::PaginatedQueryArgs<").concat(cursor_mod).concat("::").concat(cursor_ident).concat(">,
    direction: es_entity::ListDirection,
) -> Result<es_entity::PaginatedQueryRet<").concat(entity).concat(", ").concat(cursor_mod).concat("::").concat(cursor_ident).concat(">, ").concat(error).concat("> {
    self.repo.").concat(fn_name).concat("(self.scope, filters, cursor, direction).await
}")
}

/// The functions sorted by a column, of the view that is bound to a scope.
pub open spec fn by_delegates_code(
    standalone: Seq<char>,
    fn_in_op: Seq<char>,
    query_fn_generics: Seq<char>,
    query_fn_op_arg: Seq<char>,
    filters_ident: Seq<char>,
    cursor_mod: Seq<char>,
    cursor_ident: Seq<char>,
    entity: Seq<char>,
    error: Seq<char>,
    query_fn_op_traits: Seq<char>,
) -> Seq<char> {
    standalone + "
pub async fn "@ + fn_in_op + " "@ + query_fn_generics + "(
    &self,
    "@ + query_fn_op_arg + ",
    filters: "@ + filters_ident + ",
    cursor: es_entity::PaginatedQueryArgs<"@ + cursor_mod + "::"@ + cursor_ident + ">,
    direction: es_entity::ListDirection,
) -> Result<es_entity::PaginatedQueryRet<"@ + entity + ", "@ + cursor_mod + "::"@ + cursor_ident + ">, "@ + error + ">
    where
        OP: "@ + query_fn_op_traits + "
{
    self.repo."@ + fn_in_op + "(op, self.scope, filters, cursor, direction).await
}"@
}

/// The functions sorted by a column, of the view that is bound to a scope.
pub fn by_delegates(
    standalone: &str,
    fn_in_op: &str,
    query_fn_generics: &str,
    query_fn_op_arg: &str,
    filters_ident: &str,
    cursor_mod: &str,
    cursor_ident: &str,
    entity: &str,
    error: &str,
    query_fn_op_traits: &str,
) -> (res: String)
    ensures
        res@ == by_delegates_code(
            standalone@,
            fn_in_op@,
            query_fn_generics@,
            query_fn_op_arg@,
            filters_ident@,
            cursor_mod@,
            cursor_ident@,
            entity@,
            error@,
            query_fn_op_traits@,
        ),
{
    standalone.to_string().concat("
pub async fn ").concat(fn_in_op).concat(" ").concat(query_fn_generics).concat("(
    &self,
    ").concat(query_fn_op_arg).concat(",
    filters: ").concat(filters_ident).concat(",
    cursor: es_entity::PaginatedQueryArgs<").concat(cursor_mod).concat("::").concat(cursor_ident).concat(">,
    direction: es_entity::ListDirection,
) -> Result<es_entity::PaginatedQueryRet<").concat(entity).concat(", ").concat(cursor_mod).concat("::").concat(cursor_ident).concat(">, ").concat(error).concat(">
    where
        OP: ").concat(query_fn_op_traits).concat("
{
    self.repo.").concat(fn_in_op).concat("(op, self.scope, filters, cursor, direction).await
}")
}

/// The function that takes the sort column as a value, of the view that is
/// bound to a scope, for callers without a connection.
pub open spec fn sort_delegate_standalone_code(
    fn_name: Seq<char>,
    filters_ident: Seq<char>,
    sort_by_name: Seq<char>,
    cursor_mod: Seq<char>,
    cursor_ident: Seq<char>,
    entity: Seq<char>,
    error: Seq<char>,
) -> Seq<char> {
    "pub async fn "@ + fn_name + "(
    &self,
    filters: "@ + filters_ident + ",
    sort: es_entity::Sort<"@ + sort_by_name + ">,
    cursor: es_entity::PaginatedQueryArgs<"@ + cursor_mod + "::"@ + cursor_ident + ">,
) -> Result<es_entity::PaginatedQueryRet<"@ + entity + ", "@ + cursor_mod + "::"@ + cursor_ident + ">, "@ + error + "> {
    self.repo."@ + fn_name + "(self.scope, filters, sort, cursor).await
}"@
}

/// The function that takes the sort column as a value, of the view that is
/// bound to a scope, for callers without a connection.
pub fn sort_delegate_standalone(
    fn_name: &str,
    filters_ident: &str,
    sort_by_name: &str,
    cursor_mod: &str,
    cursor_ident: &str,
    entity: &str,
    error: &str,
) -> (res: String)
    ensures
        res@ == sort_delegate_standalone_code(
            fn_name@,
            filters_ident@,
            sort_by_name@,
            cursor_mod@,
            cursor_ident@,
            entity@,
            error@,
        ),
{
    "pub async fn ".to_string().concat(fn_name).concat("(
    &self,
    filters: ").concat(filters_ident).concat(",
    sort: es_entity::Sort<").concat(sort_by_name).concat(">,
    cursor: es_entity::PaginatedQueryArgs<").concat(cursor_mod).concat("::").concat(cursor_ident).concat(">,
) -> Result<es_entity::PaginatedQueryRet<").concat(entity).concat(", ").concat(cursor_mod).concat("::").concat(cursor_ident).concat(">, ").concat(error).concat("> {
    self.repo.").concat(fn_name).concat("(self.scope, filters, sort, cursor).await
}")
}

/// The functions that take the sort column as a value, of the view that is
/// bound to a scope.
pub open spec fn sort_delegates_code(
    standalone: Seq<char>,
    fn_in_op: Seq<char>,
    query_fn_generics: Seq<char>,
    query_fn_op_arg: Seq<char>,
    filters_ident: Seq<char>,
    sort_by_name: Seq<char>,
    cursor_mod: Seq<char>,
    cursor_ident: Seq<char>,
    entity: Seq<char>,
    error: Seq<char>,
    query_fn_op_traits: Seq<char>,
) -> Seq<char> {
    standalone + "
pub async fn "@ + fn_in_op + " "@ + query_fn_generics + "(
    &self,
    "@ + query_fn_op_arg + ",
    filters: "@ + filters_ident + ",
    sort: es_entity::Sort<"@ + sort_by_name + ">,
    cursor: es_entity::PaginatedQueryArgs<"@ + cursor_mod + "::"@ + cursor_ident + ">,
) -> Result<es_entity::PaginatedQueryRet<"@ + entity + ", "@ + cursor_mod + "::"@ + cursor_ident + ">, "@ + error + ">
    where
        OP: "@ + query_fn_op_traits + "
{
    self.repo."@ + fn_in_op + "(op, self.scope, filters, sort, cursor).await
}"@
}

/// The functions that take the sort column as a value, of the view that is
/// bound to a scope.
pub fn sort_delegates(
    standalone: &str,
    fn_in_op: &str,
    query_fn_generics: &str,
    query_fn_op_arg: &str,
    filters_ident: &str,
    sort_by_name: &str,
    cursor_mod: &str,
    cursor_ident: &str,
    entity: &str,
    error: &str,
    query_fn_op_traits: &str,
) -> (res: String)
    ensures
        res@ == sort_delegates_code(
            standalone@,
            fn_in_op@,
            query_fn_generics@,
            query_fn_op_arg@,
            filters_ident@,
            sort_by_name@,
            cursor_mod@,
            cursor_ident@,
            entity@,
            error@,
            query_fn_op_traits@,
        ),
{
    standalone.to_string().concat("
pub async fn ").concat(fn_in_op).concat(" ").concat(query_fn_generics).concat("(
    &self,
    ").concat(query_fn_op_arg).concat(",
    filters: ").concat(filters_ident).concat(",
    sort: es_entity::Sort<").concat(sort_by_name).concat(">,
    cursor: es_entity::PaginatedQueryArgs<").concat(cursor_mod).concat("::").concat(cursor_ident).concat(">,
) -> Result<es_entity::PaginatedQueryRet<").concat(entity).concat(", ").concat(cursor_mod).concat("::").concat(cursor_ident).concat(">, ").concat(error).concat(">
    where
        OP: ").concat(query_fn_op_traits).concat("
{
    self.repo.").concat(fn_in_op).concat("(op, self.scope, filters, sort, cursor).await
}")
}

/// The fields of a span for a list sorted by a column.
pub const FILTERS_BY_FIELDS: &'static str = "filters = tracing::field::debug(&filters), first, has_cursor, direction = tracing::field::debug(&direction), count = tracing::field::Empty, has_next_page = tracing::field::Empty, ids = tracing::field::Empty,";

/// The fields of a span for a list that takes the sort column as a value.
pub const FILTERS_SORT_FIELDS: &'static str = "filters = tracing::field::debug(&filters), sort_by = tracing::field::debug(&sort.by), direction = tracing::field::debug(&sort.direction), first, has_cursor, count = tracing::field::Empty, has_next_page = tracing::field::Empty, ids = tracing::field::Empty,";

/// Records which entities were read.
pub const RECORD_RESULT: &'static str = "let result_ids: Vec<_> = res.entities().iter().map(|e| &e.id).collect();
tracing::Span::current().record(\"count\", result_ids.len());
tracing::Span::current().record(\"has_next_page\", res.has_next_page());
tracing::Span::current().record(\"ids\", tracing::field::debug(&result_ids));";

/// What takes the filters by columns out of the struct.
pub open spec fn filters_taken(cols: Seq<Column>) -> Seq<Seq<char>> {
    Seq::new(
        cols.len(),
        |i: int|
            if cols[i].optional() {
                take_optional_filter_code(
                    apply_local(cols[i]),
                    filter_local(cols[i]),
                    cols[i].name@,
                )
            } else {
                take_filter_code(filter_local(cols[i]), cols[i].name@)
            },
    )
}

/// What takes the filters by conditions out of the struct.
pub open spec fn virtuals_taken(cols: Seq<Column>) -> Seq<Seq<char>> {
    Seq::new(cols.len(), |i: int| take_filter_code(virtual_local(cols[i]), cols[i].name@))
}

/// What takes the filters by conditions that take values out of the struct.
pub open spec fn values_taken(cols: Seq<Column>) -> Seq<Seq<char>> {
    Seq::new(cols.len(), |i: int| take_filter_code(filter_local(cols[i]), cols[i].name@))
}

/// What tells the states of the filters by conditions.
pub open spec fn virtual_scrutinees(bools: Seq<Column>, values: Seq<Column>) -> Seq<Seq<char>> {
    Seq::new(bools.len(), |i: int| virtual_local(bools[i])) + Seq::new(
        values.len(),
        |i: int| filter_local(values[i]) + ".is_some()"@,
    )
}

} // verus!
