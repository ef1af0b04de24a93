//! How a list for a combination of filters chooses its query.

use vstd::prelude::*;
use vstd::string::*;

use crate::filter_states::{
    filter_combos, value_combos, virtual_combos, FilterState, ValueVirtualState, VirtualState,
};
use crate::filters_code::{filters_taken, values_taken, virtual_scrutinees, virtuals_taken};
use crate::filters_struct::{
    all_patterns, filter_scrutinees, none_checks, others, paired, virtual_patterns, with_any_states,
    with_filters,
};
use crate::list_for_filter_fn::{filter_arms, list_by_arm, list_for_arm, CaseNames};
use crate::list_for_filters_fn::{scope_bound, ListForFiltersFn, QueryCase};
use crate::list_for_fn::ListForFn;
use crate::listing::variant_of;
use crate::naming::{cased, NameCase};
use crate::options::column::Column;
use crate::options::columns::columns_of;
use crate::options::delete::DeleteOption;
use crate::queries::{consists_of, ends_with, hydration_check, starts_extended, starts_with};
use crate::scope::ScopeCol;
use crate::scoping::{goes_by_scope, scopes_are_dispatched};
use crate::text::{
    ended, ended_holds, in_order, in_order_extended, in_order_within, joined, occurs, occurs_behind,
    occurs_extended, occurs_itself, occurs_within, only_if,
};

verus! {

/// The arm for a combination of the states of all filters that has a query of its
/// own.
pub open spec fn own_arm(
    f: &ListForFiltersFn,
    case: QueryCase,
    virtuals: Seq<VirtualState>,
    values: Seq<ValueVirtualState>,
    combo: Seq<FilterState>,
) -> Seq<char> {
    "("@ + ended(all_patterns(f.fcols(), combo) + virtual_patterns(virtuals, values), ", "@)
        + ") => {\n    "@ + f.call(
        case,
        with_filters(f.fcols(), combo, scope_bound(case.scope)),
        virtuals,
        values,
    ) + ".fetch_n(op, first).await?\n},"@
}

/// The arm for all states of the filters by columns, with the filters by
/// conditions in the given states.
pub open spec fn common_arm(
    f: &ListForFiltersFn,
    case: QueryCase,
    virtuals: Seq<VirtualState>,
    values: Seq<ValueVirtualState>,
) -> Seq<char> {
    (if f.virtual_columns.len() == 0 {
        "_"@
    } else {
        "(.., "@ + ended(virtual_patterns(virtuals, values), ", "@) + ")"@
    }) + " => "@ + f.call(
        case,
        with_any_states(f.fcols(), scope_bound(case.scope)),
        virtuals,
        values,
    ) + ".fetch_n(op, first).await?,"@
}

proof fn filter_arm_is_there(
    f: &ListForFiltersFn,
    case: QueryCase,
    virtuals: Seq<VirtualState>,
    values: Seq<ValueVirtualState>,
    combos: Seq<Seq<FilterState>>,
    i: int,
)
    requires
        0 <= i < combos.len(),
        f.specialized(combos[i], case.scope),
    ensures
        occurs(
            f.filter_arms(case, virtuals, values, combos),
            own_arm(f, case, virtuals, values, combos[i]),
        ),
    decreases combos.len(),
{
    let front = f.filter_arms(case, virtuals, values, combos.drop_last());
    let all = f.filter_arms(case, virtuals, values, combos);
    let arm = own_arm(f, case, virtuals, values, combos[i]);
    let combo = combos.last();
    let more = crate::filters_code::specialized_arm_code(
        "("@ + ended(all_patterns(f.fcols(), combo) + virtual_patterns(virtuals, values), ", "@)
            + ")"@,
        f.call(
            case,
            with_filters(f.fcols(), combo, scope_bound(case.scope)),
            virtuals,
            values,
        ),
    );
    if i < combos.len() - 1 {
        assert(combos.drop_last()[i] == combos[i]);
        filter_arm_is_there(f, case, virtuals, values, combos.drop_last(), i);
        if f.specialized(combo, case.scope) {
            assert(all == front + more + "\n"@);
            occurs_extended(front, more, arm);
            occurs_extended(front + more, "\n"@, arm);
        }
    } else {
        reveal_strlit(")");
        reveal_strlit(" => {\n    ");
        reveal_strlit(") => {\n    ");
        assert(") => {\n    "@ =~= ")"@ + " => {\n    "@);
        assert(more =~= arm);
        assert(all == front + more + "\n"@);
        occurs_extended(front, more, arm);
        occurs_extended(front + more, "\n"@, arm);
    }
}

proof fn value_arm_is_there(
    f: &ListForFiltersFn,
    case: QueryCase,
    virtuals: Seq<VirtualState>,
    combos: Seq<Seq<ValueVirtualState>>,
    i: int,
    k: int,
)
    requires
        0 <= i < combos.len(),
        0 <= k < filter_combos(f.fcols()).len(),
        f.specialized(filter_combos(f.fcols())[k], case.scope),
    ensures
        occurs(
            f.value_arms(case, virtuals, combos),
            own_arm(f, case, virtuals, combos[i], filter_combos(f.fcols())[k]),
        ),
    decreases combos.len(),
{
    let front = f.value_arms(case, virtuals, combos.drop_last());
    let filters = filter_combos(f.fcols());
    let more = f.filter_arms(case, virtuals, combos.last(), filters);
    let arm = own_arm(f, case, virtuals, combos[i], filters[k]);
    if i < combos.len() - 1 {
        assert(combos.drop_last()[i] == combos[i]);
        value_arm_is_there(f, case, virtuals, combos.drop_last(), i, k);
        occurs_extended(front, more, arm);
    } else {
        filter_arm_is_there(f, case, virtuals, combos.last(), filters, k);
        occurs_behind(front, more, arm);
    }
}

proof fn virtual_arm_is_there(
    f: &ListForFiltersFn,
    case: QueryCase,
    combos: Seq<Seq<VirtualState>>,
    i: int,
    j: int,
    k: int,
)
    requires
        0 <= i < combos.len(),
        0 <= j < value_combos(f.vcols().len()).len(),
        0 <= k < filter_combos(f.fcols()).len(),
        f.specialized(filter_combos(f.fcols())[k], case.scope),
    ensures
        occurs(
            f.virtual_arms(case, combos),
            own_arm(
                f,
                case,
                combos[i],
                value_combos(f.vcols().len())[j],
                filter_combos(f.fcols())[k],
            ),
        ),
    decreases combos.len(),
{
    let front = f.virtual_arms(case, combos.drop_last());
    let values = value_combos(f.vcols().len());
    let more = f.value_arms(case, combos.last(), values);
    let arm = own_arm(f, case, combos[i], values[j], filter_combos(f.fcols())[k]);
    if i < combos.len() - 1 {
        assert(combos.drop_last()[i] == combos[i]);
        virtual_arm_is_there(f, case, combos.drop_last(), i, j, k);
        occurs_extended(front, more, arm);
    } else {
        value_arm_is_there(f, case, combos.last(), values, j, k);
        occurs_behind(front, more, arm);
    }
}

proof fn common_arm_is_written(
    f: &ListForFiltersFn,
    case: QueryCase,
    virtuals: Seq<VirtualState>,
    values: Seq<ValueVirtualState>,
)
    ensures
        occurs(
            f.fallback_code(case, virtuals, values),
            common_arm(f, case, virtuals, values),
        ),
{
    let none = Seq::<char>::empty();
    let arm = common_arm(f, case, virtuals, values);
    assert(f.fallback_code(case, virtuals, values) =~= none + arm + "\n"@);
}

proof fn value_fallback_is_there(
    f: &ListForFiltersFn,
    case: QueryCase,
    virtuals: Seq<VirtualState>,
    combos: Seq<Seq<ValueVirtualState>>,
    i: int,
)
    requires
        0 <= i < combos.len(),
    ensures
        occurs(
            f.value_fallbacks(case, virtuals, combos),
            common_arm(f, case, virtuals, combos[i]),
        ),
    decreases combos.len(),
{
    let front = f.value_fallbacks(case, virtuals, combos.drop_last());
    let more = f.fallback_code(case, virtuals, combos.last());
    let arm = common_arm(f, case, virtuals, combos[i]);
    if i < combos.len() - 1 {
        assert(combos.drop_last()[i] == combos[i]);
        value_fallback_is_there(f, case, virtuals, combos.drop_last(), i);
        occurs_extended(front, more, arm);
    } else {
        common_arm_is_written(f, case, virtuals, combos.last());
        occurs_behind(front, more, arm);
    }
}

proof fn virtual_fallback_is_there(
    f: &ListForFiltersFn,
    case: QueryCase,
    combos: Seq<Seq<VirtualState>>,
    i: int,
    j: int,
)
    requires
        0 <= i < combos.len(),
        0 <= j < value_combos(f.vcols().len()).len(),
    ensures
        occurs(
            f.virtual_fallbacks(case, combos),
            common_arm(f, case, combos[i], value_combos(f.vcols().len())[j]),
        ),
    decreases combos.len(),
{
    let front = f.virtual_fallbacks(case, combos.drop_last());
    let values = value_combos(f.vcols().len());
    let more = f.value_fallbacks(case, combos.last(), values);
    let arm = common_arm(f, case, combos[i], values[j]);
    if i < combos.len() - 1 {
        assert(combos.drop_last()[i] == combos[i]);
        virtual_fallback_is_there(f, case, combos.drop_last(), i, j);
        occurs_extended(front, more, arm);
    } else {
        value_fallback_is_there(f, case, combos.last(), values, j);
        occurs_behind(front, more, arm);
    }
}

/// Every combination of the states of all filters has an arm: one with a query of
/// its own where an index serves it, and otherwise the one for all states of the
/// filters by columns. The arms for all states come behind the others.
pub proof fn combinations_have_arms(f: &ListForFiltersFn, case: QueryCase, i: int, j: int, k: int)
    requires
        0 <= i < virtual_combos(f.bcols().len()).len(),
        0 <= j < value_combos(f.vcols().len()).len(),
        0 <= k < filter_combos(f.fcols()).len(),
    ensures
        ({
            let virtuals = virtual_combos(f.bcols().len())[i];
            let values = value_combos(f.vcols().len())[j];
            let combo = filter_combos(f.fcols())[k];
            if f.specialized(combo, case.scope) {
                occurs(
                    f.virtual_arms(case, virtual_combos(f.bcols().len())),
                    own_arm(f, case, virtuals, values, combo),
                )
            } else {
                occurs(f.fallbacks(case), common_arm(f, case, virtuals, values))
            }
        }),
        f.case_arms(case) == f.virtual_arms(case, virtual_combos(f.bcols().len())) + f.fallbacks(
            case,
        ),
{
    let combo = filter_combos(f.fcols())[k];
    if f.specialized(combo, case.scope) {
        virtual_arm_is_there(f, case, virtual_combos(f.bcols().len()), i, j, k);
    } else {
        assert(!f.all_specialized(case.scope));
        virtual_fallback_is_there(f, case, virtual_combos(f.bcols().len()), i, j);
    }
}

/// The query is chosen by the direction that is asked for, and then by the states
/// of the filters.
pub proof fn filters_directions(
    f: &ListForFiltersFn,
    by: &Column,
    with_deleted: bool,
    scope: Option<&ScopeCol>,
)
    ensures
        ({
            let variant = variant_of(with_deleted);
            let states = ended(
                filter_scrutinees(f.fcols()) + virtual_scrutinees(f.bcols(), f.vcols()),
                ", "@,
            );
            let arms = f.direction_arms(by, variant, scope);
            &&& starts_with(arms, "match direction {"@)
            &&& in_order(
                arms,
                "es_entity::ListDirection::Ascending => match ("@ + states + ") {\n        "@
                    + f.case_arms((QueryCase { by, variant, scope, ascending: true })),
                "es_entity::ListDirection::Descending => match ("@ + states + ") {\n        "@
                    + f.case_arms((QueryCase { by, variant, scope, ascending: false })),
            )
        }),
{
    let variant = variant_of(with_deleted);
    let states = ended(f.scrutinees(), ", "@);
    let up = f.case_arms((QueryCase { by, variant, scope, ascending: true }));
    let down = f.case_arms((QueryCase { by, variant, scope, ascending: false }));
    filters_directions_told(states, up, down);
}

proof fn filters_directions_told(states: Seq<char>, up: Seq<char>, down: Seq<char>)
    ensures
        starts_with(
            crate::filters_code::filters_match_code(states, up, down),
            "match direction {"@,
        ),
        in_order(
            crate::filters_code::filters_match_code(states, up, down),
            "es_entity::ListDirection::Ascending => match ("@ + states + ") {\n        "@ + up,
            "es_entity::ListDirection::Descending => match ("@ + states + ") {\n        "@ + down,
        ),
{
    let code = crate::filters_code::filters_match_code(states, up, down);
    let first = "es_entity::ListDirection::Ascending => match ("@ + states + ") {\n        "@ + up;
    let second = "es_entity::ListDirection::Descending => match ("@ + states + ") {\n        "@
        + down;
    reveal_strlit("match direction {\n    es_entity::ListDirection::Ascending => match (");
    reveal_strlit("match direction {");
    reveal_strlit("\n    ");
    reveal_strlit("es_entity::ListDirection::Ascending => match (");
    reveal_strlit("\n    },\n    es_entity::ListDirection::Descending => match (");
    reveal_strlit("\n    },\n    ");
    reveal_strlit("es_entity::ListDirection::Descending => match (");
    assert("match direction {\n    es_entity::ListDirection::Ascending => match ("@
        =~= "match direction {"@ + "\n    "@ + "es_entity::ListDirection::Ascending => match ("@);
    assert("\n    },\n    es_entity::ListDirection::Descending => match ("@ =~= "\n    },\n    "@
        + "es_entity::ListDirection::Descending => match ("@);
    let before = "match direction {"@ + "\n    "@ + first + "\n    },\n    "@;
    assert(before =~= ("match direction {"@ + "\n    "@) + first + "\n    },\n    "@);
    assert(occurs(before, first));
    assert(code =~= before + second + "\n    }\n}"@);
    assert(code =~= "match direction {"@ + ("\n    "@ + first + "\n    },\n    "@ + second
        + "\n    }\n}"@));
}

/// The query is chosen by the scope: without scopes, and where no restriction is
/// asked for, it is the one that is not restricted.
pub proof fn filters_scopes(f: &ListForFiltersFn, by: &Column, with_deleted: bool)
    ensures
        goes_by_scope(
            f.match_code(by, variant_of(with_deleted)),
            f.scope,
            f.direction_arms(by, variant_of(with_deleted), None),
            match f.scope {
                Some(info) => Seq::new(
                    info.cols.len() as nat,
                    |i: int|
                        f.direction_arms(by, variant_of(with_deleted), Some(&info.cols@[i])),
                ),
                None => Seq::empty(),
            },
        ),
{
    let variant = variant_of(with_deleted);
    if let Some(info) = f.scope {
        scopes_are_dispatched(
            &info,
            f.direction_arms(by, variant, None),
            Seq::new(
                info.cols.len() as nat,
                |i: int| f.direction_arms(by, variant, Some(&info.cols@[i])),
            ),
        );
    }
}

/// The statements that take the filters apart: of a column that is an `Option`
/// whether it is applied and what it looks for, and of any other what it looks
/// for.
pub open spec fn takes_filter(c: Column) -> Seq<char> {
    if c.optional() {
        "let apply_"@ + c.name@ + " = filters."@ + c.name@ + ".is_some();\nlet filter_"@ + c.name@
            + " = filters."@ + c.name@ + ".flatten();"@
    } else {
        "let filter_"@ + c.name@ + " = filters."@ + c.name@ + ";"@
    }
}

proof fn filters_are_taken(cols: Seq<Column>, i: int)
    requires
        0 <= i < cols.len(),
    ensures
        filters_taken(cols)[i] == takes_filter(cols[i]),
        virtuals_taken(cols)[i] == "let virtual_"@ + cols[i].name@ + " = filters."@ + cols[i].name@
            + ";"@,
        values_taken(cols)[i] == "let filter_"@ + cols[i].name@ + " = filters."@ + cols[i].name@
            + ";"@,
{
    let name = cols[i].name@;
    reveal_strlit("let ");
    reveal_strlit("apply_");
    reveal_strlit("filter_");
    reveal_strlit("virtual_");
    reveal_strlit("let apply_");
    reveal_strlit("let filter_");
    reveal_strlit("let virtual_");
    reveal_strlit(".is_some();\nlet ");
    reveal_strlit(".is_some();\nlet filter_");
    assert("let apply_"@ =~= "let "@ + "apply_"@);
    assert("let filter_"@ =~= "let "@ + "filter_"@);
    assert("let virtual_"@ =~= "let "@ + "virtual_"@);
    assert(".is_some();\nlet filter_"@ =~= ".is_some();\nlet "@ + "filter_"@);
    assert(filters_taken(cols)[i] =~= takes_filter(cols[i]));
    assert(virtuals_taken(cols)[i] =~= "let virtual_"@ + name + " = filters."@ + name + ";"@);
    assert(values_taken(cols)[i] =~= "let filter_"@ + name + " = filters."@ + name + ";"@);
}

/// Whether code takes each filter apart before it makes the choice.
pub open spec fn takes_filters(
    code: Seq<char>,
    choice: Seq<char>,
    fcols: Seq<Column>,
    bcols: Seq<Column>,
    vcols: Seq<Column>,
) -> bool {
    &&& forall|i: int|
        0 <= i < fcols.len() ==> in_order(code, takes_filter(#[trigger] fcols[i]), choice)
    &&& forall|i: int|
        0 <= i < bcols.len() ==> in_order(
            code,
            "let virtual_"@ + (#[trigger] bcols[i]).name@ + " = filters."@ + bcols[i].name@ + ";"@,
            choice,
        )
    &&& forall|i: int|
        0 <= i < vcols.len() ==> in_order(
            code,
            "let filter_"@ + (#[trigger] vcols[i]).name@ + " = filters."@ + vcols[i].name@ + ";"@,
            choice,
        )
}

proof fn filters_taken_apart(
    code: Seq<char>,
    choice: Seq<char>,
    fcols: Seq<Column>,
    bcols: Seq<Column>,
    vcols: Seq<Column>,
)
    requires
        in_order(
            code,
            ended(filters_taken(fcols), "\n"@) + ended(virtuals_taken(bcols), "\n"@) + ended(
                values_taken(vcols),
                "\n"@,
            ),
            choice,
        ),
    ensures
        takes_filters(code, choice, fcols, bcols, vcols),
{
    let a = ended(filters_taken(fcols), "\n"@);
    let b = ended(virtuals_taken(bcols), "\n"@);
    let c = ended(values_taken(vcols), "\n"@);
    let taken = a + b + c;
    occurs_itself(choice);
    assert forall|i: int| 0 <= i < fcols.len() implies in_order(
        code,
        takes_filter(#[trigger] fcols[i]),
        choice,
    ) by {
        filters_are_taken(fcols, i);
        ended_holds(filters_taken(fcols), "\n"@, i);
        let part = filters_taken(fcols)[i];
        occurs_extended(a, b, part);
        occurs_extended(a + b, c, part);
        in_order_within(code, taken, choice, part, choice);
    }
    assert forall|i: int| 0 <= i < bcols.len() implies in_order(
        code,
        "let virtual_"@ + (#[trigger] bcols[i]).name@ + " = filters."@ + bcols[i].name@ + ";"@,
        choice,
    ) by {
        filters_are_taken(bcols, i);
        ended_holds(virtuals_taken(bcols), "\n"@, i);
        let part = virtuals_taken(bcols)[i];
        occurs_behind(a, b, part);
        occurs_extended(a + b, c, part);
        in_order_within(code, taken, choice, part, choice);
    }
    assert forall|i: int| 0 <= i < vcols.len() implies in_order(
        code,
        "let filter_"@ + (#[trigger] vcols[i]).name@ + " = filters."@ + vcols[i].name@ + ";"@,
        choice,
    ) by {
        filters_are_taken(vcols, i);
        ended_holds(values_taken(vcols), "\n"@, i);
        let part = values_taken(vcols)[i];
        occurs_behind(a + b, c, part);
        in_order_within(code, taken, choice, part, choice);
    }
}

/// A list that is sorted by a column takes each filter apart and then makes the
/// choice between the queries.
pub proof fn filters_come_first(f: &ListForFiltersFn, by: &Column, with_deleted: bool)
    ensures
        takes_filters(
            f.by_code(by, variant_of(with_deleted)),
            f.match_code(by, variant_of(with_deleted)),
            f.fcols(),
            f.bcols(),
            f.vcols(),
        ),
{
    let variant = variant_of(with_deleted);
    filters_orders(f, by, variant);
    filters_taken_apart(
        f.by_code(by, variant),
        f.match_code(by, variant),
        f.fcols(),
        f.bcols(),
        f.vcols(),
    );
}

/// Whether code holds a function of the name that makes the choice and checks what
/// it read, and without an operation of the caller one that calls it.
pub open spec fn is_chooser(
    code: Seq<char>,
    name: Seq<char>,
    choice: Seq<char>,
    alone: bool,
    check: Option<Seq<char>>,
) -> bool {
    &&& alone ==> starts_with(code, "pub async fn "@ + name + "("@) && occurs(
        code,
        "self."@ + name + "_in_op("@,
    )
    &&& in_order(code, "pub async fn "@ + name + "_in_op"@, choice)
    &&& check is Some ==> in_order(code, choice, check->0)
}

/// A list that is sorted by a column says in its name whether it holds deleted
/// entities too, makes the choice between the queries, and then checks what it
/// read where that is asked for.
pub proof fn filters_function(f: &ListForFiltersFn, by: &Column, with_deleted: bool)
    ensures
        is_chooser(
            f.by_code(by, variant_of(with_deleted)),
            "list_for_filters_by_"@ + by.name@ + (if with_deleted {
                "_include_deleted"@
            } else {
                ""@
            }),
            f.match_code(by, variant_of(with_deleted)),
            !f.in_op_only,
            if f.post_hydrate_error is Some {
                Some(hydration_check(f.query_error@))
            } else {
                None
            },
        ),
{
    let variant = variant_of(with_deleted);
    let name = f.by_name(*by, variant);
    filters_orders(f, by, variant);
    if !f.in_op_only {
        filters_standalone(f, by, variant);
    }
    assert(crate::post_hydrate_hook::check_all_hydrated_code(f.query_error@) == hydration_check(
        f.query_error@,
    ));
    chooser_is_told(
        f.by_code(by, variant),
        name,
        f.match_code(by, variant),
        !f.in_op_only,
        if f.post_hydrate_error is Some {
            Some(hydration_check(f.query_error@))
        } else {
            None
        },
    );
}

proof fn chooser_is_told(
    code: Seq<char>,
    name: Seq<char>,
    choice: Seq<char>,
    alone: bool,
    check: Option<Seq<char>>,
)
    requires
        in_order(code, "\npub async fn "@ + (name + "_in_op"@), choice),
        check is Some ==> in_order(code, choice, check->0),
        alone ==> starts_with(code, "pub async fn "@ + name + "("@) && occurs(
            code,
            "self."@ + (name + "_in_op"@) + "("@,
        ),
    ensures
        is_chooser(code, name, choice, alone, check),
{
    let in_op = name + "_in_op"@;
    let lead = "\npub async fn "@ + in_op;
    occurs_itself(choice);
    assert(occurs(lead, "pub async fn "@ + in_op)) by {
        reveal_strlit("\npub async fn ");
        reveal_strlit("\n");
        reveal_strlit("pub async fn ");
        assert("\npub async fn "@ =~= "\n"@ + "pub async fn "@);
        assert(lead =~= "\n"@ + ("pub async fn "@ + in_op) + Seq::<char>::empty());
    }
    in_order_within(code, lead, choice, "pub async fn "@ + in_op, choice);
    assert("pub async fn "@ + in_op =~= "pub async fn "@ + name + "_in_op"@);
    assert("self."@ + in_op + "("@ =~= "self."@ + name + "_in_op("@) by {
        reveal_strlit("_in_op");
        reveal_strlit("_in_op(");
        reveal_strlit("(");
        assert("_in_op("@ =~= "_in_op"@ + "("@);
    }
}

proof fn filters_orders(
    f: &ListForFiltersFn,
    by: &Column,
    variant: DeleteOption,
)
    ensures
        ({
            let code = f.by_code(by, variant);
            let choice = f.match_code(by, variant);
            let taken = ended(filters_taken(f.fcols()), "\n"@) + ended(
                virtuals_taken(f.bcols()),
                "\n"@,
            ) + ended(values_taken(f.vcols()), "\n"@);
            let hook = only_if(
                f.post_hydrate_error is Some,
                crate::post_hydrate_hook::check_all_hydrated_code(f.query_error@),
            );
            &&& in_order(code, "\npub async fn "@ + (f.by_name(*by, variant) + "_in_op"@), choice)
            &&& in_order(code, taken, choice)
            &&& in_order(code, choice, hook)
        }),
{
    reveal(ListForFiltersFn::by_code);
    let in_op = f.by_name(*by, variant) + "_in_op"@;
    let lead = "\npub async fn "@ + in_op;
    assert forall|t: Seq<char>| #[trigger] (t + "\npub async fn "@ + in_op) == t + lead by {
        assert(t + "\npub async fn "@ + in_op =~= t + lead);
    }
    broadcast use {in_order_extended, occurs_extended};

}

/// The function that opens an operation of its own, as it stands.
pub open spec fn standalone_code(
    f: &ListForFiltersFn,
    by: &Column,
    variant: DeleteOption,
) -> Seq<char> {
    let scope = crate::scope::scope_parts(f.scope);
    crate::filters_code::by_standalone_code(
        f.by_name(*by, variant),
        f.by_name(*by, variant) + "_in_op"@,
        scope.0,
        f.filters_struct.named(),
        f.cursor_mod@,
        f.cursor_spec(*by).named(),
        f.entity@,
        f.query_error@,
        crate::options::repository::query_get_op(false),
        scope.1,
    )
}

proof fn filters_open(
    f: &ListForFiltersFn,
    by: &Column,
    variant: DeleteOption,
)
    requires
        !f.in_op_only,
    ensures
        starts_with(f.by_code(by, variant), standalone_code(f, by, variant)),
{
    reveal(ListForFiltersFn::by_code);
    let alone = standalone_code(f, by, variant);
    assert(alone =~= alone + Seq::<char>::empty());
    assert(starts_with(alone, alone));
    broadcast use starts_extended;

}

proof fn standalone_is_named(
    f: &ListForFiltersFn,
    by: &Column,
    variant: DeleteOption,
)
    ensures
        starts_with(
            standalone_code(f, by, variant),
            "pub async fn "@ + f.by_name(*by, variant) + "("@,
        ),
{
    crate::queries::opens_with_name(f.by_name(*by, variant));
    broadcast use starts_extended;

}

proof fn standalone_calls(
    f: &ListForFiltersFn,
    by: &Column,
    variant: DeleteOption,
)
    ensures
        occurs(
            standalone_code(f, by, variant),
            "> {\n    self."@ + (f.by_name(*by, variant) + "_in_op"@) + "("@,
        ),
{
    let in_op = f.by_name(*by, variant) + "_in_op"@;
    let this = "> {\n    self."@ + in_op + "("@;
    assert forall|t: Seq<char>| #[trigger] (t + "> {\n    self."@ + in_op + "("@) == t + this by {
        assert(t + "> {\n    self."@ + in_op + "("@ =~= t + this);
    }
    broadcast use occurs_extended;

}

proof fn filters_standalone(
    f: &ListForFiltersFn,
    by: &Column,
    variant: DeleteOption,
)
    requires
        !f.in_op_only,
    ensures
        starts_with(
            f.by_code(by, variant),
            "pub async fn "@ + f.by_name(*by, variant) + "("@,
        ),
        occurs(
            f.by_code(by, variant),
            "self."@ + (f.by_name(*by, variant) + "_in_op"@) + "("@,
        ),
{
    let in_op = f.by_name(*by, variant) + "_in_op"@;
    filters_open(f, by, variant);
    standalone_is_named(f, by, variant);
    standalone_calls(f, by, variant);
    crate::queries::calls_in_op(in_op);
    let code = f.by_code(by, variant);
    let alone = standalone_code(f, by, variant);
    let this = "> {\n    self."@ + in_op + "("@;
    opening_opens(code, alone, "pub async fn "@ + f.by_name(*by, variant) + "("@, this);
    occurs_within(code, this, "self."@ + in_op + "("@);
}

pub proof fn opening_opens(text: Seq<char>, opening: Seq<char>, name: Seq<char>, part: Seq<char>)
    requires
        starts_with(text, opening),
        starts_with(opening, name),
        occurs(opening, part),
    ensures
        starts_with(text, name),
        occurs(text, part),
{
    let rest = choose|r: Seq<char>| text == opening + r;
    let inner = choose|r: Seq<char>| opening == name + r;
    assert(text =~= name + (inner + rest));
    occurs_extended(opening, rest, part);
}

/// One branch of a choice between lists: it is taken where none of the filters is
/// applied.
pub struct Branch {
    pub absent: Seq<Seq<char>>,
    pub call: Seq<char>,
}

/// A choice between lists: the first branch that may be taken is.
pub struct Choice {
    pub first: Branch,
    pub singles: Seq<Branch>,
    pub last: Option<Branch>,
}

/// The conditions that the filters are not applied.
pub open spec fn absence(names: Seq<Seq<char>>) -> Seq<Seq<char>> {
    Seq::new(names.len(), |i: int| "filters."@ + names[i] + ".is_none()"@)
}

impl Branch {
    /// Whether none of the filters that the branch excludes is applied.
    pub open spec fn open_to(self, applied: spec_fn(Seq<char>) -> bool) -> bool {
        forall|i: int| 0 <= i < self.absent.len() ==> !applied(#[trigger] self.absent[i])
    }

    /// The branch behind another one.
    pub open spec fn behind(self) -> Seq<char> {
        (if self.absent.len() == 0 {
            "else {\n    "@
        } else {
            "else if "@ + joined(absence(self.absent), " && "@) + " {\n    "@
        }) + self.call + "\n}"@
    }
}

impl Choice {
    /// The code that makes the choice.
    pub open spec fn text(self) -> Seq<char> {
        "if "@ + joined(absence(self.first.absent), " && "@) + " {\n    "@ + self.first.call
            + "\n}\n"@ + ended(
            Seq::new(self.singles.len(), |i: int| self.singles[i].behind()),
            "\n"@,
        ) + "\n"@ + (match self.last {
            Some(b) => b.behind(),
            None => Seq::empty(),
        })
    }

    /// Whether the choice comes to the call where the given filters are applied.
    pub open spec fn comes_to(
        self,
        applied: spec_fn(Seq<char>) -> bool,
        call: Seq<char>,
    ) -> bool {
        if self.first.open_to(applied) {
            call == self.first.call
        } else {
            ||| exists|i: int|
                0 <= i < self.singles.len() && (#[trigger] self.singles[i]).open_to(applied)
                    && call == self.singles[i].call && forall|j: int|
                    0 <= j < i ==> !(#[trigger] self.singles[j]).open_to(applied)
            ||| (forall|j: int|
                0 <= j < self.singles.len() ==> !(#[trigger] self.singles[j]).open_to(applied))
                && (self.last matches Some(b) && b.open_to(applied) && call == b.call)
        }
    }
}

/// The names of columns.
pub open spec fn names_of(cols: Seq<Column>) -> Seq<Seq<char>> {
    Seq::new(cols.len(), |i: int| cols[i].name@)
}

/// The names of all filters.
pub open spec fn filter_names(f: &ListForFiltersFn) -> Seq<Seq<char>> {
    names_of(f.fcols()) + names_of(columns_of(f.virtual_columns@))
}

/// Whether the filter by the column is applied and no other.
pub open spec fn only_applied(
    f: &ListForFiltersFn,
    applied: spec_fn(Seq<char>) -> bool,
    name: Seq<char>,
) -> bool {
    applied(name) && forall|i: int|
        0 <= i < filter_names(f).len() && applied(#[trigger] filter_names(f)[i]) ==> filter_names(
            f,
        )[i] == name
}

/// Whether there is a list for the column alone, sorted by the other column.
pub open spec fn has_own_list(f: &ListForFiltersFn, by: Column, k: int) -> bool {
    0 <= k < f.fcols().len() && f.fcols()[k].opts.sort_columns().contains(by.name@)
}

/// A call of a list with the arguments before the page.
pub open spec fn list_call(
    f: &ListForFiltersFn,
    name: Seq<char>,
    with_deleted: bool,
    in_op: bool,
    arg: Seq<char>,
) -> Seq<char> {
    "self."@ + name + (if with_deleted {
        "_include_deleted"@
    } else {
        ""@
    }) + (if in_op {
        "_in_op(op,"@
    } else {
        "("@
    }) + " "@ + (if f.scope is Some {
        "__scope,"@
    } else {
        ""@
    }) + " "@ + arg + "query, direction).await?"@
}

/// The call that lists the entities to which the applied filters apply: without
/// filters, for the one that is applied where there is such a list, or for all.
pub open spec fn right_call(
    f: &ListForFiltersFn,
    by: Column,
    with_deleted: bool,
    in_op: bool,
    applied: spec_fn(Seq<char>) -> bool,
    call: Seq<char>,
) -> bool {
    if forall|i: int| 0 <= i < filter_names(f).len() ==> !applied(#[trigger] filter_names(f)[i]) {
        call == list_call(f, "list_by_"@ + by.name@, with_deleted, in_op, ""@)
    } else {
        ||| exists|k: int| #[trigger]
            has_own_list(f, by, k) && only_applied(f, applied, f.fcols()[k].name@) && call
                == list_call(
                f,
                "list_for_"@ + f.fcols()[k].name@ + "_by_"@ + by.name@,
                with_deleted,
                in_op,
                "filters."@ + f.fcols()[k].name@ + ".unwrap(), "@,
            )
        ||| (forall|k: int| #[trigger]
            has_own_list(f, by, k) ==> !only_applied(f, applied, f.fcols()[k].name@)) && call
            == list_call(f, "list_for_filters_by_"@ + by.name@, with_deleted, in_op, "filters, "@)
    }
}

proof fn list_call_is_written(
    f: &ListForFiltersFn,
    name: Seq<char>,
    with_deleted: bool,
    in_op: bool,
)
    ensures
        ({
            let full = name + variant_of(with_deleted).postfix() + only_if(in_op, "_in_op"@);
            let op = only_if(in_op, "op,"@);
            let scope = only_if(f.scope is Some, "__scope,"@);
            forall|arg: Seq<char>| #[trigger]
                list_call(f, name, with_deleted, in_op, arg) == called(full, op, scope, arg)
        }),
{
    reveal_strlit("_in_op(op,");
    reveal_strlit("_in_op");
    reveal_strlit("(");
    reveal_strlit("op,");
    reveal_strlit("");
    assert("_in_op(op,"@ =~= "_in_op"@ + "("@ + "op,"@);
    let full = name + variant_of(with_deleted).postfix() + only_if(in_op, "_in_op"@);
    let op = only_if(in_op, "op,"@);
    let scope = only_if(f.scope is Some, "__scope,"@);
    assert forall|arg: Seq<char>| #[trigger]
        list_call(f, name, with_deleted, in_op, arg) == called(full, op, scope, arg) by {
        assert(list_call(f, name, with_deleted, in_op, arg) =~= called(full, op, scope, arg));
    }
}

/// The branch for one filter.
pub open spec fn single_of(
    f: &ListForFiltersFn,
    c: Column,
    by: Column,
    with_deleted: bool,
    in_op: bool,
) -> Branch {
    Branch {
        absent: names_of(others(f.fcols(), c.name@)) + names_of(columns_of(f.virtual_columns@)),
        call: list_call(
            f,
            "list_for_"@ + c.name@ + "_by_"@ + by.name@,
            with_deleted,
            in_op,
            "filters."@ + c.name@ + ".unwrap(), "@,
        ),
    }
}

proof fn single_is_written(
    f: &ListForFiltersFn,
    c: Column,
    by: Column,
    with_deleted: bool,
    in_op: bool,
)
    ensures
        f.single_branch(c, by, variant_of(with_deleted), in_op) == single_of(
            f,
            c,
            by,
            with_deleted,
            in_op,
        ).behind(),
{
    let b = single_of(f, c, by, with_deleted, in_op);
    let none = none_checks(others(f.fcols(), c.name@)) + none_checks(
        columns_of(f.virtual_columns@),
    );
    assert(none =~= absence(b.absent));
    let name = "list_for_"@ + c.name@ + "_by_"@ + by.name@;
    list_call_is_written(f, name, with_deleted, in_op);
    single_texts(
        joined(none, " && "@),
        name + variant_of(with_deleted).postfix() + only_if(in_op, "_in_op"@),
        only_if(in_op, "op,"@),
        only_if(f.scope is Some, "__scope,"@),
        c.name@,
    );
}

/// A call with its arguments, as a text.
pub open spec fn called(
    name: Seq<char>,
    op: Seq<char>,
    scope: Seq<char>,
    arg: Seq<char>,
) -> Seq<char> {
    "self."@ + name + "("@ + op + " "@ + scope + " "@ + arg + "query, direction).await?"@
}

proof fn single_texts(
    none: Seq<char>,
    name: Seq<char>,
    op: Seq<char>,
    scope: Seq<char>,
    col: Seq<char>,
)
    ensures
        ({
            let call = called(name, op, scope, "filters."@ + col + ".unwrap(), "@);
            &&& crate::filters_code::only_filter_branch_code(name, op, scope, col)
                == "else {\n    "@ + call + "\n}"@
            &&& crate::filters_code::single_filter_branch_code(none, name, op, scope, col)
                == "else if "@ + none + " {\n    "@ + call + "\n}"@
        }),
{
    let call = called(name, op, scope, "filters."@ + col + ".unwrap(), "@);
    reveal_strlit("else {\n    self.");
    reveal_strlit("else {\n    ");
    reveal_strlit(" {\n    self.");
    reveal_strlit(" {\n    ");
    reveal_strlit("self.");
    reveal_strlit(" filters.");
    reveal_strlit(" ");
    reveal_strlit("filters.");
    reveal_strlit(".unwrap(), query, direction).await?\n}");
    reveal_strlit(".unwrap(), ");
    reveal_strlit("query, direction).await?");
    reveal_strlit("\n}");
    assert("else {\n    self."@ =~= "else {\n    "@ + "self."@);
    assert(" {\n    self."@ =~= " {\n    "@ + "self."@);
    assert(" filters."@ =~= " "@ + "filters."@);
    assert(".unwrap(), query, direction).await?\n}"@ =~= ".unwrap(), "@
        + "query, direction).await?"@ + "\n}"@);
    assert(crate::filters_code::only_filter_branch_code(name, op, scope, col) =~= "else {\n    "@
        + call + "\n}"@);
    assert(crate::filters_code::single_filter_branch_code(none, name, op, scope, col)
        =~= "else if "@ + none + " {\n    "@ + call + "\n}"@);
}

proof fn other_texts(name: Seq<char>, op: Seq<char>, scope: Seq<char>)
    ensures
        crate::filters_code::list_by_call_code(name, op, scope) == called(name, op, scope, ""@),
        crate::filters_code::several_filters_branch_code(name, op, scope) == "else {\n    "@
            + called(name, op, scope, "filters, "@) + "\n}"@,
{
    reveal_strlit(" query, direction).await?");
    reveal_strlit(" ");
    reveal_strlit("");
    reveal_strlit("query, direction).await?");
    reveal_strlit("else {\n    self.");
    reveal_strlit("else {\n    ");
    reveal_strlit("self.");
    reveal_strlit(" filters, query, direction).await?\n}");
    reveal_strlit("filters, ");
    reveal_strlit("\n}");
    assert(" query, direction).await?"@ =~= " "@ + "query, direction).await?"@);
    assert("else {\n    self."@ =~= "else {\n    "@ + "self."@);
    assert(" filters, query, direction).await?\n}"@ =~= " "@ + "filters, "@
        + "query, direction).await?"@ + "\n}"@);
    assert(crate::filters_code::list_by_call_code(name, op, scope) =~= called(
        name,
        op,
        scope,
        ""@,
    ));
    assert(crate::filters_code::several_filters_branch_code(name, op, scope) =~= "else {\n    "@
        + called(name, op, scope, "filters, "@) + "\n}"@);
}

proof fn pairs_are_paired(cols: Seq<Column>, by: Seq<char>)
    ensures
        paired(cols, by).len() <= cols.len(),
        forall|j: int|
            0 <= j < paired(cols, by).len() ==> (#[trigger] paired(
                cols,
                by,
            )[j]).opts.sort_columns().contains(by) && cols.contains(paired(cols, by)[j]),
        forall|k: int|
            0 <= k < cols.len() && (#[trigger] cols[k]).opts.sort_columns().contains(by)
                ==> paired(cols, by).contains(cols[k]),
    decreases cols.len(),
{
    if cols.len() > 0 {
        let front = cols.drop_last();
        pairs_are_paired(front, by);
        let all = paired(cols, by);
        assert forall|j: int| 0 <= j < all.len() implies (
        #[trigger] all[j]).opts.sort_columns().contains(by) && cols.contains(all[j]) by {
            if j < paired(front, by).len() {
                assert(all[j] == paired(front, by)[j]);
                let k = choose|k: int| 0 <= k < front.len() && front[k] == all[j];
                assert(cols[k] == all[j]);
            } else {
                assert(cols[cols.len() - 1] == all[j]);
            }
        }
        assert forall|k: int|
            0 <= k < cols.len() && (#[trigger] cols[k]).opts.sort_columns().contains(
                by,
            ) implies all.contains(cols[k]) by {
            if k < front.len() {
                assert(front[k] == cols[k]);
                let j = choose|j: int|
                    0 <= j < paired(front, by).len() && paired(front, by)[j] == cols[k];
                assert(all[j] == cols[k]);
            } else {
                assert(all[all.len() - 1] == cols[k]);
            }
        }
    }
}

proof fn others_are_others(cols: Seq<Column>, name: Seq<char>)
    ensures
        forall|j: int|
            0 <= j < others(cols, name).len() ==> (#[trigger] others(cols, name)[j]).name@ != name
                && cols.contains(others(cols, name)[j]),
        forall|k: int|
            0 <= k < cols.len() && (#[trigger] cols[k]).name@ != name ==> others(
                cols,
                name,
            ).contains(cols[k]),
    decreases cols.len(),
{
    if cols.len() > 0 {
        let front = cols.drop_last();
        others_are_others(front, name);
        let all = others(cols, name);
        assert forall|j: int| 0 <= j < all.len() implies (#[trigger] all[j]).name@ != name
            && cols.contains(all[j]) by {
            if j < others(front, name).len() {
                assert(all[j] == others(front, name)[j]);
                let k = choose|k: int| 0 <= k < front.len() && front[k] == all[j];
                assert(cols[k] == all[j]);
            } else {
                assert(cols[cols.len() - 1] == all[j]);
            }
        }
        assert forall|k: int|
            0 <= k < cols.len() && (#[trigger] cols[k]).name@ != name implies all.contains(
            cols[k],
        ) by {
            if k < front.len() {
                assert(front[k] == cols[k]);
                let j = choose|j: int|
                    0 <= j < others(front, name).len() && others(front, name)[j] == cols[k];
                assert(all[j] == cols[k]);
            } else {
                assert(all[all.len() - 1] == cols[k]);
            }
        }
    }
}

/// The branch for a filter is open exactly if no other filter is applied.
proof fn single_opens(
    f: &ListForFiltersFn,
    k: int,
    by: Column,
    with_deleted: bool,
    in_op: bool,
    applied: spec_fn(Seq<char>) -> bool,
)
    requires
        0 <= k < f.fcols().len(),
        filter_names(f).no_duplicates(),
    ensures
        single_of(f, f.fcols()[k], by, with_deleted, in_op).open_to(applied) <==> (forall|i: int|
            0 <= i < filter_names(f).len() && applied(#[trigger] filter_names(f)[i])
                ==> filter_names(f)[i] == f.fcols()[k].name@),
{
    let name = f.fcols()[k].name@;
    let rest = others(f.fcols(), name);
    let b = single_of(f, f.fcols()[k], by, with_deleted, in_op);
    let all = filter_names(f);
    let n = f.fcols().len();
    others_are_others(f.fcols(), name);
    assert(all[k] == name);
    if b.open_to(applied) {
        assert forall|i: int| 0 <= i < all.len() && applied(#[trigger] all[i]) implies all[i]
            == name by {
            if all[i] != name {
                if i < n {
                    assert(f.fcols()[i].name@ == all[i]);
                    let j = choose|j: int| 0 <= j < rest.len() && rest[j] == f.fcols()[i];
                    assert(b.absent[j] == all[i]);
                } else {
                    assert(b.absent[rest.len() + (i - n)] == all[i]);
                }
            }
        }
    }
    if forall|i: int| 0 <= i < all.len() && applied(#[trigger] all[i]) ==> all[i] == name {
        assert forall|j: int| 0 <= j < b.absent.len() implies !applied(#[trigger] b.absent[j]) by {
            if j < rest.len() {
                assert(b.absent[j] == rest[j].name@);
                let i = choose|i: int| 0 <= i < n && f.fcols()[i] == rest[j];
                assert(all[i] == rest[j].name@);
            } else {
                let i = n + (j - rest.len());
                assert(all[i] == b.absent[j]);
                assert(all[i] != all[k]);
            }
        }
    }
}

/// The choice between the lists for a sort column.
pub open spec fn choice_of(
    f: &ListForFiltersFn,
    by: Column,
    with_deleted: bool,
    in_op: bool,
) -> Choice {
    let pairs = paired(f.fcols(), by.name@);
    Choice {
        first: Branch {
            absent: filter_names(f),
            call: list_call(f, "list_by_"@ + by.name@, with_deleted, in_op, ""@),
        },
        singles: Seq::new(
            pairs.len(),
            |i: int| single_of(f, pairs[i], by, with_deleted, in_op),
        ),
        last: if pairs.len() < f.for_columns.len() || f.for_columns.len() >= 2
            || f.virtual_columns.len() > 0 {
            Some(
                Branch {
                    absent: Seq::empty(),
                    call: list_call(
                        f,
                        "list_for_filters_by_"@ + by.name@,
                        with_deleted,
                        in_op,
                        "filters, "@,
                    ),
                },
            )
        } else {
            None
        },
    }
}

proof fn choice_is_written(f: &ListForFiltersFn, by: Column, with_deleted: bool, in_op: bool)
    requires
        f.for_columns.len() > 0 || f.virtual_columns.len() > 0,
    ensures
        f.proxy_code(by, variant_of(with_deleted), in_op) == choice_of(
            f,
            by,
            with_deleted,
            in_op,
        ).text(),
{
    let variant = variant_of(with_deleted);
    let choice = choice_of(f, by, with_deleted, in_op);
    let pairs = paired(f.fcols(), by.name@);
    let singles = Seq::new(
        pairs.len(),
        |i: int| f.single_branch(pairs[i], by, variant, in_op),
    );
    assert forall|i: int| 0 <= i < pairs.len() implies singles[i]
        == #[trigger] choice.singles[i].behind() by {
        single_is_written(f, pairs[i], by, with_deleted, in_op);
    }
    assert(singles =~= Seq::new(choice.singles.len(), |i: int| choice.singles[i].behind()));
    assert(none_checks(f.fcols()) + none_checks(columns_of(f.virtual_columns@)) =~= absence(
        choice.first.absent,
    ));
    list_call_is_written(f, "list_by_"@ + by.name@, with_deleted, in_op);
    list_call_is_written(f, "list_for_filters_by_"@ + by.name@, with_deleted, in_op);
    let postfix = variant.postfix() + only_if(in_op, "_in_op"@);
    let op = only_if(in_op, "op,"@);
    let scope = only_if(f.scope is Some, "__scope,"@);
    let plain = "list_by_"@ + by.name@;
    let all = "list_for_filters_by_"@ + by.name@;
    assert(plain + postfix =~= plain + variant.postfix() + only_if(in_op, "_in_op"@));
    assert(all + postfix =~= all + variant.postfix() + only_if(in_op, "_in_op"@));
    other_texts(plain + postfix, op, scope);
    other_texts(all + postfix, op, scope);
}

/// A list that takes the sort column as a value calls the list that holds what the
/// applied filters ask for: the one without filters where none is applied, the one
/// for a single filter where that is the only one applied and there is such a
/// list, and otherwise the one for all filters.
pub proof fn right_list_is_called(
    f: &ListForFiltersFn,
    by: Column,
    with_deleted: bool,
    in_op: bool,
    applied: spec_fn(Seq<char>) -> bool,
) -> (choice: Choice)
    requires
        f.for_columns.len() > 0 || f.virtual_columns.len() > 0,
        filter_names(f).no_duplicates(),
    ensures
        f.proxy_code(by, variant_of(with_deleted), in_op) == choice.text(),
        exists|call: Seq<char>| #[trigger]
            choice.comes_to(applied, call) && right_call(
                f,
                by,
                with_deleted,
                in_op,
                applied,
                call,
            ),
{
    let choice = choice_of(f, by, with_deleted, in_op);
    let all = filter_names(f);
    let cols = f.fcols();
    let pairs = paired(cols, by.name@);
    choice_is_written(f, by, with_deleted, in_op);
    pairs_are_paired(cols, by.name@);
    assert(choice.first.open_to(applied) <==> forall|i: int|
        0 <= i < all.len() ==> !applied(#[trigger] all[i]));
    assert forall|j: int| 0 <= j < pairs.len() implies exists|k: int| #[trigger]
        has_own_list(f, by, k) && cols[k] == #[trigger] pairs[j] && (choice.singles[j].open_to(
        applied,
    )
            <==> forall|i: int|
            0 <= i < all.len() && applied(#[trigger] all[i]) ==> all[i] == cols[k].name@) by {
        assert(pairs[j].opts.sort_columns().contains(by.name@));
        let k = choose|k: int| 0 <= k < cols.len() && cols[k] == pairs[j];
        single_opens(f, k, by, with_deleted, in_op, applied);
        assert(has_own_list(f, by, k));
    }
    if choice.first.open_to(applied) {
        assert(choice.comes_to(applied, choice.first.call));
    } else if exists|j: int| 0 <= j < pairs.len() && #[trigger] choice.singles[j].open_to(applied) {
        let some = choose|j: int|
            0 <= j < pairs.len() && #[trigger] choice.singles[j].open_to(applied);
        let j = first_open(choice.singles, applied, some);
        let call = choice.singles[j].call;
        assert(choice.comes_to(applied, call));
        let k = choose|k: int| #[trigger]
            has_own_list(f, by, k) && cols[k] == pairs[j] && (choice.singles[j].open_to(applied)
                <==> forall|i: int|
                0 <= i < all.len() && applied(#[trigger] all[i]) ==> all[i] == cols[k].name@);
        let i = choose|i: int| 0 <= i < all.len() && applied(#[trigger] all[i]);
        assert(all[i] == cols[k].name@);
        assert(only_applied(f, applied, cols[k].name@));
        assert(right_call(f, by, with_deleted, in_op, applied, call));
    } else {
        assert forall|k: int| #[trigger] has_own_list(f, by, k) implies !only_applied(
            f,
            applied,
            cols[k].name@,
        ) by {
            assert(pairs.contains(cols[k]));
            let j = choose|j: int| 0 <= j < pairs.len() && pairs[j] == cols[k];
            single_opens(f, k, by, with_deleted, in_op, applied);
            assert(!choice.singles[j].open_to(applied));
        }
        if choice.last is None {
            assert(cols.len() == 1 && pairs.len() == 1);
            let i = choose|i: int| 0 <= i < all.len() && applied(#[trigger] all[i]);
            assert(all.len() == 1);
            assert(cols.contains(pairs[0]));
            assert(has_own_list(f, by, 0));
            assert(only_applied(f, applied, cols[0].name@));
        }
        assert(choice.comes_to(applied, (choice.last->0).call));
    }
    choice
}

proof fn first_open(
    branches: Seq<Branch>,
    applied: spec_fn(Seq<char>) -> bool,
    some: int,
) -> (first: int)
    requires
        0 <= some < branches.len(),
        branches[some].open_to(applied),
    ensures
        0 <= first <= some,
        branches[first].open_to(applied),
        forall|j: int| 0 <= j < first ==> !(#[trigger] branches[j]).open_to(applied),
    decreases some,
{
    if exists|j: int| 0 <= j < some && #[trigger] branches[j].open_to(applied) {
        let j = choose|j: int| 0 <= j < some && #[trigger] branches[j].open_to(applied);
        first_open(branches, applied, j)
    } else {
        some
    }
}

/// The functions for the filters are those that leave deleted entities out, and
/// where deleted entities can be listed those that do not: of each, one for every
/// sort column and one that takes the sort column as a value.
pub proof fn filters_functions(f: &ListForFiltersFn) -> (parts: Seq<Seq<char>>)
    ensures
        consists_of(f.code(), parts),
        parts.len() == (if f.delete == DeleteOption::Soft {
            2nat
        } else {
            1nat
        }),
        forall|k: int|
            0 <= k < parts.len() ==> ends_with(
                #[trigger] parts[k],
                f.sort_code(variant_of(k == 1)),
            ),
        forall|k: int, i: int|
            0 <= k < parts.len() && 0 <= i < f.by_columns.len() ==> occurs(
                #[trigger] parts[k],
                f.by_code(#[trigger] f.by_columns@[i], variant_of(k == 1)),
            ),
{
    reveal(ListForFiltersFn::code);
    let variants = f.delete.variants();
    let parts = Seq::new(variants.len(), |i: int| f.variant_code(variants[i]));
    assert forall|k: int| 0 <= k < parts.len() implies variants[k] == variant_of(k == 1)
        && #[trigger] parts[k] == f.variant_code(variant_of(k == 1)) by {}
    assert forall|k: int| 0 <= k < parts.len() implies ends_with(
        #[trigger] parts[k],
        f.sort_code(variant_of(k == 1)),
    ) by {
        reveal(ListForFiltersFn::variant_code);
    }
    assert forall|k: int, i: int|
        0 <= k < parts.len() && 0 <= i < f.by_columns.len() implies occurs(
        #[trigger] parts[k],
        f.by_code(#[trigger] f.by_columns@[i], variant_of(k == 1)),
    ) by {
        sorted_by_is_there(f, variant_of(k == 1), i);
    }
    parts
}

proof fn sorted_by_is_there(
    f: &ListForFiltersFn,
    variant: DeleteOption,
    i: int,
)
    requires
        0 <= i < f.by_columns.len(),
    ensures
        occurs(f.variant_code(variant), f.by_code(f.by_columns@[i], variant)),
{
    reveal(ListForFiltersFn::variant_code);
    let each = Seq::new(
        f.by_columns.len() as nat,
        |j: int| f.by_code(f.by_columns@[j], variant),
    );
    ended_holds(each, "\n"@, i);
    occurs_extended(ended(each, "\n"@), f.sort_code(variant), each[i]);
}

/// The arm of a sort column: the cursor is one of that column, and the choice
/// between the lists is the one for that column.
pub open spec fn sorting_arm(f: &ListForFiltersFn, by: Column, with_deleted: bool) -> Seq<char> {
    f.cursor.sort_by_name@ + "::"@ + cased(by.name@, NameCase::UpperCamel)
        + " => {\n    let after = after.map("@ + f.cursor_mod@ + "::"@ + f.cursor_spec(by).named()
        + "::try_from).transpose()?;\n    let query = es_entity::PaginatedQueryArgs { first, after };\n    "@
        + f.proxy_code(by, variant_of(with_deleted), true)
}

/// The function that takes the sort column as a value has an arm for each sort
/// column, and says in its name whether it lists deleted entities too.
pub proof fn sorted_function(f: &ListForFiltersFn, with_deleted: bool, i: int)
    requires
        0 <= i < f.by_columns.len(),
    ensures
        in_order(
            f.sort_code(variant_of(with_deleted)),
            "pub async fn "@ + ("list_for_filters"@ + (if with_deleted {
                "_include_deleted"@
            } else {
                ""@
            }) + "_in_op"@),
            sorting_arm(f, *f.by_columns@[i], with_deleted),
        ),
{
    let variant = variant_of(with_deleted);
    let code = f.sort_code(variant);
    let name = "list_for_filters"@ + (if with_deleted {
        "_include_deleted"@
    } else {
        ""@
    });
    assert(name =~= "list_for_filters"@ + variant.postfix());
    let in_op = name + "_in_op"@;
    let arms = f.sort_arms(variant);
    let arm = sorting_arm(f, *f.by_columns@[i], with_deleted);
    sort_orders(f, variant);
    ended_holds(arms, "\n"@, i);
    let by = *f.by_columns@[i];
    arm_opens(
        f.cursor.sort_by_name@,
        cased(by.name@, NameCase::UpperCamel),
        f.cursor_mod@,
        f.cursor_spec(by).named(),
        f.proxy_code(by, variant, true),
        f.map_cursor(),
        f.cursor.ident@,
    );
    occurs_within(ended(arms, "\n"@), arms[i], arm);
    let lead = "\npub async fn "@ + in_op;
    assert(occurs(lead, "pub async fn "@ + in_op)) by {
        reveal_strlit("\npub async fn ");
        reveal_strlit("\n");
        reveal_strlit("pub async fn ");
        assert("\npub async fn "@ =~= "\n"@ + "pub async fn "@);
        assert(lead =~= "\n"@ + ("pub async fn "@ + in_op) + Seq::<char>::empty());
    }
    in_order_within(code, lead, ended(arms, "\n"@), "pub async fn "@ + in_op, arm);
}

proof fn arm_opens(
    sort: Seq<char>,
    by: Seq<char>,
    cursor_mod: Seq<char>,
    inner: Seq<char>,
    choice: Seq<char>,
    map: Seq<char>,
    cursor: Seq<char>,
)
    ensures
        occurs(
            crate::filters_code::sort_arm_code(sort, by, cursor_mod, inner, choice, map, cursor),
            sort + "::"@ + by + " => {\n    let after = after.map("@ + cursor_mod + "::"@ + inner
                + "::try_from).transpose()?;\n    let query = es_entity::PaginatedQueryArgs { first, after };\n    "@
                + choice,
        ),
{
    occurs_itself(
        sort + "::"@ + by + " => {\n    let after = after.map("@ + cursor_mod + "::"@ + inner
            + "::try_from).transpose()?;\n    let query = es_entity::PaginatedQueryArgs { first, after };\n    "@
            + choice,
    );
    broadcast use occurs_extended;

}

proof fn sort_orders(f: &ListForFiltersFn, variant: DeleteOption)
    ensures
        in_order(
            f.sort_code(variant),
            "\npub async fn "@ + ("list_for_filters"@ + variant.postfix() + "_in_op"@),
            ended(f.sort_arms(variant), "\n"@),
        ),
{
    reveal(ListForFiltersFn::sort_code);
    let in_op = "list_for_filters"@ + variant.postfix() + "_in_op"@;
    let lead = "\npub async fn "@ + in_op;
    assert forall|t: Seq<char>| #[trigger] (t + "\npub async fn "@ + in_op) == t + lead by {
        assert(t + "\npub async fn "@ + in_op =~= t + lead);
    }
    broadcast use {in_order_extended, occurs_extended};

}

/// Whether code hands a call on to the repository, with the scope that the view is
/// bound to.
pub open spec fn hands_on(
    code: Seq<char>,
    name: Seq<char>,
    alone: bool,
    args: Seq<char>,
) -> bool {
    &&& alone ==> starts_with(code, "pub async fn "@ + name + "("@) && occurs(
        code,
        "self.repo."@ + name + "(self.scope, "@ + args,
    )
    &&& in_order(
        code,
        "pub async fn "@ + name + "_in_op"@,
        "self.repo."@ + name + "_in_op(op, self.scope, "@ + args,
    )
}

/// In the view that is bound to a scope the functions that are sorted by a column
/// hand on the scope that it is bound to.
pub proof fn filters_delegates(f: &ListForFiltersFn, by: Column, with_deleted: bool)
    ensures
        hands_on(
            f.by_delegate(by, variant_of(with_deleted)),
            "list_for_filters_by_"@ + by.name@ + (if with_deleted {
                "_include_deleted"@
            } else {
                ""@
            }),
            !f.in_op_only,
            "filters, cursor, direction).await"@,
        ),
{
    let variant = variant_of(with_deleted);
    let name = f.by_name(by, variant);
    delegate_in_op(
        only_if(
            !f.in_op_only,
            crate::filters_code::by_delegate_standalone_code(
                name,
                f.filters_struct.named(),
                f.cursor_mod@,
                f.cursor_spec(by).named(),
                f.entity@,
                f.query_error@,
            ),
        ),
        name + "_in_op"@,
        crate::options::repository::query_generics(false),
        crate::options::repository::query_op_arg(false),
        f.filters_struct.named(),
        f.cursor_mod@,
        f.cursor_spec(by).named(),
        f.entity@,
        f.query_error@,
        crate::options::repository::query_op_traits(false),
    );
    let args = "filters, cursor, direction).await"@;
    let code = f.by_delegate(by, variant);
    reveal_strlit("_in_op(op, self.scope, ");
    reveal_strlit("_in_op");
    reveal_strlit("(op, self.scope, ");
    assert("_in_op(op, self.scope, "@ =~= "_in_op"@ + "(op, self.scope, "@);
    assert("self.repo."@ + name + "_in_op(op, self.scope, "@ + args =~= "self.repo."@ + (name
        + "_in_op"@) + ("(op, self.scope, "@ + args));
    assert("pub async fn "@ + name + "_in_op"@ =~= "pub async fn "@ + (name + "_in_op"@));
    if !f.in_op_only {
        let alone = crate::filters_code::by_delegate_standalone_code(
            name,
            f.filters_struct.named(),
            f.cursor_mod@,
            f.cursor_spec(by).named(),
            f.entity@,
            f.query_error@,
        );
        delegate_alone(
            name,
            f.filters_struct.named(),
            f.cursor_mod@,
            f.cursor_spec(by).named(),
            f.entity@,
            f.query_error@,
        );
        opening_opens(
            code,
            alone,
            "pub async fn "@ + name + "("@,
            "self.repo."@ + name + "(self.scope, "@ + args,
        );
    }
}

proof fn delegate_alone(
    name: Seq<char>,
    filters: Seq<char>,
    cursor_mod: Seq<char>,
    cursor: Seq<char>,
    entity: Seq<char>,
    error: Seq<char>,
)
    ensures
        ({
            let code = crate::filters_code::by_delegate_standalone_code(
                name,
                filters,
                cursor_mod,
                cursor,
                entity,
                error,
            );
            &&& starts_with(code, "pub async fn "@ + name + "("@)
            &&& occurs(
                code,
                "self.repo."@ + name + "(self.scope, "@ + "filters, cursor, direction).await"@,
            )
        }),
{
    let code = crate::filters_code::by_delegate_standalone_code(
        name,
        filters,
        cursor_mod,
        cursor,
        entity,
        error,
    );
    let end = "(self.scope, filters, cursor, direction).await\n}"@;
    let call = "> {\n    self.repo."@ + name + end;
    let inner = "self.repo."@ + name + "(self.scope, "@ + "filters, cursor, direction).await"@;
    assert(starts_with(code, "pub async fn "@ + name + "("@)) by {
        reveal_strlit("(\n    &self,\n    filters: ");
        reveal_strlit("(");
        reveal_strlit("\n    &self,\n    filters: ");
        assert("(\n    &self,\n    filters: "@ =~= "("@ + "\n    &self,\n    filters: "@);
        assert("pub async fn "@ + name + "(\n    &self,\n    filters: "@ =~= ("pub async fn "@ + name
            + "("@) + "\n    &self,\n    filters: "@);
        assert(starts_with(
            "pub async fn "@ + name + "(\n    &self,\n    filters: "@,
            "pub async fn "@ + name + "("@,
        ));
        broadcast use starts_extended;

    }
    assert(occurs(code, call)) by {
        assert forall|t: Seq<char>| #[trigger]
            (t + "> {\n    self.repo."@ + name + end) == t + call by {
            assert(t + "> {\n    self.repo."@ + name + end =~= t + call);
        }
        broadcast use occurs_extended;

    }
    assert(occurs(call, inner)) by {
        reveal_strlit("> {\n    self.repo.");
        reveal_strlit("> {\n    ");
        reveal_strlit("self.repo.");
        reveal_strlit("(self.scope, filters, cursor, direction).await\n}");
        reveal_strlit("(self.scope, ");
        reveal_strlit("filters, cursor, direction).await");
        reveal_strlit("\n}");
        assert("> {\n    self.repo."@ =~= "> {\n    "@ + "self.repo."@);
        assert(end =~= "(self.scope, "@ + "filters, cursor, direction).await"@ + "\n}"@);
        assert(call =~= "> {\n    "@ + inner + "\n}"@);
    }
    occurs_within(code, call, inner);
}

proof fn delegate_in_op(
    alone: Seq<char>,
    in_op: Seq<char>,
    generics: Seq<char>,
    op: Seq<char>,
    filters: Seq<char>,
    cursor_mod: Seq<char>,
    cursor: Seq<char>,
    entity: Seq<char>,
    error: Seq<char>,
    traits: Seq<char>,
)
    ensures
        ({
            let code = crate::filters_code::by_delegates_code(
                alone,
                in_op,
                generics,
                op,
                filters,
                cursor_mod,
                cursor,
                entity,
                error,
                traits,
            );
            &&& starts_with(code, alone)
            &&& in_order(
                code,
                "pub async fn "@ + in_op,
                "self.repo."@ + in_op + ("(op, self.scope, "@
                    + "filters, cursor, direction).await"@),
            )
        }),
{
    let code = crate::filters_code::by_delegates_code(
        alone,
        in_op,
        generics,
        op,
        filters,
        cursor_mod,
        cursor,
        entity,
        error,
        traits,
    );
    let end = "(op, self.scope, filters, cursor, direction).await\n}"@;
    let lead = "\npub async fn "@ + in_op;
    let call = "\n{\n    self.repo."@ + in_op + end;
    let inner = "self.repo."@ + in_op + ("(op, self.scope, "@
        + "filters, cursor, direction).await"@);
    assert(starts_with(code, alone)) by {
        assert(alone =~= alone + Seq::<char>::empty());
        assert(starts_with(alone, alone));
        broadcast use starts_extended;

    }
    assert(in_order(code, lead, call)) by {
        assert forall|t: Seq<char>| #[trigger]
            (t + "\n{\n    self.repo."@ + in_op + end) == t + call by {
            assert(t + "\n{\n    self.repo."@ + in_op + end =~= t + call);
        }
        assert forall|t: Seq<char>| #[trigger] (t + "\npub async fn "@ + in_op) == t + lead by {
            assert(t + "\npub async fn "@ + in_op =~= t + lead);
        }
        broadcast use {in_order_extended, occurs_extended};

    }
    assert(occurs(call, inner)) by {
        reveal_strlit("\n{\n    self.repo.");
        reveal_strlit("\n{\n    ");
        reveal_strlit("self.repo.");
        reveal_strlit("(op, self.scope, filters, cursor, direction).await\n}");
        reveal_strlit("(op, self.scope, ");
        reveal_strlit("filters, cursor, direction).await");
        reveal_strlit("\n}");
        assert("\n{\n    self.repo."@ =~= "\n{\n    "@ + "self.repo."@);
        assert(end =~= "(op, self.scope, "@ + "filters, cursor, direction).await"@ + "\n}"@);
        assert(call =~= "\n{\n    "@ + inner + "\n}"@);
    }
    assert(occurs(lead, "pub async fn "@ + in_op)) by {
        reveal_strlit("\npub async fn ");
        reveal_strlit("\n");
        reveal_strlit("pub async fn ");
        assert("\npub async fn "@ =~= "\n"@ + "pub async fn "@);
        assert(lead =~= "\n"@ + ("pub async fn "@ + in_op) + Seq::<char>::empty());
    }
    in_order_within(code, lead, call, "pub async fn "@ + in_op, inner);
}

/// The choice of a filter and a sort column: the cursor is one of the sort column,
/// and the list is the one of the name, with the arguments.
pub open spec fn case_of(
    names: CaseNames,
    filter: Seq<char>,
    by: Column,
    list: Seq<char>,
    arg: Seq<char>,
) -> Seq<char> {
    "("@ + names.filter + "::"@ + filter + ", "@ + names.sort_by + "::"@ + cased(
        by.name@,
        NameCase::UpperCamel,
    ) + ") => {\n    let after = after.map("@ + names.cursor_mod + "::"@ + cased(
        names.plural + "_by_"@ + by.name@ + "_cursor"@,
        NameCase::UpperCamel,
    )
        + "::try_from).transpose()?;\n    let query = es_entity::PaginatedQueryArgs { first, after };\n    let es_entity::PaginatedQueryRet {\n        entities,\n        has_next_page,\n        end_cursor,\n    } = self."@
        + list + "("@ + arg + " query, direction).await?;"@
}

proof fn case_opens(
    filter_name: Seq<char>,
    pattern: Seq<char>,
    sort_by: Seq<char>,
    by: Seq<char>,
    cursor_mod: Seq<char>,
    inner: Seq<char>,
    list: Seq<char>,
    arg: Seq<char>,
    cursor: Seq<char>,
)
    ensures
        occurs(
            crate::list_for_filter_fn::case_arm_code(
                filter_name,
                pattern,
                sort_by,
                by,
                cursor_mod,
                inner,
                list,
                arg,
                cursor,
            ),
            "("@ + filter_name + "::"@ + pattern + ", "@ + sort_by + "::"@ + by
                + ") => {\n    let after = after.map("@ + cursor_mod + "::"@ + inner
                + "::try_from).transpose()?;\n    let query = es_entity::PaginatedQueryArgs { first, after };\n    let es_entity::PaginatedQueryRet {\n        entities,\n        has_next_page,\n        end_cursor,\n    } = self."@
                + list + "("@ + arg + " query, direction).await?;"@,
        ),
{
    let front = "("@ + filter_name + "::"@ + pattern + ", "@ + sort_by + "::"@ + by
        + ") => {\n    let after = after.map("@ + cursor_mod + "::"@ + inner
        + "::try_from).transpose()?;\n    let query = es_entity::PaginatedQueryArgs { first, after };\n    let es_entity::PaginatedQueryRet {\n        entities,\n        has_next_page,\n        end_cursor,\n    } = self."@
        + list + "("@ + arg;
    let end = " query, direction).await?;\n    es_entity::PaginatedQueryRet {\n        entities,\n        has_next_page,\n        end_cursor: end_cursor.map("@;
    let rest = "\n    es_entity::PaginatedQueryRet {\n        entities,\n        has_next_page,\n        end_cursor: end_cursor.map("@;
    let arm = front + " query, direction).await?;"@;
    reveal_strlit(" query, direction).await?;\n    es_entity::PaginatedQueryRet {\n        entities,\n        has_next_page,\n        end_cursor: end_cursor.map(");
    reveal_strlit("\n    es_entity::PaginatedQueryRet {\n        entities,\n        has_next_page,\n        end_cursor: end_cursor.map(");
    reveal_strlit(" query, direction).await?;");
    assert(end =~= " query, direction).await?;"@ + rest);
    assert(front + end =~= Seq::<char>::empty() + arm + rest);
    assert(occurs(front + end, arm));
    broadcast use occurs_extended;

}

/// A list for one filter of a choice is, for the filter by a column and a sort
/// column, the list for the one that is sorted by the other, and without a filter
/// the list that is sorted by the column. With deleted entities it is the list
/// that holds them.
pub proof fn cases_are_told(
    names: CaseNames,
    list_for_fns: Seq<ListForFn>,
    by_columns: Seq<Column>,
    with_deleted: bool,
)
    ensures
        forall|i: int|
            0 <= i < list_for_fns.len() ==> occurs(
                filter_arms(names, list_for_fns, by_columns, variant_of(with_deleted)),
                #[trigger] filter_case(names, list_for_fns[i], with_deleted),
            ),
        forall|i: int|
            0 <= i < by_columns.len() ==> occurs(
                filter_arms(names, list_for_fns, by_columns, variant_of(with_deleted)),
                #[trigger] plain_case(names, by_columns[i], with_deleted),
            ),
{
    let variant = variant_of(with_deleted);
    let filtered = Seq::new(
        list_for_fns.len(),
        |i: int| list_for_arm(names, list_for_fns[i], variant),
    );
    let plain = Seq::new(by_columns.len(), |i: int| list_by_arm(names, by_columns[i], variant));
    let all = filter_arms(names, list_for_fns, by_columns, variant);
    assert forall|i: int| 0 <= i < list_for_fns.len() implies occurs(
        all,
        #[trigger] filter_case(names, list_for_fns[i], with_deleted),
    ) by {
        let f = list_for_fns[i];
        let arm = filter_case(names, f, with_deleted);
        let list = "list_for_"@ + f.for_column.name@ + "_by_"@ + f.by_column.name@
            + variant.postfix();
        case_opens(
            names.filter,
            cased("with_"@ + f.for_column.name@, NameCase::UpperCamel) + "(filter_value)"@,
            names.sort_by,
            cased(f.by_column.name@, NameCase::UpperCamel),
            names.cursor_mod,
            cased(names.plural + "_by_"@ + f.by_column.name@ + "_cursor"@, NameCase::UpperCamel),
            list,
            "filter_value,"@,
            names.cursor,
        );
        ended_holds(filtered, "\n"@, i);
        occurs_within(ended(filtered, "\n"@), filtered[i], arm);
        occurs_extended(ended(filtered, "\n"@), ended(plain, "\n"@), arm);
    }
    assert forall|i: int| 0 <= i < by_columns.len() implies occurs(
        all,
        #[trigger] plain_case(names, by_columns[i], with_deleted),
    ) by {
        let by = by_columns[i];
        let arm = plain_case(names, by, with_deleted);
        case_opens(
            names.filter,
            "NoFilter"@,
            names.sort_by,
            cased(by.name@, NameCase::UpperCamel),
            names.cursor_mod,
            cased(names.plural + "_by_"@ + by.name@ + "_cursor"@, NameCase::UpperCamel),
            "list_by_"@ + by.name@ + variant.postfix(),
            ""@,
            names.cursor,
        );
        ended_holds(plain, "\n"@, i);
        occurs_within(ended(plain, "\n"@), plain[i], arm);
        occurs_behind(ended(filtered, "\n"@), ended(plain, "\n"@), arm);
    }
}

/// The choice of the filter by a column.
pub open spec fn filter_case(names: CaseNames, f: ListForFn, with_deleted: bool) -> Seq<char> {
    case_of(
        names,
        cased("with_"@ + f.for_column.name@, NameCase::UpperCamel) + "(filter_value)"@,
        *f.by_column,
        "list_for_"@ + f.for_column.name@ + "_by_"@ + f.by_column.name@ + (if with_deleted {
            "_include_deleted"@
        } else {
            ""@
        }),
        "filter_value,"@,
    )
}

/// The choice of no filter.
pub open spec fn plain_case(names: CaseNames, by: Column, with_deleted: bool) -> Seq<char> {
    case_of(
        names,
        "NoFilter"@,
        by,
        "list_by_"@ + by.name@ + (if with_deleted {
            "_include_deleted"@
        } else {
            ""@
        }),
        ""@,
    )
}

} // verus!
