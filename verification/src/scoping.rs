//! Scopes: that the value that is passed as the scope of a read is the one that
//! its query is restricted to.

use vstd::prelude::*;
use vstd::string::*;

use crate::scope::{dispatch_arms, scope_from_impls_code, ScopeInfo, ScopeType};
use crate::text::{joined, joined_holds, occurs, occurs_extended, occurs_within};

verus! {

/// What a conversion into the scope type gives.
pub enum Given {
    /// The variant of a column, with the value.
    Variant(Seq<char>),
    /// The scope itself.
    Itself,
}

/// A conversion into the scope type.
pub struct Conversion {
    /// The type of the value.
    pub from: Seq<char>,
    /// Whether the value is passed by reference.
    pub by_ref: bool,
    pub scope_ty: Seq<char>,
    pub given: Given,
}

impl Conversion {
    /// The conversion as it is written.
    #[verifier::opaque]
    pub open spec fn text(self) -> Seq<char> {
        let from = (if self.by_ref {
            "&"@
        } else {
            ""@
        }) + self.from;
        let value = if self.by_ref {
            "*value"@
        } else {
            "value"@
        };
        "impl From<"@ + from + "> for "@ + self.scope_ty + " {\n    fn from(value: "@ + from
            + ") -> Self {\n        "@ + (match self.given {
            Given::Variant(variant) => self.scope_ty + "::"@ + variant + "("@ + value + ")"@,
            Given::Itself => value,
        }) + "\n    }\n}"@
    }

    /// Whether the conversion restricts to the value that is passed, in the
    /// column that stands at `i`.
    pub open spec fn restricts_to(self, info: ScopeInfo, i: int) -> bool {
        &&& self.scope_ty == info.scope_ty@
        &&& self.from == info.cols@[i].column_ty@
        &&& self.given == Given::Variant(info.cols@[i].variant@)
    }

    /// Whether the conversion hands a scope on as it is.
    pub open spec fn keeps(self, info: ScopeInfo) -> bool {
        &&& self.scope_ty == info.scope_ty@
        &&& self.from == info.scope_ty@
        &&& self.given == Given::Itself
    }
}

/// The conversions as they are written.
pub open spec fn conversion_texts(conversions: Seq<Conversion>) -> Seq<Seq<char>> {
    Seq::new(conversions.len(), |i: int| conversions[i].text())
}

spec fn converts(info: ScopeInfo, i: int, by_ref: bool) -> Conversion {
    Conversion {
        from: info.cols@[i].column_ty@,
        by_ref,
        scope_ty: info.scope_ty@,
        given: Given::Variant(info.cols@[i].variant@),
    }
}

spec fn column_conversions(info: ScopeInfo, n: nat) -> Seq<Conversion>
    decreases n,
{
    if n == 0 {
        Seq::empty()
    } else {
        column_conversions(info, (n - 1) as nat).push(converts(info, n - 1, false)).push(
            converts(info, n - 1, true),
        )
    }
}

proof fn column_conversions_at(info: ScopeInfo, n: nat)
    ensures
        column_conversions(info, n).len() == 2 * n,
        forall|i: int|
            0 <= i < n ==> (#[trigger] column_conversions(info, n)[2 * i]) == converts(
                info,
                i,
                false,
            ) && column_conversions(info, n)[2 * i + 1] == converts(info, i, true),
    decreases n,
{
    if n > 0 {
        column_conversions_at(info, (n - 1) as nat);
        let front = column_conversions(info, (n - 1) as nat);
        assert forall|i: int| 0 <= i < n implies (#[trigger] column_conversions(info, n)[2 * i])
            == converts(info, i, false) && column_conversions(info, n)[2 * i + 1] == converts(
            info,
            i,
            true,
        ) by {
            if i < n - 1 {
                assert(front[2 * i] == converts(info, i, false));
            }
        }
    }
}

proof fn joined_push(parts: Seq<Seq<char>>, last: Seq<char>, sep: Seq<char>)
    ensures
        joined(parts.push(last), sep) == (if parts.len() == 0 {
            last
        } else {
            joined(parts, sep) + sep + last
        }),
{
    assert(parts.push(last).drop_last() =~= parts);
}

proof fn conversions_of_column(scope_ty: Seq<char>, variant: Seq<char>, column_ty: Seq<char>)
    ensures
        ({
            let given = Given::Variant(variant);
            let a = Conversion { from: column_ty, by_ref: false, scope_ty, given };
            let b = Conversion { from: column_ty, by_ref: true, scope_ty, given };
            scope_from_impls_code(scope_ty, variant, column_ty) == a.text() + "\n"@ + b.text()
        }),
{
    let given = Given::Variant(variant);
    let a = Conversion { from: column_ty, by_ref: false, scope_ty, given };
    let b = Conversion { from: column_ty, by_ref: true, scope_ty, given };
    reveal(Conversion::text);
    reveal_strlit("");
    reveal_strlit("&");
    reveal_strlit("impl From<");
    reveal_strlit(" {\n    fn from(value: ");
    reveal_strlit(" {\n    fn from(value: &");
    reveal_strlit("\n    }\n}");
    reveal_strlit("\n");
    reveal_strlit("(");
    reveal_strlit(")");
    reveal_strlit("value");
    reveal_strlit("*value");
    reveal_strlit("(value)\n    }\n}\nimpl From<&");
    reveal_strlit("(*value)\n    }\n}");
    assert(" {\n    fn from(value: &"@ =~= " {\n    fn from(value: "@ + "&"@);
    assert("(value)\n    }\n}\nimpl From<&"@ =~= "("@ + "value"@ + ")"@ + "\n    }\n}"@ + "\n"@
        + "impl From<"@ + "&"@);
    assert("(*value)\n    }\n}"@ =~= "("@ + "*value"@ + ")"@ + "\n    }\n}"@);
    assert(""@ + column_ty =~= column_ty);
    let first = a.text();
    let second = b.text();
    assert(first =~= "impl From<"@ + column_ty + "> for "@ + scope_ty + " {\n    fn from(value: "@
        + column_ty + ") -> Self {\n        "@ + scope_ty + "::"@ + variant + ("("@ + "value"@ + ")"@
        + "\n    }\n}"@));
    assert(second =~= ("impl From<"@ + "&"@) + column_ty + "> for "@ + scope_ty
        + (" {\n    fn from(value: "@ + "&"@) + column_ty + ") -> Self {\n        "@ + scope_ty
        + "::"@ + variant + ("("@ + "*value"@ + ")"@ + "\n    }\n}"@));
    assert(scope_from_impls_code(scope_ty, variant, column_ty) =~= first + "\n"@ + second);
}

proof fn conversions_are_joined(t: &ScopeType, n: nat)
    requires
        n <= t.info.cols.len(),
    ensures
        joined(t.conversions().take(n as int), "\n"@) == joined(
            conversion_texts(column_conversions(t.info, n)),
            "\n"@,
        ),
    decreases n,
{
    let texts = conversion_texts(column_conversions(t.info, n));
    let whole = t.conversions();
    if n > 0 {
        let m = (n - 1) as nat;
        conversions_are_joined(t, m);
        column_conversions_at(t.info, m);
        let front = conversion_texts(column_conversions(t.info, m));
        let col = t.info.cols@[m as int];
        conversions_of_column(t.info.scope_ty@, col.variant@, col.column_ty@);
        let a = converts(t.info, m as int, false).text();
        let b = converts(t.info, m as int, true).text();
        assert(whole[m as int] == a + "\n"@ + b);
        assert(texts =~= front.push(a).push(b));
        assert(whole.take(n as int) =~= whole.take(m as int).push(whole[m as int]));
        joined_push(front, a, "\n"@);
        joined_push(front.push(a), b, "\n"@);
        joined_push(whole.take(m as int), whole[m as int], "\n"@);
        if m > 0 {
            let before = joined(front, "\n"@);
            assert(before + "\n"@ + (a + "\n"@ + b) =~= before + "\n"@ + a + "\n"@ + b);
        }
    } else {
        assert(whole.take(0) =~= texts);
    }
}

proof fn keeping_is_written(ty: Seq<char>)
    ensures
        "\n"@ + (Conversion { from: ty, by_ref: true, scope_ty: ty, given: Given::Itself }).text()
            == "\nimpl From<&"@ + ty + "> for "@ + ty + " {\n    fn from(value: &"@ + ty
            + ") -> Self {\n        *value\n    }\n}"@,
{
    reveal(Conversion::text);
    let keep = Conversion { from: ty, by_ref: true, scope_ty: ty, given: Given::Itself };
    let kept = "\nimpl From<&"@ + ty + "> for "@ + ty + " {\n    fn from(value: &"@ + ty
        + ") -> Self {\n        *value\n    }\n}"@;
    reveal_strlit("\n");
    reveal_strlit("&");
    reveal_strlit("impl From<");
    reveal_strlit("\nimpl From<&");
    reveal_strlit(" {\n    fn from(value: ");
    reveal_strlit(" {\n    fn from(value: &");
    reveal_strlit(") -> Self {\n        ");
    reveal_strlit("*value");
    reveal_strlit("\n    }\n}");
    reveal_strlit(") -> Self {\n        *value\n    }\n}");
    assert("\nimpl From<&"@ =~= "\n"@ + "impl From<"@ + "&"@);
    assert(" {\n    fn from(value: &"@ =~= " {\n    fn from(value: "@ + "&"@);
    assert(") -> Self {\n        *value\n    }\n}"@ =~= ") -> Self {\n        "@ + "*value"@
        + "\n    }\n}"@);
    assert("\n"@ + keep.text() =~= kept);
}

proof fn declares_enum(t: &ScopeType) -> (declared: Seq<char>)
    ensures
        occurs(declared, "pub enum "@ + t.info.scope_ty@ + " {"@),
        t.code() == declared + "\n}\n"@ + joined(t.conversions(), "\n"@) + ("\nimpl From<&"@
            + t.info.scope_ty@ + "> for "@ + t.info.scope_ty@ + " {\n    fn from(value: &"@
            + t.info.scope_ty@ + ") -> Self {\n        *value\n    }\n}"@),
{
    reveal(ScopeType::code);
    let ty = t.info.scope_ty@;
    let doc = crate::text::literal(crate::scope::scope_doc_code(t.entity@));
    let start = "#[doc = "@ + doc + "]\n#[derive(Debug, Clone, Copy)]\npub enum "@ + ty;
    let middle = " {\n    /// No scope filter — reads across all scopes.\n    All,\n    "@;
    let variants = joined(t.variants(), "\n"@);
    let impls = joined(t.conversions(), "\n"@);
    let declared = start + middle + variants;
    assert(occurs(declared, "pub enum "@ + ty + " {"@)) by {
        reveal_strlit("]\n#[derive(Debug, Clone, Copy)]\npub enum ");
        reveal_strlit("]\n#[derive(Debug, Clone, Copy)]\n");
        reveal_strlit("pub enum ");
        reveal_strlit(" {\n    /// No scope filter — reads across all scopes.\n    All,\n    ");
        reveal_strlit(" {");
        reveal_strlit("\n    /// No scope filter — reads across all scopes.\n    All,\n    ");
        let rest = "\n    /// No scope filter — reads across all scopes.\n    All,\n    "@;
        assert("]\n#[derive(Debug, Clone, Copy)]\npub enum "@
            =~= "]\n#[derive(Debug, Clone, Copy)]\n"@ + "pub enum "@);
        assert(middle =~= " {"@ + rest);
        assert(declared =~= ("#[doc = "@ + doc + "]\n#[derive(Debug, Clone, Copy)]\n"@) + (
        "pub enum "@ + ty + " {"@) + (rest + variants));
    }
    let kept = "\nimpl From<&"@ + ty + "> for "@ + ty + " {\n    fn from(value: &"@ + ty
        + ") -> Self {\n        *value\n    }\n}"@;
    assert(t.code() =~= declared + "\n}\n"@ + impls + kept);
    declared
}

/// The conversions into the scope type are these: from the type of each scope
/// column, by value and by reference, to the variant of that column with that
/// value, and from a reference to a scope to the scope. So nothing is converted to
/// the variant that lifts the restriction but that variant itself.
pub proof fn values_are_converted(t: &ScopeType) -> (conversions: Seq<Conversion>)
    requires
        t.info.cols.len() > 0,
    ensures
        exists|declared: Seq<char>|
            t.code() == #[trigger] (declared + "\n}\n"@) + joined(
                conversion_texts(conversions),
                "\n"@,
            ) && occurs(declared, "pub enum "@ + t.info.scope_ty@ + " {"@),
        conversions.len() == 2 * t.info.cols.len() + 1,
        conversions.last().keeps(t.info) && conversions.last().by_ref,
        forall|i: int|
            0 <= i < t.info.cols.len() ==> {
                &&& (#[trigger] conversions[2 * i]).restricts_to(t.info, i)
                &&& !conversions[2 * i].by_ref
                &&& conversions[2 * i + 1].restricts_to(t.info, i)
                &&& conversions[2 * i + 1].by_ref
            },
{
    let info = t.info;
    let ty = info.scope_ty@;
    let n = info.cols.len() as nat;
    let cols = column_conversions(info, n);
    let keep = Conversion { from: ty, by_ref: true, scope_ty: ty, given: Given::Itself };
    let conversions = cols.push(keep);
    conversions_are_joined(t, n);
    column_conversions_at(info, n);
    assert(t.conversions().take(n as int) =~= t.conversions());
    let texts = conversion_texts(cols);
    assert(conversion_texts(conversions) =~= texts.push(keep.text()));
    joined_push(texts, keep.text(), "\n"@);
    keeping_is_written(ty);
    let impls = joined(t.conversions(), "\n"@);
    let declared = declares_enum(t);
    let last = "\n"@ + keep.text();
    let all = joined(conversion_texts(conversions), "\n"@);
    assert(all == impls + "\n"@ + keep.text());
    assert(declared + "\n}\n"@ + impls + last =~= (declared + "\n}\n"@) + all);
    assert forall|i: int| 0 <= i < n implies {
        &&& (#[trigger] conversions[2 * i]).restricts_to(info, i)
        &&& !conversions[2 * i].by_ref
        &&& conversions[2 * i + 1].restricts_to(info, i)
        &&& conversions[2 * i + 1].by_ref
    } by {
        assert(cols[2 * i] == converts(info, i, false));
    }
    conversions
}

/// By its scope a read runs the body of the column whose variant the scope is,
/// with `__scope_val` bound to the value, and the unrestricted body where no
/// restriction is asked for.
pub proof fn scopes_are_dispatched(info: &ScopeInfo, all: Seq<char>, bodies: Seq<Seq<char>>)
    requires
        bodies.len() == info.cols.len(),
    ensures
        ({
            let ty = info.scope_ty@;
            let code = info.dispatched(all, bodies);
            &&& occurs(code, "match &__scope {\n    "@ + ty + "::All => "@ + all + ",\n"@)
            &&& forall|i: int|
                0 <= i < info.cols.len() ==> occurs(
                    code,
                    ty + "::"@ + (#[trigger] info.cols@[i]).variant@ + "(__scope_val) => "@
                        + bodies[i] + ","@,
                )
        }),
{
    let ty = info.scope_ty@;
    let code = info.dispatched(all, bodies);
    let arms = dispatch_arms(ty, info.cols@, bodies);
    reveal_strlit(",\n    ");
    reveal_strlit(",\n");
    reveal_strlit("    ");
    assert(",\n    "@ =~= ",\n"@ + "    "@);
    let open = "match &__scope {\n    "@ + ty + "::All => "@ + all + ",\n"@;
    assert(code =~= Seq::<char>::empty() + open + ("    "@ + joined(arms, "\n"@) + "\n}"@));
    assert forall|i: int| 0 <= i < info.cols.len() implies occurs(
        code,
        ty + "::"@ + (#[trigger] info.cols@[i]).variant@ + "(__scope_val) => "@ + bodies[i] + ","@,
    ) by {
        joined_holds(arms, "\n"@, i);
        assert(occurs(code, joined(arms, "\n"@))) by {
            broadcast use occurs_extended;

        }
        occurs_within(code, joined(arms, "\n"@), arms[i]);
    }
}

/// Whether code is, without scopes, the unrestricted body, and otherwise runs it
/// where no restriction is asked for, and by the variant of the scope the body for
/// the column.
pub open spec fn goes_by_scope(
    code: Seq<char>,
    scope: Option<ScopeInfo>,
    all: Seq<char>,
    bodies: Seq<Seq<char>>,
) -> bool {
    match scope {
        None => code == all,
        Some(info) => {
            &&& occurs(code, "match &__scope {\n    "@ + info.scope_ty@ + "::All => "@ + all + ",\n"@)
            &&& forall|i: int|
                0 <= i < info.cols.len() ==> occurs(
                    code,
                    info.scope_ty@ + "::"@ + (#[trigger] info.cols@[i]).variant@
                        + "(__scope_val) => "@ + bodies[i] + ","@,
                )
        },
    }
}

} // verus!
