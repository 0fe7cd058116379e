use vstd::prelude::*;
use vstd::string::*;

verus! {

/// A value bound to a statement parameter; never spliced into the SQL text.
#[derive(Debug, PartialEq, Eq)]
pub enum SqlValue {
    Text(String),
    OptText(Option<String>),
    Int(i32),
    BigInt(i64),
    /// An amount in minor currency units (hundredths).
    Price(i64),
    Bool(bool),
    Id(u128),
}

/// The mathematical value of a bound parameter.
pub enum Param {
    Text(Seq<char>),
    OptText(Option<Seq<char>>),
    Int(i32),
    BigInt(i64),
    Price(i64),
    Bool(bool),
    Id(u128),
}

impl View for SqlValue {
    type V = Param;

    open spec fn view(&self) -> Param {
        match self {
            SqlValue::Text(s) => Param::Text(s@),
            SqlValue::OptText(s) => Param::OptText(
                match s {
                    Some(t) => Some(t@),
                    None => None,
                },
            ),
            SqlValue::Int(v) => Param::Int(*v),
            SqlValue::BigInt(v) => Param::BigInt(*v),
            SqlValue::Price(v) => Param::Price(*v),
            SqlValue::Bool(v) => Param::Bool(*v),
            SqlValue::Id(v) => Param::Id(*v),
        }
    }
}

impl Clone for SqlValue {
    fn clone(&self) -> (r: Self)
        ensures
            r == *self,
    {
        match self {
            SqlValue::Text(s) => SqlValue::Text(s.clone()),
            SqlValue::OptText(s) => match s {
                Some(t) => SqlValue::OptText(Some(t.clone())),
                None => SqlValue::OptText(None),
            },
            SqlValue::Int(v) => SqlValue::Int(*v),
            SqlValue::BigInt(v) => SqlValue::BigInt(*v),
            SqlValue::Price(v) => SqlValue::Price(*v),
            SqlValue::Bool(v) => SqlValue::Bool(*v),
            SqlValue::Id(v) => SqlValue::Id(*v),
        }
    }
}

/// The columns that filters may constrain.
#[derive(Debug, Clone, Copy, PartialEq, Eq, Structural)]
pub enum Column {
    Name,
    Category,
    Price,
    IsActive,
    Username,
    Email,
}

/// How a column is compared with the bound value.
#[derive(Debug, Clone, Copy, PartialEq, Eq, Structural)]
pub enum Op {
    /// Case-insensitive pattern match.
    ILike,
    Equal,
    AtLeast,
    AtMost,
}

/// One condition of a filter: `column op value`, with the value bound.
#[derive(Debug, PartialEq, Eq)]
pub struct Predicate {
    pub column: Column,
    pub op: Op,
    pub value: SqlValue,
}

/// The mathematical value of a condition.
pub struct Cond {
    pub column: Column,
    pub op: Op,
    pub value: Param,
}

impl View for Predicate {
    type V = Cond;

    open spec fn view(&self) -> Cond {
        Cond { column: self.column, op: self.op, value: self.value@ }
    }
}

/// The values of a sequence of parameters.
pub open spec fn params_view(v: Seq<SqlValue>) -> Seq<Param> {
    v.map_values(|x: SqlValue| x@)
}

/// The values of a sequence of conditions.
pub open spec fn conds_view(v: Seq<Predicate>) -> Seq<Cond> {
    v.map_values(|x: Predicate| x@)
}

impl Clone for Predicate {
    fn clone(&self) -> (r: Self)
        ensures
            r == *self,
    {
        Predicate { column: self.column, op: self.op, value: self.value.clone() }
    }
}

/// SQL text with `$n` placeholders and the values bound to them, in order.
#[derive(Debug, PartialEq, Eq)]
pub struct Statement {
    pub sql: String,
    pub params: Vec<SqlValue>,
}

/// The ten decimal digits.
pub open spec fn digit_chars() -> Seq<char> {
    seq!['0', '1', '2', '3', '4', '5', '6', '7', '8', '9']
}

/// Decimal notation of `n`, without leading zeros.
pub open spec fn decimal(n: nat) -> Seq<char>
    decreases n,
{
    if n < 10 {
        seq![digit_chars()[n as int]]
    } else {
        decimal(n / 10).push(digit_chars()[(n % 10) as int])
    }
}

pub(crate) fn digit_str(d: u64) -> (r: &'static str)
    requires
        d < 10,
    ensures
        r@ == seq![digit_chars()[d as int]],
{
    proof {
        reveal_strlit("0");
        reveal_strlit("1");
        reveal_strlit("2");
        reveal_strlit("3");
        reveal_strlit("4");
        reveal_strlit("5");
        reveal_strlit("6");
        reveal_strlit("7");
        reveal_strlit("8");
        reveal_strlit("9");
    }
    let r = match d {
        0 => "0",
        1 => "1",
        2 => "2",
        3 => "3",
        4 => "4",
        5 => "5",
        6 => "6",
        7 => "7",
        8 => "8",
        _ => "9",
    };
    assert(r@ =~= seq![digit_chars()[d as int]]);
    r
}

/// Decimal notation of `n`.
pub fn decimal_text(n: u64) -> (r: String)
    ensures
        r@ == decimal(n as nat),
{
    let mut acc = String::from_str(digit_str(n % 10));
    let mut m: u64 = n / 10;
    proof {
        if n < 10 {
            assert(acc@ =~= decimal(n as nat));
        } else {
            assert(decimal(n as nat) =~= decimal(m as nat) + acc@);
        }
    }
    while m > 0
        invariant
            m == 0 ==> acc@ == decimal(n as nat),
            m > 0 ==> decimal(n as nat) =~= decimal(m as nat) + acc@,
        decreases m,
    {
        let d = digit_str(m % 10);
        let next = String::from_str(d).concat(acc.as_str());
        proof {
            if m < 10 {
                assert(decimal(m as nat) =~= d@);
            } else {
                assert(decimal(m as nat) =~= decimal((m / 10) as nat) + d@);
            }
            assert(decimal(n as nat) =~= decimal(m as nat) + acc@);
            assert(next@ =~= d@ + acc@);
            if m / 10 > 0 {
                assert(decimal(n as nat) =~= decimal((m / 10) as nat) + next@);
            } else {
                assert(next@ =~= decimal(n as nat));
            }
        }
        acc = next;
        m = m / 10;
    }
    acc
}

/// SQL name of a column.
pub open spec fn column_text(c: Column) -> Seq<char> {
    match c {
        Column::Name => "name"@,
        Column::Category => "category"@,
        Column::Price => "price"@,
        Column::IsActive => "is_active"@,
        Column::Username => "username"@,
        Column::Email => "email"@,
    }
}

/// SQL comparison of an operator, with the surrounding spaces.
pub open spec fn op_text(o: Op) -> Seq<char> {
    match o {
        Op::ILike => " ILIKE "@,
        Op::Equal => " = "@,
        Op::AtLeast => " >= "@,
        Op::AtMost => " <= "@,
    }
}

/// The condition text of `p` bound to placeholder `$k`.
pub open spec fn clause_text(p: Cond, k: nat) -> Seq<char> {
    " AND "@ + column_text(p.column) + op_text(p.op) + "$"@ + decimal(k)
}

/// The conditions of `preds`, bound to placeholders `$1`, `$2`, ... in order.
pub open spec fn conditions_text(preds: Seq<Cond>) -> Seq<char>
    decreases preds.len(),
{
    if preds.len() == 0 {
        Seq::empty()
    } else {
        conditions_text(preds.drop_last()) + clause_text(preds.last(), preds.len())
    }
}

/// The values bound by `preds`, in order.
pub open spec fn values_of(preds: Seq<Cond>) -> Seq<Param> {
    preds.map_values(|p: Cond| p.value)
}

/// Text of a listing query: projection, conditions, ordering, then the
/// optional limit and offset placeholders numbered after the conditions.
pub open spec fn select_text(
    base: Seq<char>,
    preds: Seq<Cond>,
    order: Column,
    has_limit: bool,
    has_offset: bool,
) -> Seq<char> {
    let n = preds.len();
    let limit_part = if has_limit { " LIMIT $"@ + decimal(n + 1) } else { Seq::empty() };
    let offset_k = if has_limit { n + 2 } else { n + 1 };
    let offset_part = if has_offset { " OFFSET $"@ + decimal(offset_k) } else { Seq::empty() };
    base + " WHERE 1=1"@ + conditions_text(preds) + " ORDER BY "@ + column_text(order) + " ASC"@
        + limit_part + offset_part
}

/// Parameters of a listing query: the conditions' values, then the limit
/// and the offset where given.
pub open spec fn select_params(
    preds: Seq<Cond>,
    limit: Option<i64>,
    offset: Option<i64>,
) -> Seq<Param> {
    let l = match limit {
        Some(v) => seq![Param::BigInt(v)],
        None => Seq::empty(),
    };
    let o = match offset {
        Some(v) => seq![Param::BigInt(v)],
        None => Seq::empty(),
    };
    values_of(preds) + l + o
}

fn column_str(c: Column) -> (r: &'static str)
    ensures
        r@ == column_text(c),
{
    match c {
        Column::Name => "name",
        Column::Category => "category",
        Column::Price => "price",
        Column::IsActive => "is_active",
        Column::Username => "username",
        Column::Email => "email",
    }
}

fn op_str(o: Op) -> (r: &'static str)
    ensures
        r@ == op_text(o),
{
    match o {
        Op::ILike => " ILIKE ",
        Op::Equal => " = ",
        Op::AtLeast => " >= ",
        Op::AtMost => " <= ",
    }
}

/// Builds the listing query `base WHERE 1=1 <conditions> ORDER BY <order>
/// ASC [LIMIT ..] [OFFSET ..]`, every value bound as a parameter.
pub fn select_statement(
    base: &str,
    preds: &Vec<Predicate>,
    order: Column,
    limit: Option<i64>,
    offset: Option<i64>,
) -> (r: Statement)
    requires
        preds@.len() + 2 <= u64::MAX,
    ensures
        r.sql@ == select_text(base@, conds_view(preds@), order, limit is Some, offset is Some),
        params_view(r.params@) == select_params(conds_view(preds@), limit, offset),
{
    let mut sql = String::from_str(base).concat(" WHERE 1=1");
    let mut params: Vec<SqlValue> = Vec::new();
    let ghost head = base@ + " WHERE 1=1"@;
    let mut i: usize = 0;
    while i < preds.len()
        invariant
            i <= preds@.len(),
            preds@.len() + 2 <= u64::MAX,
            sql@ == head + conditions_text(conds_view(preds@.subrange(0, i as int))),
            params_view(params@) == values_of(conds_view(preds@.subrange(0, i as int))),
        decreases preds@.len() - i,
    {
        let p = &preds[i];
        let k = decimal_text((i + 1) as u64);
        let clause = String::from_str(" AND ")
            .concat(column_str(p.column))
            .concat(op_str(p.op))
            .concat("$")
            .concat(k.as_str());
        sql = sql.concat(clause.as_str());
        let ghost old_params = params@;
        params.push(p.value.clone());
        proof {
            let s = conds_view(preds@.subrange(0, i + 1));
            assert(s.drop_last() =~= conds_view(preds@.subrange(0, i as int)));
            assert(s.last() == preds@[i as int]@);
            assert(clause@ =~= clause_text(preds@[i as int]@, (i + 1) as nat));
            assert(values_of(s) =~= values_of(conds_view(preds@.subrange(0, i as int))).push(p.value@));
            assert(params_view(params@) =~= params_view(old_params).push(p.value@));
        }
        i = i + 1;
    }
    proof {
        assert(preds@.subrange(0, preds@.len() as int) =~= preds@);
    }
    sql = sql.concat(" ORDER BY ").concat(column_str(order)).concat(" ASC");
    let n = preds.len() as u64;
    let mut next: u64 = n + 1;
    match limit {
        Some(v) => {
            let k = decimal_text(next);
            sql = sql.concat(" LIMIT $").concat(k.as_str());
            params.push(SqlValue::BigInt(v));
            next = next + 1;
        },
        None => {},
    }
    match offset {
        Some(v) => {
            let k = decimal_text(next);
            sql = sql.concat(" OFFSET $").concat(k.as_str());
            params.push(SqlValue::BigInt(v));
        },
        None => {},
    }
    proof {
        assert(sql@ =~= select_text(base@, conds_view(preds@), order, limit is Some, offset is Some));
        assert(params_view(params@) =~= select_params(conds_view(preds@), limit, offset));
    }
    Statement { sql, params }
}

} // verus!
