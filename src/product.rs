use vstd::prelude::*;
use vstd::string::*;
use crate::error::{bad_request_with, not_found_with, ApiError};
use crate::ident::{hyphenated, id_text};
use crate::query::{
    conds_view, params_view, select_params, select_statement, select_text, Column, Cond, Op, Param,
    Predicate, SqlValue, Statement,
};

verus! {

/// A point in time: whole seconds since the Unix epoch and the nanoseconds
/// past that second.
#[derive(Debug, Clone, Copy, PartialEq, Eq, Structural)]
pub struct Timestamp {
    pub seconds: i64,
    pub nanos: u32,
}

/// A stored product. Prices are in minor currency units (hundredths).
#[derive(Debug, PartialEq, Eq)]
pub struct Product {
    pub id: u128,
    pub name: String,
    pub description: Option<String>,
    pub price: i64,
    pub stock: i32,
    pub category: Option<String>,
    pub is_active: bool,
    pub created_at: Timestamp,
    pub updated_at: Timestamp,
}

/// What a caller supplies to create a product; `stock` defaults to zero.
#[derive(Debug, PartialEq, Eq)]
pub struct CreateProduct {
    pub name: String,
    pub description: Option<String>,
    pub price: i64,
    pub stock: Option<i32>,
    pub category: Option<String>,
}

/// A merge-update of a product: an absent field is left as it is.
#[derive(Debug, PartialEq, Eq)]
pub struct UpdateProduct {
    pub name: Option<String>,
    pub description: Option<String>,
    pub price: Option<i64>,
    pub stock: Option<i32>,
    pub category: Option<String>,
    pub is_active: Option<bool>,
}

/// Optional conditions on a product listing; an absent field constrains nothing.
#[derive(Debug, PartialEq, Eq)]
pub struct ProductFilter {
    pub name: Option<String>,
    pub category: Option<String>,
    pub min_price: Option<i64>,
    pub max_price: Option<i64>,
    pub is_active: Option<bool>,
    pub limit: Option<i64>,
    pub offset: Option<i64>,
}

impl ProductFilter {
    /// A filter that constrains nothing and pages nothing.
    pub fn new() -> (r: ProductFilter)
        ensures
            r.name is None,
            r.category is None,
            r.min_price is None,
            r.max_price is None,
            r.is_active is None,
            r.limit is None,
            r.offset is None,
    {
        ProductFilter {
            name: None,
            category: None,
            min_price: None,
            max_price: None,
            is_active: None,
            limit: None,
            offset: None,
        }
    }
}

/// The columns a product query returns.
pub const PRODUCT_COLUMNS: &'static str =
    "id, name, description, price, stock, category, is_active, created_at, updated_at";

/// The projection every product listing starts from.
pub const SELECT_PRODUCT_BASE: &'static str =
    "SELECT id, name, description, price, stock, category, is_active, created_at, updated_at FROM products";

/// The view of an optional text.
pub open spec fn opt_text(o: Option<String>) -> Option<Seq<char>> {
    match o {
        Some(s) => Some(s@),
        None => None,
    }
}

/// `s` with each LIKE wildcard (`%`, `_`) and the escape character `\`
/// preceded by `\`, so that every character of `s` matches only itself.
pub open spec fn like_escaped(s: Seq<char>) -> Seq<char>
    decreases s.len(),
{
    if s.len() == 0 {
        Seq::empty()
    } else {
        let c = s.last();
        like_escaped(s.drop_last()) + if c == '%' || c == '_' || c == '\\' {
            seq!['\\', c]
        } else {
            seq![c]
        }
    }
}

/// The pattern that matches any text containing `s` literally.
pub open spec fn containing_pattern(s: Seq<char>) -> Seq<char> {
    "%"@ + like_escaped(s) + "%"@
}

/// The LIKE pattern that matches exactly the texts containing `s`.
pub fn containing(s: &str) -> (r: String)
    ensures
        r@ == containing_pattern(s@),
{
    proof {
        reveal_strlit("%");
        reveal_strlit("\\");
    }
    let n = s.unicode_len();
    let mut out = String::from_str("%");
    let mut i: usize = 0;
    while i < n
        invariant
            n == s@.len(),
            i <= n,
            out@ == "%"@ + like_escaped(s@.subrange(0, i as int)),
        decreases n - i,
    {
        let c = s.get_char(i);
        let ghost before = out@;
        if c == '%' || c == '_' || c == '\\' {
            let esc = "\\";
            proof {
                reveal_strlit("\\");
                assert(esc@.len() == 1);
                assert(esc@[0] == '\\');
            }
            out.append(esc);
            assert(out@ =~= before + seq!['\\']);
        } else {
            assert(out@ =~= before);
        }
        let ghost mid = out@;
        let one = s.substring_char(i, i + 1);
        out.append(one);
        proof {
            let t = s@.subrange(0, i + 1);
            assert(t.drop_last() =~= s@.subrange(0, i as int));
            assert(t.last() == c);
            assert(one@ =~= seq![c]);
            assert(out@ =~= mid + seq![c]);
            assert(like_escaped(t) =~= like_escaped(s@.subrange(0, i as int)) + if c == '%' || c == '_'
                || c == '\\' {
                seq!['\\', c]
            } else {
                seq![c]
            });
            assert(out@ =~= "%"@ + like_escaped(t));
        }
        i = i + 1;
    }
    out.append("%");
    proof {
        assert(s@.subrange(0, n as int) =~= s@);
    }
    out
}

/// The one condition `column op value`, or none.
pub open spec fn cond_if(present: bool, column: Column, op: Op, value: Param) -> Seq<Cond> {
    if present {
        seq![Cond { column, op, value }]
    } else {
        Seq::empty()
    }
}

/// The conditions of a product filter, in their fixed order: name contains
/// (case-insensitive), category equals, price at least, price at most,
/// active flag equals. Each present field gives exactly one condition.
pub open spec fn product_conditions_of(f: ProductFilter) -> Seq<Cond> {
    cond_if(
        f.name is Some,
        Column::Name,
        Op::ILike,
        Param::Text(containing_pattern(f.name->0@)),
    ) + cond_if(f.category is Some, Column::Category, Op::Equal, Param::Text(f.category->0@))
        + cond_if(f.min_price is Some, Column::Price, Op::AtLeast, Param::Price(f.min_price->0))
        + cond_if(f.max_price is Some, Column::Price, Op::AtMost, Param::Price(f.max_price->0))
        + cond_if(f.is_active is Some, Column::IsActive, Op::Equal, Param::Bool(f.is_active->0))
}

/// The conditions that `f` places on a product listing.
pub fn product_conditions(f: &ProductFilter) -> (r: Vec<Predicate>)
    ensures
        conds_view(r@) == product_conditions_of(*f),
{
    let mut r: Vec<Predicate> = Vec::new();
    let ghost mut want: Seq<Cond> = Seq::empty();
    match &f.name {
        Some(s) => {
            let pattern = containing(s.as_str());
            r.push(Predicate { column: Column::Name, op: Op::ILike, value: SqlValue::Text(pattern) });
        },
        None => {},
    }
    proof {
        want = cond_if(f.name is Some, Column::Name, Op::ILike, Param::Text(containing_pattern(f.name->0@)));
        assert(conds_view(r@) =~= want);
    }
    match &f.category {
        Some(s) => {
            r.push(Predicate { column: Column::Category, op: Op::Equal, value: SqlValue::Text(s.clone()) });
        },
        None => {},
    }
    proof {
        want = want + cond_if(f.category is Some, Column::Category, Op::Equal, Param::Text(f.category->0@));
        assert(conds_view(r@) =~= want);
    }
    match f.min_price {
        Some(v) => {
            r.push(Predicate { column: Column::Price, op: Op::AtLeast, value: SqlValue::Price(v) });
        },
        None => {},
    }
    proof {
        want = want + cond_if(f.min_price is Some, Column::Price, Op::AtLeast, Param::Price(f.min_price->0));
        assert(conds_view(r@) =~= want);
    }
    match f.max_price {
        Some(v) => {
            r.push(Predicate { column: Column::Price, op: Op::AtMost, value: SqlValue::Price(v) });
        },
        None => {},
    }
    proof {
        want = want + cond_if(f.max_price is Some, Column::Price, Op::AtMost, Param::Price(f.max_price->0));
        assert(conds_view(r@) =~= want);
    }
    match f.is_active {
        Some(v) => {
            r.push(Predicate { column: Column::IsActive, op: Op::Equal, value: SqlValue::Bool(v) });
        },
        None => {},
    }
    proof {
        want = want + cond_if(f.is_active is Some, Column::IsActive, Op::Equal, Param::Bool(f.is_active->0));
        assert(conds_view(r@) =~= want);
    }
    r
}

/// The listing query for `f`: its conditions, ordered by name, with the
/// limit and offset it gives.
pub fn product_list_statement(f: &ProductFilter) -> (r: Statement)
    ensures
        r.sql@ == select_text(
            SELECT_PRODUCT_BASE@,
            product_conditions_of(*f),
            Column::Name,
            f.limit is Some,
            f.offset is Some,
        ),
        params_view(r.params@) == select_params(product_conditions_of(*f), f.limit, f.offset),
{
    let preds = product_conditions(f);
    select_statement(SELECT_PRODUCT_BASE, &preds, Column::Name, f.limit, f.offset)
}

/// Why a new product breaks the domain rules, checked in this order: a
/// negative price, an empty name, a negative stock.
pub open spec fn new_product_problem(p: CreateProduct) -> Option<Seq<char>> {
    if p.price < 0 {
        Some("Price cannot be negative"@)
    } else if p.name@.len() == 0 {
        Some("Name cannot be empty"@)
    } else if p.stock matches Some(s) && s < 0 {
        Some("Stock cannot be negative"@)
    } else {
        None
    }
}

/// Why a product update breaks the domain rules, checked for the fields it
/// sets in the same order as for a new product.
pub open spec fn update_problem(u: UpdateProduct) -> Option<Seq<char>> {
    if u.price matches Some(v) && v < 0 {
        Some("Price cannot be negative"@)
    } else if u.name matches Some(n) && n@.len() == 0 {
        Some("Name cannot be empty"@)
    } else if u.stock matches Some(s) && s < 0 {
        Some("Stock cannot be negative"@)
    } else {
        None
    }
}

/// `r` rejects the input with exactly the message `problem`, or accepts it
/// when there is none.
pub open spec fn rejects_as(r: Result<(), ApiError>, problem: Option<Seq<char>>) -> bool {
    match problem {
        None => r is Ok,
        Some(m) => bad_request_with(r, m),
    }
}

/// Rejects a price below zero.
pub fn check_price(price: i64) -> (r: Result<(), ApiError>)
    ensures
        rejects_as(r, if price < 0 { Some("Price cannot be negative"@) } else { None }),
{
    if price < 0 {
        return Err(ApiError::BadRequest(String::from_str("Price cannot be negative")));
    }
    Ok(())
}

/// Checks a new product against the domain rules before anything is stored.
pub fn check_new_product(p: &CreateProduct) -> (r: Result<(), ApiError>)
    ensures
        rejects_as(r, new_product_problem(*p)),
{
    check_price(p.price)?;
    if p.name.as_str().is_empty() {
        return Err(ApiError::BadRequest(String::from_str("Name cannot be empty")));
    }
    match p.stock {
        Some(s) => {
            if s < 0 {
                return Err(ApiError::BadRequest(String::from_str("Stock cannot be negative")));
            }
        },
        None => {},
    }
    Ok(())
}

/// Checks the fields that an update sets against the domain rules.
pub fn check_update(u: &UpdateProduct) -> (r: Result<(), ApiError>)
    ensures
        rejects_as(r, update_problem(*u)),
{
    match u.price {
        Some(v) => {
            check_price(v)?;
        },
        None => {},
    }
    match &u.name {
        Some(n) => {
            if n.as_str().is_empty() {
                return Err(ApiError::BadRequest(String::from_str("Name cannot be empty")));
            }
        },
        None => {},
    }
    match u.stock {
        Some(s) => {
            if s < 0 {
                return Err(ApiError::BadRequest(String::from_str("Stock cannot be negative")));
            }
        },
        None => {},
    }
    Ok(())
}

/// The statement that inserts a product and returns the stored row.
pub const INSERT_PRODUCT: &'static str =
    "INSERT INTO products (name, description, price, stock, category) VALUES ($1, $2, $3, $4, $5) RETURNING id, name, description, price, stock, category, is_active, created_at, updated_at";

/// The statement that reads one product.
pub const FIND_PRODUCT: &'static str =
    "SELECT id, name, description, price, stock, category, is_active, created_at, updated_at FROM products WHERE id = $1";

/// The statement that reads one product and locks its row until the
/// transaction ends.
pub const LOCK_PRODUCT: &'static str =
    "SELECT id, name, description, price, stock, category, is_active, created_at, updated_at FROM products WHERE id = $1 FOR UPDATE";

/// The statement that writes every field of a product and returns the row.
pub const UPDATE_PRODUCT: &'static str =
    "UPDATE products SET name = $1, description = $2, price = $3, stock = $4, category = $5, is_active = $6, updated_at = NOW() WHERE id = $7 RETURNING id, name, description, price, stock, category, is_active, created_at, updated_at";

/// The statement that deletes one product.
pub const DELETE_PRODUCT: &'static str = "DELETE FROM products WHERE id = $1";

/// The values bound when inserting `p`; an absent stock is stored as zero.
pub open spec fn insert_params_of(p: CreateProduct) -> Seq<Param> {
    seq![
        Param::Text(p.name@),
        Param::OptText(opt_text(p.description)),
        Param::Price(p.price),
        Param::Int(if p.stock is Some { p.stock->0 } else { 0 }),
        Param::OptText(opt_text(p.category)),
    ]
}

fn clone_opt(o: &Option<String>) -> (r: Option<String>)
    ensures
        r == *o,
{
    match o {
        Some(s) => Some(s.clone()),
        None => None,
    }
}

/// The insert for a new product, once it has passed the domain rules; a
/// rejected product yields no statement at all.
pub fn create_product_statement(p: &CreateProduct) -> (r: Result<Statement, ApiError>)
    ensures
        r is Ok <==> new_product_problem(*p) is None,
        r matches Err(e) ==> rejects_as(Err(e), new_product_problem(*p)),
        r matches Ok(st) ==> st.sql@ == INSERT_PRODUCT@ && params_view(st.params@)
            == insert_params_of(*p),
{
    check_new_product(p)?;
    let stock: i32 = match p.stock {
        Some(s) => s,
        None => 0,
    };
    let mut params: Vec<SqlValue> = Vec::new();
    params.push(SqlValue::Text(p.name.clone()));
    params.push(SqlValue::OptText(clone_opt(&p.description)));
    params.push(SqlValue::Price(p.price));
    params.push(SqlValue::Int(stock));
    params.push(SqlValue::OptText(clone_opt(&p.category)));
    assert(params_view(params@) =~= insert_params_of(*p));
    Ok(Statement { sql: String::from_str(INSERT_PRODUCT), params })
}

/// A statement on one product that binds only its identifier.
fn by_id(sql: &str, id: u128) -> (r: Statement)
    ensures
        r.sql@ == sql@,
        params_view(r.params@) == seq![Param::Id(id)],
{
    let mut params: Vec<SqlValue> = Vec::new();
    params.push(SqlValue::Id(id));
    assert(params_view(params@) =~= seq![Param::Id(id)]);
    Statement { sql: String::from_str(sql), params }
}

/// The read of one product.
pub fn find_product_statement(id: u128) -> (r: Statement)
    ensures
        r.sql@ == FIND_PRODUCT@,
        params_view(r.params@) == seq![Param::Id(id)],
{
    by_id(FIND_PRODUCT, id)
}

/// The locking read of one product, the first step of an update.
pub fn lock_product_statement(id: u128) -> (r: Statement)
    ensures
        r.sql@ == LOCK_PRODUCT@,
        params_view(r.params@) == seq![Param::Id(id)],
{
    by_id(LOCK_PRODUCT, id)
}

/// The delete of one product.
pub fn delete_product_statement(id: u128) -> (r: Statement)
    ensures
        r.sql@ == DELETE_PRODUCT@,
        params_view(r.params@) == seq![Param::Id(id)],
{
    by_id(DELETE_PRODUCT, id)
}

/// `current` with every field that `u` sets replaced by the new value.
pub open spec fn merged(current: Product, u: UpdateProduct) -> Product {
    Product {
        id: current.id,
        name: if u.name is Some { u.name->0 } else { current.name },
        description: if u.description is Some { u.description } else { current.description },
        price: if u.price is Some { u.price->0 } else { current.price },
        stock: if u.stock is Some { u.stock->0 } else { current.stock },
        category: if u.category is Some { u.category } else { current.category },
        is_active: if u.is_active is Some { u.is_active->0 } else { current.is_active },
        created_at: current.created_at,
        updated_at: current.updated_at,
    }
}

/// The domain rules a stored product keeps: a name, and a price and a
/// stock that are never negative.
pub open spec fn product_valid(p: Product) -> bool {
    &&& p.name@.len() > 0
    &&& p.price >= 0
    &&& p.stock >= 0
}

/// Merges an update into the current product: a field the update sets is
/// replaced, any other is kept. An update that passed the domain rules
/// keeps a valid product valid.
pub fn merge_product(current: &Product, u: &UpdateProduct) -> (r: Product)
    ensures
        r == merged(*current, *u),
        product_valid(*current) && update_problem(*u) is None ==> product_valid(r),
{
    Product {
        id: current.id,
        name: match &u.name {
            Some(n) => n.clone(),
            None => current.name.clone(),
        },
        description: match &u.description {
            Some(_) => clone_opt(&u.description),
            None => clone_opt(&current.description),
        },
        price: match u.price {
            Some(v) => v,
            None => current.price,
        },
        stock: match u.stock {
            Some(v) => v,
            None => current.stock,
        },
        category: match &u.category {
            Some(_) => clone_opt(&u.category),
            None => clone_opt(&current.category),
        },
        is_active: match u.is_active {
            Some(v) => v,
            None => current.is_active,
        },
        created_at: current.created_at,
        updated_at: current.updated_at,
    }
}

/// The values bound when writing `p` back.
pub open spec fn update_params_of(p: Product) -> Seq<Param> {
    seq![
        Param::Text(p.name@),
        Param::OptText(opt_text(p.description)),
        Param::Price(p.price),
        Param::Int(p.stock),
        Param::OptText(opt_text(p.category)),
        Param::Bool(p.is_active),
        Param::Id(p.id),
    ]
}

/// The write of a merged product, the second step of an update.
pub fn update_product_statement(p: &Product) -> (r: Statement)
    ensures
        r.sql@ == UPDATE_PRODUCT@,
        params_view(r.params@) == update_params_of(*p),
{
    let mut params: Vec<SqlValue> = Vec::new();
    params.push(SqlValue::Text(p.name.clone()));
    params.push(SqlValue::OptText(clone_opt(&p.description)));
    params.push(SqlValue::Price(p.price));
    params.push(SqlValue::Int(p.stock));
    params.push(SqlValue::OptText(clone_opt(&p.category)));
    params.push(SqlValue::Bool(p.is_active));
    params.push(SqlValue::Id(p.id));
    assert(params_view(params@) =~= update_params_of(*p));
    Statement { sql: String::from_str(UPDATE_PRODUCT), params }
}

/// The message for a product that is not there.
pub open spec fn product_missing(id: u128) -> Seq<char> {
    "Product with ID "@ + hyphenated(id) + " not found"@
}

/// The not-found failure for product `id`.
pub fn product_not_found(id: u128) -> (r: ApiError)
    ensures
        not_found_with(Err::<(), ApiError>(r), product_missing(id)),
{
    let t = id_text(id);
    ApiError::NotFound(String::from_str("Product with ID ").concat(t.as_str()).concat(" not found"))
}

/// The outcome of reading product `id`: the row, or not-found when there
/// is none.
pub fn found_product(row: Option<Product>, id: u128) -> (r: Result<Product, ApiError>)
    ensures
        row matches Some(p) ==> r == Ok::<Product, ApiError>(p),
        row is None ==> not_found_with(r, product_missing(id)),
{
    match row {
        Some(p) => Ok(p),
        None => Err(product_not_found(id)),
    }
}

/// The outcome of deleting product `id`, from the number of rows the delete
/// removed: none means the product was not there.
pub fn product_deleted(rows_affected: u64, id: u128) -> (r: Result<(), ApiError>)
    ensures
        rows_affected > 0 <==> r is Ok,
        rows_affected == 0 ==> not_found_with(r, product_missing(id)),
{
    if rows_affected == 0 {
        return Err(product_not_found(id));
    }
    Ok(())
}

/// A product with a negative price is refused with a bad request before any
/// statement exists, so nothing is written.
pub proof fn lemma_negative_price_rejected(p: CreateProduct)
    requires
        p.price < 0,
    ensures
        new_product_problem(p) == Some("Price cannot be negative"@),
{
}

/// A filter with no condition fields constrains nothing: the listing has no
/// conditions and returns every row in name order, up to the limit.
pub proof fn lemma_empty_filter_selects_all(f: ProductFilter)
    requires
        f.name is None,
        f.category is None,
        f.min_price is None,
        f.max_price is None,
        f.is_active is None,
    ensures
        product_conditions_of(f) == Seq::<Cond>::empty(),
{
    assert(product_conditions_of(f) =~= Seq::<Cond>::empty());
}

/// Adding price bounds to a filter never widens the listing: the wider
/// filter's conditions all stay among the narrower one's, so whatever each
/// condition means for a row, a row that meets all of the narrower filter's
/// conditions meets all of the wider one's.
pub proof fn lemma_price_bounds_narrow(f: ProductFilter, g: ProductFilter, holds: spec_fn(Cond) -> bool)
    requires
        g.name == f.name,
        g.category == f.category,
        g.is_active == f.is_active,
        f.min_price is Some ==> g.min_price == f.min_price,
        f.max_price is Some ==> g.max_price == f.max_price,
        forall|i: int| 0 <= i < product_conditions_of(g).len() ==> holds(#[trigger] product_conditions_of(g)[i]),
    ensures
        forall|i: int| 0 <= i < product_conditions_of(f).len() ==> holds(#[trigger] product_conditions_of(f)[i]),
{
    let a1 = cond_if(f.name is Some, Column::Name, Op::ILike, Param::Text(containing_pattern(f.name->0@)));
    let a2 = cond_if(f.category is Some, Column::Category, Op::Equal, Param::Text(f.category->0@));
    let a3 = cond_if(f.min_price is Some, Column::Price, Op::AtLeast, Param::Price(f.min_price->0));
    let a4 = cond_if(f.max_price is Some, Column::Price, Op::AtMost, Param::Price(f.max_price->0));
    let a5 = cond_if(f.is_active is Some, Column::IsActive, Op::Equal, Param::Bool(f.is_active->0));
    let b3 = cond_if(g.min_price is Some, Column::Price, Op::AtLeast, Param::Price(g.min_price->0));
    let b4 = cond_if(g.max_price is Some, Column::Price, Op::AtMost, Param::Price(g.max_price->0));
    let cf = product_conditions_of(f);
    let cg = product_conditions_of(g);
    assert(cf == a1 + a2 + a3 + a4 + a5);
    assert(cg == a1 + a2 + b3 + b4 + a5);
    assert forall|i: int| 0 <= i < cf.len() implies holds(#[trigger] cf[i]) by {
        let k1 = a1.len() as int;
        let k2 = k1 + a2.len();
        let k3 = k2 + a3.len();
        let k4 = k3 + a4.len();
        let l3 = k2 + b3.len();
        let l4 = l3 + b4.len();
        if i < k2 {
            assert(cf[i] == cg[i]);
            assert(holds(cg[i]));
        } else if i < k3 {
            assert(cf[i] == cg[k2]);
            assert(holds(cg[k2]));
        } else if i < k4 {
            assert(cf[i] == cg[l3]);
            assert(holds(cg[l3]));
        } else {
            assert(cf[i] == cg[l4 + (i - k4)]);
            assert(holds(cg[l4 + (i - k4)]));
        }
    }
}

/// Two updates of one product, serialized by the row lock: the second
/// merges into the row the first committed. A field the second sets has the
/// second's value; a field only the first sets keeps the first's value; no
/// write is silently lost.
pub proof fn lemma_serialized_updates_lose_nothing(
    base: Product,
    first: UpdateProduct,
    second: UpdateProduct,
)
    ensures
        ({
            let after = merged(merged(base, first), second);
            &&& after.id == base.id
            &&& after.name == if second.name is Some {
                second.name->0
            } else if first.name is Some {
                first.name->0
            } else {
                base.name
            }
            &&& after.description == if second.description is Some {
                second.description
            } else if first.description is Some {
                first.description
            } else {
                base.description
            }
            &&& after.price == if second.price is Some {
                second.price->0
            } else if first.price is Some {
                first.price->0
            } else {
                base.price
            }
            &&& after.stock == if second.stock is Some {
                second.stock->0
            } else if first.stock is Some {
                first.stock->0
            } else {
                base.stock
            }
            &&& after.category == if second.category is Some {
                second.category
            } else if first.category is Some {
                first.category
            } else {
                base.category
            }
            &&& after.is_active == if second.is_active is Some {
                second.is_active->0
            } else if first.is_active is Some {
                first.is_active->0
            } else {
                base.is_active
            }
        }),
{
}

} // verus!
