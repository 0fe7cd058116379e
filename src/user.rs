use vstd::prelude::*;
use vstd::string::*;
use vstd::utf8::encode_utf8;
use crate::credential::{argon2_verdict, hash_password, is_credential_for, verify_password};
use crate::error::{bad_request_with, conflict_with, is_internal, not_found_with, unauthorized_with, ApiError};
use crate::ident::{hyphenated, id_text};
use crate::product::{containing, containing_pattern, cond_if, rejects_as, Timestamp};
use crate::query::{
    conds_view, params_view, select_params, select_statement, select_text, Column, Cond, Op, Param,
    Predicate, SqlValue, Statement,
};
use crate::token::{issued_for, TokenService, TOKEN_LIFETIME_SECS};

verus! {

/// A stored user. `password` holds the Argon2 hash, never the plaintext.
#[derive(Debug, PartialEq, Eq)]
pub struct User {
    pub id: u128,
    pub username: String,
    pub email: String,
    pub password: String,
    pub created_at: Timestamp,
    pub updated_at: Timestamp,
}

/// What a caller supplies to register; the password is plaintext here.
#[derive(Debug, PartialEq, Eq)]
pub struct CreateUser {
    pub username: String,
    pub email: String,
    pub password: String,
}

/// Credentials offered at login.
#[derive(Debug, PartialEq, Eq)]
pub struct LoginUser {
    pub email: String,
    pub password: String,
}

/// A merge-update of a user: an absent field is left as it is; a new
/// password is hashed before it is stored.
#[derive(Debug, PartialEq, Eq)]
pub struct UpdateUser {
    pub username: Option<String>,
    pub email: Option<String>,
    pub password: Option<String>,
}

/// Optional conditions on a user listing; an absent field constrains nothing.
#[derive(Debug, PartialEq, Eq)]
pub struct UserFilter {
    pub username: Option<String>,
    pub email: Option<String>,
    pub limit: Option<i64>,
    pub offset: Option<i64>,
}

/// A user as shown to callers: everything but the credential.
#[derive(Debug, PartialEq, Eq)]
pub struct UserResponse {
    pub id: u128,
    pub username: String,
    pub email: String,
    pub created_at: Timestamp,
    pub updated_at: Timestamp,
}

/// The answer to a successful login.
#[derive(Debug, PartialEq, Eq)]
pub struct AuthResponse {
    pub user: UserResponse,
    pub token: String,
}

/// The public part of a user.
pub open spec fn response_of_user(u: User) -> UserResponse {
    UserResponse {
        id: u.id,
        username: u.username,
        email: u.email,
        created_at: u.created_at,
        updated_at: u.updated_at,
    }
}

impl From<User> for UserResponse {
    fn from(user: User) -> (r: UserResponse)
        ensures
            r == response_of_user(user),
    {
        UserResponse {
            id: user.id,
            username: user.username,
            email: user.email,
            created_at: user.created_at,
            updated_at: user.updated_at,
        }
    }
}

impl vstd::std_specs::convert::FromSpecImpl<User> for UserResponse {
    open spec fn obeys_from_spec() -> bool {
        true
    }

    open spec fn from_spec(user: User) -> UserResponse {
        response_of_user(user)
    }
}

/// The address shape every email must have.
pub const EMAIL_PATTERN: &'static str = r"^[a-zA-Z0-9._%+-]+@[a-zA-Z0-9.-]+\.[a-zA-Z]{2,}$";

/// Whether the `regex` crate compiles `pattern` (`None` if it cannot) and
/// finds a match of it in `text`.
pub uninterp spec fn regex_verdict(pattern: Seq<char>, text: Seq<char>) -> Option<bool>;

/// Relies on `regex::Regex::new` and `regex::Regex::is_match`.
#[verifier::external_body]
fn regex_is_match(pattern: &str, text: &str) -> (r: Option<bool>)
    ensures
        r == regex_verdict(pattern@, text@),
{
    regex::Regex::new(pattern).ok().map(|re| re.is_match(text))
}

/// `email` has the shape of an address.
pub open spec fn valid_email(email: Seq<char>) -> bool {
    regex_verdict(EMAIL_PATTERN@, email) == Some(true)
}

/// Whether `email` has the shape of an address: a local part, `@`, a domain
/// and a top-level domain of at least two letters.
pub fn is_valid_email(email: &str) -> (r: bool)
    ensures
        r == valid_email(email@),
{
    match regex_is_match(EMAIL_PATTERN, email) {
        Some(b) => b,
        None => false,
    }
}

/// The shortest password accepted, in bytes.
pub const MIN_PASSWORD_LEN: usize = 8;

/// Rejects a password shorter than eight bytes.
pub fn validate_password(password: &str) -> (r: Result<(), ApiError>)
    ensures
        rejects_as(
            r,
            if password.spec_bytes().len() < 8 {
                Some("Password must be at least 8 characters"@)
            } else {
                None
            },
        ),
{
    if password.as_bytes().len() < MIN_PASSWORD_LEN {
        return Err(ApiError::BadRequest(String::from_str("Password must be at least 8 characters")));
    }
    Ok(())
}

/// Why a registration is refused before any lookup: a malformed email,
/// then a short password.
pub open spec fn registration_problem(u: CreateUser) -> Option<Seq<char>> {
    if !valid_email(u.email@) {
        Some("Invalid email format"@)
    } else if encode_utf8(u.password@).len() < 8 {
        Some("Password must be at least 8 characters"@)
    } else {
        None
    }
}

/// Why a user update is refused before any lookup: a malformed new email,
/// then a short new password.
pub open spec fn user_update_problem(u: UpdateUser) -> Option<Seq<char>> {
    if u.email matches Some(e) && !valid_email(e@) {
        Some("Invalid email format"@)
    } else if u.password matches Some(p) && encode_utf8(p@).len() < 8 {
        Some("Password must be at least 8 characters"@)
    } else {
        None
    }
}

/// Checks a registration's email shape and password length.
pub fn check_registration(u: &CreateUser) -> (r: Result<(), ApiError>)
    ensures
        rejects_as(r, registration_problem(*u)),
{
    if !is_valid_email(u.email.as_str()) {
        return Err(ApiError::BadRequest(String::from_str("Invalid email format")));
    }
    validate_password(u.password.as_str())
}

/// Checks the email shape and password length of the fields an update sets.
pub fn check_user_update(u: &UpdateUser) -> (r: Result<(), ApiError>)
    ensures
        rejects_as(r, user_update_problem(*u)),
{
    match &u.email {
        Some(e) => {
            if !is_valid_email(e.as_str()) {
                return Err(ApiError::BadRequest(String::from_str("Invalid email format")));
            }
        },
        None => {},
    }
    match &u.password {
        Some(p) => validate_password(p.as_str()),
        None => Ok(()),
    }
}

/// The unique fields of a user.
#[derive(Debug, Clone, Copy, PartialEq, Eq, Structural)]
pub enum UniqueField {
    Username,
    Email,
}

/// The conflict message naming a unique field that is already taken.
pub open spec fn taken_message(field: UniqueField) -> Seq<char> {
    match field {
        UniqueField::Username => "Username already in use"@,
        UniqueField::Email => "Email already in use"@,
    }
}

/// The outcome of looking up a unique field's new value: a conflict naming
/// the field when another user already holds it.
pub fn ensure_unique(field: UniqueField, taken: bool) -> (r: Result<(), ApiError>)
    ensures
        !taken <==> r is Ok,
        taken ==> conflict_with(r, taken_message(field)),
{
    if taken {
        let m = match field {
            UniqueField::Username => String::from_str("Username already in use"),
            UniqueField::Email => String::from_str("Email already in use"),
        };
        return Err(ApiError::Conflict(m));
    }
    Ok(())
}

/// The exact-match lookups a change must pass, as (field, value) views.
pub open spec fn lookups_view(v: Seq<(UniqueField, String)>) -> Seq<(UniqueField, Seq<char>)> {
    v.map_values(|x: (UniqueField, String)| (x.0, x.1@))
}

/// The lookups an update needs, in order: its new email, then its new
/// username, each only when it differs from the current value.
pub open spec fn update_lookups(current: User, u: UpdateUser) -> Seq<(UniqueField, Seq<char>)> {
    (if u.email matches Some(e) && e@ != current.email@ {
        seq![(UniqueField::Email, u.email->0@)]
    } else {
        Seq::empty()
    }) + (if u.username matches Some(n) && n@ != current.username@ {
        seq![(UniqueField::Username, u.username->0@)]
    } else {
        Seq::empty()
    })
}

/// The lookups a registration needs, in order: its username, then its email.
pub open spec fn registration_lookups(u: CreateUser) -> Seq<(UniqueField, Seq<char>)> {
    seq![(UniqueField::Username, u.username@), (UniqueField::Email, u.email@)]
}

/// `r` holds the planned lookups when `problem` is none, and otherwise the
/// bad request that names it.
pub open spec fn plans(
    r: Result<Vec<(UniqueField, String)>, ApiError>,
    problem: Option<Seq<char>>,
    lookups: Seq<(UniqueField, Seq<char>)>,
) -> bool {
    match problem {
        Some(m) => bad_request_with(r, m),
        None => r matches Ok(v) && lookups_view(v@) == lookups,
    }
}

/// Plans an update of `current`: refuses a malformed new email or a short
/// new password, else lists the uniqueness lookups to run, each of which
/// must come back empty (see `ensure_unique`) before the update is written.
pub fn plan_user_update(current: &User, u: &UpdateUser) -> (r: Result<Vec<(UniqueField, String)>, ApiError>)
    ensures
        plans(r, user_update_problem(*u), update_lookups(*current, *u)),
{
    match check_user_update(u) {
        Ok(()) => {},
        Err(e) => {
            return Err(e);
        },
    }
    let mut v: Vec<(UniqueField, String)> = Vec::new();
    match &u.email {
        Some(e) => {
            if !e.eq(&current.email) {
                v.push((UniqueField::Email, e.clone()));
            }
        },
        None => {},
    }
    let ghost first = v@;
    match &u.username {
        Some(n) => {
            if !n.eq(&current.username) {
                v.push((UniqueField::Username, n.clone()));
            }
        },
        None => {},
    }
    proof {
        assert(lookups_view(first) =~= (if u.email matches Some(e) && e@ != current.email@ {
            seq![(UniqueField::Email, u.email->0@)]
        } else {
            Seq::empty()
        }));
        assert(lookups_view(v@) =~= update_lookups(*current, *u));
    }
    Ok(v)
}

/// Plans a registration: refuses a malformed email or a short password,
/// else lists the uniqueness lookups to run before the user is inserted.
pub fn plan_registration(u: &CreateUser) -> (r: Result<Vec<(UniqueField, String)>, ApiError>)
    ensures
        plans(r, registration_problem(*u), registration_lookups(*u)),
{
    match check_registration(u) {
        Ok(()) => {},
        Err(e) => {
            return Err(e);
        },
    }
    let mut v: Vec<(UniqueField, String)> = Vec::new();
    v.push((UniqueField::Username, u.username.clone()));
    v.push((UniqueField::Email, u.email.clone()));
    assert(lookups_view(v@) =~= registration_lookups(*u));
    Ok(v)
}

/// The columns a user query returns.
pub const SELECT_USER_BASE: &'static str =
    "SELECT id, username, email, password, created_at, updated_at FROM users";

/// The statement that reads one user by identifier.
pub const FIND_USER: &'static str =
    "SELECT id, username, email, password, created_at, updated_at FROM users WHERE id = $1";

/// The statement that reads one user by exact email.
pub const FIND_USER_BY_EMAIL: &'static str =
    "SELECT id, username, email, password, created_at, updated_at FROM users WHERE email = $1";

/// The statement that reads one user by exact username.
pub const FIND_USER_BY_USERNAME: &'static str =
    "SELECT id, username, email, password, created_at, updated_at FROM users WHERE username = $1";

/// The statement that reads one user and locks its row until the
/// transaction ends.
pub const LOCK_USER: &'static str =
    "SELECT id, username, email, password, created_at, updated_at FROM users WHERE id = $1 FOR UPDATE";

/// The statement that inserts a user and returns the stored row.
pub const INSERT_USER: &'static str =
    "INSERT INTO users (username, email, password) VALUES ($1, $2, $3) RETURNING id, username, email, password, created_at, updated_at";

/// The statement that writes a user back and returns the row.
pub const UPDATE_USER: &'static str =
    "UPDATE users SET username = $1, email = $2, password = $3, updated_at = NOW() WHERE id = $4 RETURNING id, username, email, password, created_at, updated_at";

/// The statement that deletes one user.
pub const DELETE_USER: &'static str = "DELETE FROM users WHERE id = $1";

/// The conditions of a user filter, in order: username contains, email
/// contains, both case-insensitive.
pub open spec fn user_conditions_of(f: UserFilter) -> Seq<Cond> {
    cond_if(
        f.username is Some,
        Column::Username,
        Op::ILike,
        Param::Text(containing_pattern(f.username->0@)),
    ) + cond_if(f.email is Some, Column::Email, Op::ILike, Param::Text(containing_pattern(f.email->0@)))
}

/// The conditions that `f` places on a user listing.
pub fn user_conditions(f: &UserFilter) -> (r: Vec<Predicate>)
    ensures
        conds_view(r@) == user_conditions_of(*f),
{
    let mut r: Vec<Predicate> = Vec::new();
    match &f.username {
        Some(s) => {
            r.push(Predicate { column: Column::Username, op: Op::ILike, value: SqlValue::Text(containing(s.as_str())) });
        },
        None => {},
    }
    let ghost first = r@;
    match &f.email {
        Some(s) => {
            r.push(Predicate { column: Column::Email, op: Op::ILike, value: SqlValue::Text(containing(s.as_str())) });
        },
        None => {},
    }
    proof {
        assert(conds_view(first) =~= cond_if(
            f.username is Some,
            Column::Username,
            Op::ILike,
            Param::Text(containing_pattern(f.username->0@)),
        ));
        assert(conds_view(r@) =~= user_conditions_of(*f));
    }
    r
}

/// The listing query for `f`: its conditions, ordered by username, with the
/// limit and offset it gives.
pub fn user_list_statement(f: &UserFilter) -> (r: Statement)
    ensures
        r.sql@ == select_text(
            SELECT_USER_BASE@,
            user_conditions_of(*f),
            Column::Username,
            f.limit is Some,
            f.offset is Some,
        ),
        params_view(r.params@) == select_params(user_conditions_of(*f), f.limit, f.offset),
{
    let preds = user_conditions(f);
    select_statement(SELECT_USER_BASE, &preds, Column::Username, f.limit, f.offset)
}

fn one_param(sql: &str, v: SqlValue) -> (r: Statement)
    ensures
        r.sql@ == sql@,
        params_view(r.params@) == seq![v@],
{
    let mut params: Vec<SqlValue> = Vec::new();
    params.push(v);
    assert(params_view(params@) =~= seq![v@]);
    Statement { sql: String::from_str(sql), params }
}

/// The read of one user by identifier.
pub fn find_user_statement(id: u128) -> (r: Statement)
    ensures
        r.sql@ == FIND_USER@,
        params_view(r.params@) == seq![Param::Id(id)],
{
    one_param(FIND_USER, SqlValue::Id(id))
}

/// The locking read of one user, the first step of an update.
pub fn lock_user_statement(id: u128) -> (r: Statement)
    ensures
        r.sql@ == LOCK_USER@,
        params_view(r.params@) == seq![Param::Id(id)],
{
    one_param(LOCK_USER, SqlValue::Id(id))
}

/// The delete of one user.
pub fn delete_user_statement(id: u128) -> (r: Statement)
    ensures
        r.sql@ == DELETE_USER@,
        params_view(r.params@) == seq![Param::Id(id)],
{
    one_param(DELETE_USER, SqlValue::Id(id))
}

/// The exact-match lookup of a unique field's value.
pub fn find_by_unique_statement(field: UniqueField, value: &str) -> (r: Statement)
    ensures
        field == UniqueField::Email ==> r.sql@ == FIND_USER_BY_EMAIL@,
        field == UniqueField::Username ==> r.sql@ == FIND_USER_BY_USERNAME@,
        params_view(r.params@) == seq![Param::Text(value@)],
{
    let sql = match field {
        UniqueField::Email => FIND_USER_BY_EMAIL,
        UniqueField::Username => FIND_USER_BY_USERNAME,
    };
    one_param(sql, SqlValue::Text(String::from_str(value)))
}

/// The insert for a registration: refused before any write when the email
/// or password is unacceptable; otherwise the password is hashed and only
/// the hash is bound.
pub fn register_statement(u: &CreateUser) -> (r: Result<Statement, ApiError>)
    ensures
        registration_problem(*u) matches Some(m) ==> bad_request_with(r, m),
        registration_problem(*u) is None && encode_utf8(u.password@).len() <= 0xFFFF_FFFF ==> r is Ok,
        r matches Err(e) ==> registration_problem(*u) is Some || e is Internal,
        r matches Ok(st) ==> {
            &&& st.sql@ == INSERT_USER@
            &&& params_view(st.params@).len() == 3
            &&& params_view(st.params@)[0] == Param::Text(u.username@)
            &&& params_view(st.params@)[1] == Param::Text(u.email@)
            &&& params_view(st.params@)[2] matches Param::Text(h) && is_credential_for(u.password@, h)
        },
{
    check_registration(u)?;
    let hash = hash_password(u.password.as_str())?;
    let mut params: Vec<SqlValue> = Vec::new();
    params.push(SqlValue::Text(u.username.clone()));
    params.push(SqlValue::Text(u.email.clone()));
    params.push(SqlValue::Text(hash));
    Ok(Statement { sql: String::from_str(INSERT_USER), params })
}

/// `current` with the update's username and email where it sets them; the
/// stored hash changes exactly when a new password is given, and is then a
/// credential for that password.
pub open spec fn merged_user(current: User, u: UpdateUser, r: User) -> bool {
    &&& r.id == current.id
    &&& r.username == if u.username is Some { u.username->0 } else { current.username }
    &&& r.email == if u.email is Some { u.email->0 } else { current.email }
    &&& (u.password matches Some(p) ==> is_credential_for(p@, r.password@))
    &&& (u.password is None ==> r.password == current.password)
    &&& r.created_at == current.created_at
    &&& r.updated_at == current.updated_at
}

/// Merges an update into the current user, hashing a new password. An
/// update that passed its checks keeps a well-formed email well-formed.
pub fn merge_user(current: &User, u: &UpdateUser) -> (r: Result<User, ApiError>)
    ensures
        r matches Ok(m) ==> merged_user(*current, *u, m),
        r matches Ok(m) ==> (valid_email(current.email@) && user_update_problem(*u) is None
            ==> valid_email(m.email@)),
        r matches Err(e) ==> e is Internal && u.password is Some,
        (u.password matches Some(p) ==> encode_utf8(p@).len() <= 0xFFFF_FFFF) ==> r is Ok,
{
    let password = match &u.password {
        Some(p) => hash_password(p.as_str())?,
        None => current.password.clone(),
    };
    Ok(User {
        id: current.id,
        username: match &u.username {
            Some(n) => n.clone(),
            None => current.username.clone(),
        },
        email: match &u.email {
            Some(e) => e.clone(),
            None => current.email.clone(),
        },
        password,
        created_at: current.created_at,
        updated_at: current.updated_at,
    })
}

/// The values bound when writing `u` back.
pub open spec fn user_update_params_of(u: User) -> Seq<Param> {
    seq![Param::Text(u.username@), Param::Text(u.email@), Param::Text(u.password@), Param::Id(u.id)]
}

/// The write of a merged user, the second step of an update.
pub fn update_user_statement(u: &User) -> (r: Statement)
    ensures
        r.sql@ == UPDATE_USER@,
        params_view(r.params@) == user_update_params_of(*u),
{
    let mut params: Vec<SqlValue> = Vec::new();
    params.push(SqlValue::Text(u.username.clone()));
    params.push(SqlValue::Text(u.email.clone()));
    params.push(SqlValue::Text(u.password.clone()));
    params.push(SqlValue::Id(u.id));
    assert(params_view(params@) =~= user_update_params_of(*u));
    Statement { sql: String::from_str(UPDATE_USER), params }
}

/// The message for a user that is not there.
pub open spec fn user_missing(id: u128) -> Seq<char> {
    "User with ID "@ + hyphenated(id) + " not found"@
}

/// The not-found failure for user `id`.
pub fn user_not_found(id: u128) -> (r: ApiError)
    ensures
        not_found_with(Err::<(), ApiError>(r), user_missing(id)),
{
    let t = id_text(id);
    ApiError::NotFound(String::from_str("User with ID ").concat(t.as_str()).concat(" not found"))
}

/// The outcome of reading user `id`: the row, or not-found when there is none.
pub fn found_user(row: Option<User>, id: u128) -> (r: Result<User, ApiError>)
    ensures
        row matches Some(u) ==> r == Ok::<User, ApiError>(u),
        row is None ==> not_found_with(r, user_missing(id)),
{
    match row {
        Some(u) => Ok(u),
        None => Err(user_not_found(id)),
    }
}

/// The outcome of deleting user `id`, from the number of rows the delete
/// removed: none means the user was not there.
pub fn user_deleted(rows_affected: u64, id: u128) -> (r: Result<(), ApiError>)
    ensures
        rows_affected > 0 <==> r is Ok,
        rows_affected == 0 ==> not_found_with(r, user_missing(id)),
{
    if rows_affected == 0 {
        return Err(user_not_found(id));
    }
    Ok(())
}

/// Completes a login once the user with the offered email has been looked
/// up: an unknown email and a wrong password fail alike, so a caller cannot
/// tell which; a match yields the public user and a token issued at `now`.
pub fn authenticate(
    login: &LoginUser,
    found: Option<User>,
    tokens: &TokenService,
    now: u64,
) -> (r: Result<AuthResponse, ApiError>)
    requires
        now <= u64::MAX - TOKEN_LIFETIME_SECS,
    ensures
        found is None ==> not_found_with(r, "Invalid email or password"@),
        found matches Some(u) ==> {
            &&& argon2_verdict(login.password@, u.password@) is None ==> is_internal(r)
            &&& argon2_verdict(login.password@, u.password@) == Some(false) ==> unauthorized_with(
                r,
                "Invalid email or password"@,
            )
            &&& argon2_verdict(login.password@, u.password@) == Some(true) ==> r is Ok
            &&& r matches Ok(a) ==> argon2_verdict(login.password@, u.password@) == Some(true)
                && a.user == response_of_user(u) && issued_for(a.token@, tokens.key(), u.id, now)
        },
{
    let user = match found {
        Some(u) => u,
        None => {
            return Err(ApiError::NotFound(String::from_str("Invalid email or password")));
        },
    };
    if !verify_password(login.password.as_str(), user.password.as_str())? {
        return Err(ApiError::Unauthorized(String::from_str("Invalid email or password")));
    }
    let token = tokens.issue_at(user.id, now)?;
    Ok(AuthResponse { user: UserResponse::from(user), token })
}

/// Two updates of one user, serialized by the row lock: the second merges
/// into the row the first committed. A field the second sets has the
/// second's value; a field only the first sets keeps the first's value; the
/// stored credential verifies against the last password given.
pub proof fn lemma_serialized_user_updates_lose_nothing(
    base: User,
    first: UpdateUser,
    mid: User,
    second: UpdateUser,
    after: User,
)
    requires
        merged_user(base, first, mid),
        merged_user(mid, second, after),
    ensures
        after.id == base.id,
        after.username == if second.username is Some {
            second.username->0
        } else if first.username is Some {
            first.username->0
        } else {
            base.username
        },
        after.email == if second.email is Some {
            second.email->0
        } else if first.email is Some {
            first.email->0
        } else {
            base.email
        },
        second.password matches Some(p) ==> is_credential_for(p@, after.password@),
        second.password is None ==> (first.password matches Some(p) ==> is_credential_for(
            p@,
            after.password@,
        )),
        second.password is None && first.password is None ==> after.password == base.password,
{
}

} // verus!
