//! Administration: who may administer, and what the admin views show.

use vstd::prelude::*;
use crate::db::{KiroTokenWithUser, PoolEntryRow, UserRow};
use crate::error::{ApiError, ApiErrorView};
use crate::json::{
    array, entry_models, json_bool, json_str, models, object, opt_str_json, opt_str_model, push_entry, Json,
    JsonValue,
};
use crate::text::{owned, push_str, str_eq};
use crate::web_ui::session::SessionUser;

verus! {

/// A pool entry to add by hand.
pub struct AddPoolRequest {
    pub label: String,
    pub refresh_token: String,
    pub client_id: Option<String>,
    pub client_secret: Option<String>,
    pub sso_region: Option<String>,
}

/// Enables or disables a pool entry.
pub struct TogglePoolRequest {
    pub enabled: bool,
}

/// Enables or disables an account of a kind (`global`, `user` or `pool`).
pub struct ToggleAccountRequest {
    pub account_type: String,
    pub enabled: bool,
}

/// The kinds of Kiro account.
#[derive(PartialEq, Eq, Structural)]
pub enum AccountKind {
    Global,
    User,
    Pool,
}

/// The signed-in user when it is an admin: no user is unauthenticated, any
/// other role forbidden.
pub fn require_admin(user: Option<SessionUser>) -> (r: Result<SessionUser, ApiError>)
    ensures
        user is None ==> (r matches Err(e) && e@ == ApiErrorView::AuthError("Not authenticated"@)),
        user matches Some(u) ==> (u.role@ == "admin"@ ==> r == Ok::<SessionUser, ApiError>(u)),
        user matches Some(u) ==> (u.role@ != "admin"@ ==> (r matches Err(e) && e@ == ApiErrorView::Forbidden(
            "Admin access required"@,
        ))),
{
    match user {
        None => Err(ApiError::AuthError(owned("Not authenticated"))),
        Some(u) => if str_eq(u.role.as_str(), "admin") {
            Ok(u)
        } else {
            Err(ApiError::Forbidden(owned("Admin access required")))
        },
    }
}

/// An admin may not delete their own account.
pub fn check_not_self(admin_id: &str, user_id: &str) -> (r: Result<(), ApiError>)
    ensures
        admin_id@ == user_id@ ==> (r matches Err(e) && e@ == ApiErrorView::ValidationError("Cannot delete yourself"@)),
        admin_id@ != user_id@ ==> r is Ok,
{
    if str_eq(admin_id, user_id) {
        Err(ApiError::ValidationError(owned("Cannot delete yourself")))
    } else {
        Ok(())
    }
}

/// A pool entry needs a label and a refresh token.
pub fn validate_pool_request(req: &AddPoolRequest) -> (r: Result<(), ApiError>)
    ensures
        (req.label@.len() == 0 || req.refresh_token@.len() == 0) ==> (r matches Err(e) && e@
            == ApiErrorView::ValidationError("label and refresh_token are required"@)),
        !(req.label@.len() == 0 || req.refresh_token@.len() == 0) ==> r is Ok,
{
    if req.label.as_str().is_empty() || req.refresh_token.as_str().is_empty() {
        Err(ApiError::ValidationError(owned("label and refresh_token are required")))
    } else {
        Ok(())
    }
}

/// The kind of account a toggle names.
pub fn account_kind(account_type: &str) -> (r: Result<AccountKind, ApiError>)
    ensures
        account_type@ == "global"@ ==> r == Ok::<AccountKind, ApiError>(AccountKind::Global),
        account_type@ != "global"@ && account_type@ == "user"@ ==> r == Ok::<AccountKind, ApiError>(AccountKind::User),
        account_type@ != "global"@ && account_type@ != "user"@ && account_type@ == "pool"@ ==> r == Ok::<
            AccountKind,
            ApiError,
        >(AccountKind::Pool),
        account_type@ != "global"@ && account_type@ != "user"@ && account_type@ != "pool"@ ==> (r matches Err(e)
            && e@ == ApiErrorView::ValidationError("Invalid account type"@)),
{
    if str_eq(account_type, "global") {
        Ok(AccountKind::Global)
    } else if str_eq(account_type, "user") {
        Ok(AccountKind::User)
    } else if str_eq(account_type, "pool") {
        Ok(AccountKind::Pool)
    } else {
        Err(ApiError::ValidationError(owned("Invalid account type")))
    }
}

/// `{"status": "ok"}`.
pub open spec fn ok_json() -> Json {
    Json::Object(seq![("status"@, Json::Str("ok"@))])
}

/// `{"status": "ok"}`.
pub fn ok_body() -> (r: JsonValue)
    ensures
        r.model() == ok_json(),
{
    let mut entries: Vec<(String, JsonValue)> = Vec::new();
    push_entry(&mut entries, "status", json_str("ok"));
    let r = object(entries);
    assert(entry_models(entries@) =~= ok_json()->Object_0);
    r
}

/// `{"status": "ok", "enabled": <enabled>}`.
pub open spec fn toggled_json(enabled: bool) -> Json {
    Json::Object(seq![("status"@, Json::Str("ok"@)), ("enabled"@, Json::Bool(enabled))])
}

/// `{"status": "ok", "enabled": <enabled>}`.
pub fn toggled_body(enabled: bool) -> (r: JsonValue)
    ensures
        r.model() == toggled_json(enabled),
{
    let mut entries: Vec<(String, JsonValue)> = Vec::new();
    push_entry(&mut entries, "status", json_str("ok"));
    push_entry(&mut entries, "enabled", json_bool(enabled));
    let r = object(entries);
    assert(entry_models(entries@) =~= toggled_json(enabled)->Object_0);
    r
}

/// A user as the admin user list shows it.
pub open spec fn user_json(u: UserRow) -> Json {
    Json::Object(seq![
        ("id"@, Json::Str(u.id@)),
        ("email"@, Json::Str(u.email@)),
        ("name"@, Json::Str(u.name@)),
        ("role"@, Json::Str(u.role@)),
        ("status"@, Json::Str(u.status@)),
        ("created_at"@, Json::Str(u.created_at@)),
        ("last_login"@, opt_str_model(u.last_login)),
    ])
}

fn user_value(u: &UserRow) -> (r: JsonValue)
    ensures
        r.model() == user_json(*u),
{
    let mut entries: Vec<(String, JsonValue)> = Vec::new();
    push_entry(&mut entries, "id", json_str(u.id.as_str()));
    push_entry(&mut entries, "email", json_str(u.email.as_str()));
    push_entry(&mut entries, "name", json_str(u.name.as_str()));
    push_entry(&mut entries, "role", json_str(u.role.as_str()));
    push_entry(&mut entries, "status", json_str(u.status.as_str()));
    push_entry(&mut entries, "created_at", json_str(u.created_at.as_str()));
    push_entry(&mut entries, "last_login", opt_str_json(&u.last_login));
    let r = object(entries);
    assert(entry_models(entries@) =~= user_json(*u)->Object_0);
    r
}

/// The body of the admin user list: `{"users": [...]}`, one entry per user, in order.
pub fn users_body(users: &Vec<UserRow>) -> (r: JsonValue)
    ensures
        r.model() == Json::Object(seq![("users"@, Json::Array(Seq::new(users@.len(), |i: int| user_json(users@[i]))))]),
{
    let mut items: Vec<JsonValue> = Vec::new();
    let mut i: usize = 0;
    while i < users.len()
        invariant
            i <= users.len(),
            models(items@) =~= Seq::new(i as nat, |k: int| user_json(users@[k])),
        decreases users.len() - i,
    {
        let v = user_value(&users[i]);
        let ghost before = items@;
        items.push(v);
        assert(models(items@) =~= models(before).push(user_json(users@[i as int])));
        i += 1;
    }
    let list = array(items);
    let mut entries: Vec<(String, JsonValue)> = Vec::new();
    push_entry(&mut entries, "users", list);
    let r = object(entries);
    assert(entry_models(entries@) =~= seq![("users"@, Json::Array(Seq::new(users@.len(), |k: int| user_json(users@[k]))))]);
    r
}

/// The global account as the account list shows it.
pub open spec fn global_account_json(enabled: bool, region: Seq<char>) -> Json {
    Json::Object(seq![
        ("id"@, Json::Str("global"@)),
        ("type"@, Json::Str("global"@)),
        ("label"@, Json::Str("Global (env)"@)),
        ("enabled"@, Json::Bool(enabled)),
        ("region"@, Json::Str(region)),
        ("has_token"@, Json::Bool(true)),
        ("last_used"@, Json::Null),
    ])
}

/// A user's token as the account list shows it, labelled `email (name)`.
pub open spec fn user_account_json(t: KiroTokenWithUser) -> Json {
    Json::Object(seq![
        ("id"@, Json::Str(t.user_id@)),
        ("type"@, Json::Str("user"@)),
        ("label"@, Json::Str(t.email@ + " ("@ + t.name@ + ")"@)),
        ("enabled"@, Json::Bool(t.enabled)),
        ("region"@, opt_str_model(t.sso_region)),
        ("has_token"@, Json::Bool(t.has_token)),
        ("last_used"@, Json::Str(t.updated_at@)),
    ])
}

/// A pool entry as the account list shows it.
pub open spec fn pool_account_json(p: PoolEntryRow) -> Json {
    Json::Object(seq![
        ("id"@, Json::Str(p.id@)),
        ("type"@, Json::Str("pool"@)),
        ("label"@, Json::Str(p.label@)),
        ("enabled"@, Json::Bool(p.enabled)),
        ("region"@, opt_str_model(p.sso_region)),
        ("has_token"@, Json::Bool(p.access_token is Some)),
        ("last_used"@, opt_str_model(p.last_used)),
    ])
}

/// All Kiro accounts: the global one (when configured, with its enabled flag
/// and region), then every user token, then every pool entry, in order.
pub open spec fn accounts_json(
    global: Option<(bool, Seq<char>)>,
    users: Seq<KiroTokenWithUser>,
    pool: Seq<PoolEntryRow>,
) -> Json {
    let head = match global {
        Some((enabled, region)) => seq![global_account_json(enabled, region)],
        None => Seq::empty(),
    };
    Json::Object(seq![
        ("accounts"@, Json::Array(
            head + Seq::new(users.len(), |i: int| user_account_json(users[i])) + Seq::new(
                pool.len(),
                |i: int| pool_account_json(pool[i]),
            ),
        )),
    ])
}

spec fn global_head(global: Option<(bool, String)>) -> Seq<Json> {
    match global {
        Some((e, reg)) => seq![global_account_json(e, reg@)],
        None => Seq::empty(),
    }
}

fn global_account_value(enabled: bool, region: &str) -> (r: JsonValue)
    ensures
        r.model() == global_account_json(enabled, region@),
{
    let mut e: Vec<(String, JsonValue)> = Vec::new();
    push_entry(&mut e, "id", json_str("global"));
    push_entry(&mut e, "type", json_str("global"));
    push_entry(&mut e, "label", json_str("Global (env)"));
    push_entry(&mut e, "enabled", json_bool(enabled));
    push_entry(&mut e, "region", json_str(region));
    push_entry(&mut e, "has_token", json_bool(true));
    push_entry(&mut e, "last_used", JsonValue::Null);
    let r = object(e);
    assert(entry_models(e@) =~= global_account_json(enabled, region@)->Object_0);
    r
}

fn user_account_value(t: &KiroTokenWithUser) -> (r: JsonValue)
    ensures
        r.model() == user_account_json(*t),
{
    let mut label = t.email.clone();
    push_str(&mut label, " (");
    push_str(&mut label, t.name.as_str());
    push_str(&mut label, ")");
    let mut e: Vec<(String, JsonValue)> = Vec::new();
    push_entry(&mut e, "id", json_str(t.user_id.as_str()));
    push_entry(&mut e, "type", json_str("user"));
    push_entry(&mut e, "label", JsonValue::Str(label));
    push_entry(&mut e, "enabled", json_bool(t.enabled));
    push_entry(&mut e, "region", opt_str_json(&t.sso_region));
    push_entry(&mut e, "has_token", json_bool(t.has_token));
    push_entry(&mut e, "last_used", json_str(t.updated_at.as_str()));
    let r = object(e);
    assert(entry_models(e@) =~= user_account_json(*t)->Object_0);
    r
}

fn pool_account_value(p: &PoolEntryRow) -> (r: JsonValue)
    ensures
        r.model() == pool_account_json(*p),
{
    let mut e: Vec<(String, JsonValue)> = Vec::new();
    push_entry(&mut e, "id", json_str(p.id.as_str()));
    push_entry(&mut e, "type", json_str("pool"));
    push_entry(&mut e, "label", json_str(p.label.as_str()));
    push_entry(&mut e, "enabled", json_bool(p.enabled));
    push_entry(&mut e, "region", opt_str_json(&p.sso_region));
    push_entry(&mut e, "has_token", json_bool(p.access_token.is_some()));
    push_entry(&mut e, "last_used", opt_str_json(&p.last_used));
    let r = object(e);
    assert(entry_models(e@) =~= pool_account_json(*p)->Object_0);
    r
}

/// The body of the account list (see [`accounts_json`]); `global` is the global
/// account's enabled flag and region when a global refresh token is configured.
pub fn accounts_body(global: Option<(bool, String)>, users: &Vec<KiroTokenWithUser>, pool: &Vec<PoolEntryRow>) -> (r: JsonValue)
    ensures
        r.model() == accounts_json(
            match global {
                Some((e, reg)) => Some((e, reg@)),
                None => None,
            },
            users@,
            pool@,
        ),
{
    let mut items: Vec<JsonValue> = Vec::new();
    let ghost head: Seq<Json> = global_head(global);
    match &global {
        Some((enabled, region)) => {
            items.push(global_account_value(*enabled, region.as_str()));
        },
        None => {},
    }
    assert(models(items@) =~= head);
    let mut i: usize = 0;
    while i < users.len()
        invariant
            i <= users.len(),
            models(items@) =~= head + Seq::new(i as nat, |k: int| user_account_json(users@[k])),
        decreases users.len() - i,
    {
        let v = user_account_value(&users[i]);
        let ghost before = items@;
        items.push(v);
        assert(models(items@) =~= models(before).push(user_account_json(users@[i as int])));
        i += 1;
    }
    let ghost mid = head + Seq::new(users@.len(), |k: int| user_account_json(users@[k]));
    let mut j: usize = 0;
    while j < pool.len()
        invariant
            j <= pool.len(),
            models(items@) =~= mid + Seq::new(j as nat, |k: int| pool_account_json(pool@[k])),
        decreases pool.len() - j,
    {
        let v = pool_account_value(&pool[j]);
        let ghost before = items@;
        items.push(v);
        assert(models(items@) =~= models(before).push(pool_account_json(pool@[j as int])));
        j += 1;
    }
    let list = array(items);
    let mut entries: Vec<(String, JsonValue)> = Vec::new();
    push_entry(&mut entries, "accounts", list);
    let r = object(entries);
    assert(entry_models(entries@) =~= accounts_json(
        match global {
            Some((e, reg)) => Some((e, reg@)),
            None => None,
        },
        users@,
        pool@,
    )->Object_0);
    r
}

} // verus!
