//! The decisions of the request guards: service key, bearer token, bot id
//! and permission checks.
use vstd::prelude::*;
use vstd::string::*;

use crate::errors::{auth_error_text, ApiError, AuthError};
use crate::text::{parse_i64, parse_i64_text, str_eq, string_of};
use crate::values::{parse_uuid, uuid_parse};

verus! {

broadcast use vstd::string::group_string_axioms;

/// A request that carried the service's API key.
#[derive(Debug)]
pub struct VerifiedService;

/// A request made on behalf of a registered bot.
#[derive(Debug)]
pub struct AuthBot {
    pub bot_id: i64,
}

/// A request body that passed its validation rules.
#[derive(Debug)]
pub struct ValidatedJson<T>(pub T);

/// The permissions a request guard can ask for.
#[derive(Clone, Copy, Debug, PartialEq, Eq, Structural)]
pub enum Permission {
    RbacManage,
    DashboardRead,
    ProductsCreate,
    ProductsRead,
    ProductsUpdate,
    ProductsDelete,
    CategoriesCreate,
    CategoriesRead,
    CategoriesUpdate,
    CategoriesDelete,
    StockCreate,
    StockRead,
    OrdersRead,
    AdminUsersCreate,
    AdminUsersRead,
    AdminUsersUpdate,
    AdminUsersDelete,
    CustomersRead,
    CustomersUpdate,
    ImagesCreate,
    ImagesRead,
    ImagesUpdate,
    ImagesDelete,
    TransactionsRead,
    StoreBalanceRead,
    StoreBalanceDeposit,
    StoreBalanceWithdraw,
    InvoicesRead,
    BotsCreate,
    BotsRead,
    BotsUpdate,
    BotsDelete,
    SettingsRead,
    SettingsEdit,
    PricingRead,
    PricingEdit,
    BroadcastCreate,
    BroadcastRead,
    AuditLogRead,
}

/// A marker type that names the permission a route requires.
pub trait PermissionMarker {
    fn permission() -> Permission;
}

/// The markers of the permissions, one per permission, for `RequirePermission`.
#[derive(Debug, Clone, Copy, Default)]
pub struct RbacManage;

impl PermissionMarker for RbacManage {
    fn permission() -> (r: Permission)
        ensures
            r == Permission::RbacManage,
    {
        Permission::RbacManage
    }
}

#[derive(Debug, Clone, Copy, Default)]
pub struct DashboardRead;

impl PermissionMarker for DashboardRead {
    fn permission() -> (r: Permission)
        ensures
            r == Permission::DashboardRead,
    {
        Permission::DashboardRead
    }
}

#[derive(Debug, Clone, Copy, Default)]
pub struct ProductsCreate;

impl PermissionMarker for ProductsCreate {
    fn permission() -> (r: Permission)
        ensures
            r == Permission::ProductsCreate,
    {
        Permission::ProductsCreate
    }
}

#[derive(Debug, Clone, Copy, Default)]
pub struct ProductsRead;

impl PermissionMarker for ProductsRead {
    fn permission() -> (r: Permission)
        ensures
            r == Permission::ProductsRead,
    {
        Permission::ProductsRead
    }
}

#[derive(Debug, Clone, Copy, Default)]
pub struct ProductsUpdate;

impl PermissionMarker for ProductsUpdate {
    fn permission() -> (r: Permission)
        ensures
            r == Permission::ProductsUpdate,
    {
        Permission::ProductsUpdate
    }
}

#[derive(Debug, Clone, Copy, Default)]
pub struct ProductsDelete;

impl PermissionMarker for ProductsDelete {
    fn permission() -> (r: Permission)
        ensures
            r == Permission::ProductsDelete,
    {
        Permission::ProductsDelete
    }
}

#[derive(Debug, Clone, Copy, Default)]
pub struct CategoriesCreate;

impl PermissionMarker for CategoriesCreate {
    fn permission() -> (r: Permission)
        ensures
            r == Permission::CategoriesCreate,
    {
        Permission::CategoriesCreate
    }
}

#[derive(Debug, Clone, Copy, Default)]
pub struct CategoriesRead;

impl PermissionMarker for CategoriesRead {
    fn permission() -> (r: Permission)
        ensures
            r == Permission::CategoriesRead,
    {
        Permission::CategoriesRead
    }
}

#[derive(Debug, Clone, Copy, Default)]
pub struct CategoriesUpdate;

impl PermissionMarker for CategoriesUpdate {
    fn permission() -> (r: Permission)
        ensures
            r == Permission::CategoriesUpdate,
    {
        Permission::CategoriesUpdate
    }
}

#[derive(Debug, Clone, Copy, Default)]
pub struct CategoriesDelete;

impl PermissionMarker for CategoriesDelete {
    fn permission() -> (r: Permission)
        ensures
            r == Permission::CategoriesDelete,
    {
        Permission::CategoriesDelete
    }
}

#[derive(Debug, Clone, Copy, Default)]
pub struct StockCreate;

impl PermissionMarker for StockCreate {
    fn permission() -> (r: Permission)
        ensures
            r == Permission::StockCreate,
    {
        Permission::StockCreate
    }
}

#[derive(Debug, Clone, Copy, Default)]
pub struct StockRead;

impl PermissionMarker for StockRead {
    fn permission() -> (r: Permission)
        ensures
            r == Permission::StockRead,
    {
        Permission::StockRead
    }
}

#[derive(Debug, Clone, Copy, Default)]
pub struct OrdersRead;

impl PermissionMarker for OrdersRead {
    fn permission() -> (r: Permission)
        ensures
            r == Permission::OrdersRead,
    {
        Permission::OrdersRead
    }
}

#[derive(Debug, Clone, Copy, Default)]
pub struct AdminUsersCreate;

impl PermissionMarker for AdminUsersCreate {
    fn permission() -> (r: Permission)
        ensures
            r == Permission::AdminUsersCreate,
    {
        Permission::AdminUsersCreate
    }
}

#[derive(Debug, Clone, Copy, Default)]
pub struct AdminUsersRead;

impl PermissionMarker for AdminUsersRead {
    fn permission() -> (r: Permission)
        ensures
            r == Permission::AdminUsersRead,
    {
        Permission::AdminUsersRead
    }
}

#[derive(Debug, Clone, Copy, Default)]
pub struct AdminUsersUpdate;

impl PermissionMarker for AdminUsersUpdate {
    fn permission() -> (r: Permission)
        ensures
            r == Permission::AdminUsersUpdate,
    {
        Permission::AdminUsersUpdate
    }
}

#[derive(Debug, Clone, Copy, Default)]
pub struct AdminUsersDelete;

impl PermissionMarker for AdminUsersDelete {
    fn permission() -> (r: Permission)
        ensures
            r == Permission::AdminUsersDelete,
    {
        Permission::AdminUsersDelete
    }
}

#[derive(Debug, Clone, Copy, Default)]
pub struct CustomersRead;

impl PermissionMarker for CustomersRead {
    fn permission() -> (r: Permission)
        ensures
            r == Permission::CustomersRead,
    {
        Permission::CustomersRead
    }
}

#[derive(Debug, Clone, Copy, Default)]
pub struct CustomersUpdate;

impl PermissionMarker for CustomersUpdate {
    fn permission() -> (r: Permission)
        ensures
            r == Permission::CustomersUpdate,
    {
        Permission::CustomersUpdate
    }
}

#[derive(Debug, Clone, Copy, Default)]
pub struct ImagesCreate;

impl PermissionMarker for ImagesCreate {
    fn permission() -> (r: Permission)
        ensures
            r == Permission::ImagesCreate,
    {
        Permission::ImagesCreate
    }
}

#[derive(Debug, Clone, Copy, Default)]
pub struct ImagesRead;

impl PermissionMarker for ImagesRead {
    fn permission() -> (r: Permission)
        ensures
            r == Permission::ImagesRead,
    {
        Permission::ImagesRead
    }
}

#[derive(Debug, Clone, Copy, Default)]
pub struct ImagesUpdate;

impl PermissionMarker for ImagesUpdate {
    fn permission() -> (r: Permission)
        ensures
            r == Permission::ImagesUpdate,
    {
        Permission::ImagesUpdate
    }
}

#[derive(Debug, Clone, Copy, Default)]
pub struct ImagesDelete;

impl PermissionMarker for ImagesDelete {
    fn permission() -> (r: Permission)
        ensures
            r == Permission::ImagesDelete,
    {
        Permission::ImagesDelete
    }
}

#[derive(Debug, Clone, Copy, Default)]
pub struct TransactionsRead;

impl PermissionMarker for TransactionsRead {
    fn permission() -> (r: Permission)
        ensures
            r == Permission::TransactionsRead,
    {
        Permission::TransactionsRead
    }
}

#[derive(Debug, Clone, Copy, Default)]
pub struct StoreBalanceRead;

impl PermissionMarker for StoreBalanceRead {
    fn permission() -> (r: Permission)
        ensures
            r == Permission::StoreBalanceRead,
    {
        Permission::StoreBalanceRead
    }
}

#[derive(Debug, Clone, Copy, Default)]
pub struct StoreBalanceDeposit;

impl PermissionMarker for StoreBalanceDeposit {
    fn permission() -> (r: Permission)
        ensures
            r == Permission::StoreBalanceDeposit,
    {
        Permission::StoreBalanceDeposit
    }
}

#[derive(Debug, Clone, Copy, Default)]
pub struct StoreBalanceWithdraw;

impl PermissionMarker for StoreBalanceWithdraw {
    fn permission() -> (r: Permission)
        ensures
            r == Permission::StoreBalanceWithdraw,
    {
        Permission::StoreBalanceWithdraw
    }
}

#[derive(Debug, Clone, Copy, Default)]
pub struct InvoicesRead;

impl PermissionMarker for InvoicesRead {
    fn permission() -> (r: Permission)
        ensures
            r == Permission::InvoicesRead,
    {
        Permission::InvoicesRead
    }
}

#[derive(Debug, Clone, Copy, Default)]
pub struct BotsCreate;

impl PermissionMarker for BotsCreate {
    fn permission() -> (r: Permission)
        ensures
            r == Permission::BotsCreate,
    {
        Permission::BotsCreate
    }
}

#[derive(Debug, Clone, Copy, Default)]
pub struct BotsRead;

impl PermissionMarker for BotsRead {
    fn permission() -> (r: Permission)
        ensures
            r == Permission::BotsRead,
    {
        Permission::BotsRead
    }
}

#[derive(Debug, Clone, Copy, Default)]
pub struct BotsUpdate;

impl PermissionMarker for BotsUpdate {
    fn permission() -> (r: Permission)
        ensures
            r == Permission::BotsUpdate,
    {
        Permission::BotsUpdate
    }
}

#[derive(Debug, Clone, Copy, Default)]
pub struct BotsDelete;

impl PermissionMarker for BotsDelete {
    fn permission() -> (r: Permission)
        ensures
            r == Permission::BotsDelete,
    {
        Permission::BotsDelete
    }
}

#[derive(Debug, Clone, Copy, Default)]
pub struct SettingsRead;

impl PermissionMarker for SettingsRead {
    fn permission() -> (r: Permission)
        ensures
            r == Permission::SettingsRead,
    {
        Permission::SettingsRead
    }
}

#[derive(Debug, Clone, Copy, Default)]
pub struct SettingsEdit;

impl PermissionMarker for SettingsEdit {
    fn permission() -> (r: Permission)
        ensures
            r == Permission::SettingsEdit,
    {
        Permission::SettingsEdit
    }
}

#[derive(Debug, Clone, Copy, Default)]
pub struct PricingRead;

impl PermissionMarker for PricingRead {
    fn permission() -> (r: Permission)
        ensures
            r == Permission::PricingRead,
    {
        Permission::PricingRead
    }
}

#[derive(Debug, Clone, Copy, Default)]
pub struct PricingEdit;

impl PermissionMarker for PricingEdit {
    fn permission() -> (r: Permission)
        ensures
            r == Permission::PricingEdit,
    {
        Permission::PricingEdit
    }
}

#[derive(Debug, Clone, Copy, Default)]
pub struct BroadcastCreate;

impl PermissionMarker for BroadcastCreate {
    fn permission() -> (r: Permission)
        ensures
            r == Permission::BroadcastCreate,
    {
        Permission::BroadcastCreate
    }
}

#[derive(Debug, Clone, Copy, Default)]
pub struct BroadcastRead;

impl PermissionMarker for BroadcastRead {
    fn permission() -> (r: Permission)
        ensures
            r == Permission::BroadcastRead,
    {
        Permission::BroadcastRead
    }
}

#[derive(Debug, Clone, Copy, Default)]
pub struct AuditLogRead;

impl PermissionMarker for AuditLogRead {
    fn permission() -> (r: Permission)
        ensures
            r == Permission::AuditLogRead,
    {
        Permission::AuditLogRead
    }
}

/// A request whose user holds the permission `P` names.
#[derive(Debug)]
pub struct RequirePermission<P: PermissionMarker>(pub P);

impl VerifiedService {
    /// Accepts a request whose `X-API-KEY` header holds the service key.
    pub fn check(api_key: Option<&str>, service_api_key: &str) -> (r: Result<VerifiedService, ApiError>)
        ensures
            api_key is None ==> (r matches Err(ApiError::AuthenticationError(m)) && m@
                == "Missing auth header"@),
            api_key matches Some(k) && k@ != service_api_key@ ==> (r matches Err(
                ApiError::AuthenticationError(m),
            ) && m@ == "Invalid auth header"@),
            api_key matches Some(k) && k@ == service_api_key@ ==> r is Ok,
    {
        match api_key {
            None => Err(ApiError::AuthenticationError(string_of("Missing auth header"))),
            Some(k) => if str_eq(k, service_api_key) {
                Ok(VerifiedService)
            } else {
                Err(ApiError::AuthenticationError(string_of("Invalid auth header")))
            },
        }
    }
}

/// Does `s` begin with `prefix`?
pub open spec fn has_prefix(s: Seq<char>, prefix: Seq<char>) -> bool {
    prefix.len() <= s.len() && s.take(prefix.len() as int) == prefix
}

/// `s` without `prefix`, when it begins with it (`str::strip_prefix`).
pub fn strip_prefix<'a>(s: &'a str, prefix: &str) -> (r: Option<&'a str>)
    ensures
        has_prefix(s@, prefix@) ==> (r matches Some(t) && t@ == s@.skip(prefix@.len() as int)),
        !has_prefix(s@, prefix@) ==> r is None,
{
    let n = prefix.unicode_len();
    let len = s.unicode_len();
    if n > len {
        return None;
    }
    let head = s.substring_char(0, n);
    if str_eq(head, prefix) {
        Some(s.substring_char(n, len))
    } else {
        None
    }
}

/// The session token of an `Authorization` header: `Bearer ` followed by a UUID.
pub open spec fn bearer_token(header: Seq<char>) -> Option<u128> {
    if has_prefix(header, "Bearer "@) {
        uuid_parse(header.skip(7))
    } else {
        None
    }
}

/// Reads the session token of an `Authorization` header; a missing header
/// and a malformed one are refused with different messages.
pub fn parse_bearer_token(header: Option<&str>) -> (r: Result<u128, ApiError>)
    ensures
        header is None ==> (r matches Err(ApiError::AuthenticationError(m)) && m@
            == "Missing auth header"@),
        header matches Some(h) ==> match bearer_token(h@) {
            Some(t) => r == Ok::<u128, ApiError>(t),
            None => r matches Err(ApiError::AuthenticationError(m)) && m@ == "Invalid auth header"@,
        },
{
    proof {
        reveal_strlit("Bearer ");
    }
    match header {
        None => Err(ApiError::AuthenticationError(string_of("Missing auth header"))),
        Some(h) => match strip_prefix(h, "Bearer ") {
            Some(rest) => match parse_uuid(rest) {
                Some(t) => Ok(t),
                None => Err(ApiError::AuthenticationError(string_of("Invalid auth header"))),
            },
            None => Err(ApiError::AuthenticationError(string_of("Invalid auth header"))),
        },
    }
}

/// A failed authentication, answered with the error's text.
pub fn authentication_error(err: AuthError) -> (r: ApiError)
    ensures
        r matches ApiError::AuthenticationError(m) && m@ == auth_error_text(err),
{
    ApiError::AuthenticationError(err.message())
}

impl AuthBot {
    /// Reads the bot id of an `X-BOT-ID` header; a missing or non-numeric
    /// id is refused.
    pub fn parse_bot_id(header: Option<&str>) -> (r: Result<i64, ApiError>)
        ensures
            match header {
                Some(h) if parse_i64_text(h@) is Some => r == Ok::<i64, ApiError>(
                    parse_i64_text(h@)->0,
                ),
                _ => r matches Err(ApiError::AuthenticationError(m)) && m@ == "Missing bot id"@,
            },
    {
        match header {
            Some(h) => match parse_i64(h) {
                Some(id) => Ok(id),
                None => Err(ApiError::AuthenticationError(string_of("Missing bot id"))),
            },
            None => Err(ApiError::AuthenticationError(string_of("Missing bot id"))),
        }
    }

    /// Accepts the bot once its id is known to the bot service.
    pub fn from_lookup(bot_id: i64, bot_exists: bool) -> (r: Result<AuthBot, ApiError>)
        ensures
            bot_exists ==> (r matches Ok(b) && b.bot_id == bot_id),
            !bot_exists ==> (r matches Err(ApiError::AuthenticationError(m)) && m@
                == "Invalid bot id"@),
    {
        if !bot_exists {
            return Err(ApiError::AuthenticationError(string_of("Invalid bot id")));
        }
        Ok(AuthBot { bot_id })
    }
}

/// Lets a request through when the permission check found the permission;
/// a failed check is an authentication error with its text, a missing
/// permission a refusal.
pub fn permission_decision(has_permission: Result<bool, AuthError>) -> (r: Result<(), ApiError>)
    ensures
        match has_permission {
            Ok(true) => r is Ok,
            Ok(false) => r matches Err(ApiError::AuthorizationError(m)) && m@ == "Missing permission"@,
            Err(e) => r matches Err(ApiError::AuthenticationError(m)) && m@ == auth_error_text(e),
        },
{
    match has_permission {
        Err(e) => Err(authentication_error(e)),
        Ok(false) => Err(ApiError::AuthorizationError(string_of("Missing permission"))),
        Ok(true) => Ok(()),
    }
}

} // verus!
