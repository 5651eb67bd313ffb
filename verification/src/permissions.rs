//! Access control: the requests of the permission endpoints, how stored
//! policies are listed, and how a request is checked against the policies of
//! its user and of the user's role.
use crate::text::{decimal, decimal_text, same_text};
use vstd::prelude::*;

verus! {

/// A request to allow `subject` (a user id or role) to perform `action` on
/// `object` (a path).
#[derive(Debug)]
pub struct AddPolicyReq {
    pub subject: String,
    pub object: String,
    /// `read`, `create`, `update` or `delete`.
    pub action: String,
}

/// A request to withdraw a policy.
#[derive(Debug)]
pub struct RemovePolicyReq {
    pub subject: String,
    pub object: String,
    pub action: String,
}

/// A request to give `user` the role `role`.
#[derive(Debug)]
pub struct AddRoleReq {
    pub user: String,
    pub role: String,
}

/// A request to take the role `role` from `user`.
#[derive(Debug)]
pub struct RemoveRoleReq {
    pub user: String,
    pub role: String,
}

/// A policy as listed.
#[derive(Debug)]
pub struct PolicyInfo {
    pub subject: String,
    pub object: String,
    pub action: String,
}

/// A role assignment as listed.
#[derive(Debug)]
pub struct RoleInfo {
    pub user: String,
    pub role: String,
}

/// A request to check whether user `user_id` may perform `action` on
/// `resource`.
#[derive(Debug)]
pub struct PermissionCheckReq {
    pub user_id: i32,
    pub resource: String,
    pub action: String,
}

/// The listed form of the stored policies `rows`: each row of at least three
/// fields gives subject, object and action; shorter rows are left out.
pub open spec fn listed_policies(rows: Seq<Vec<String>>) -> Seq<(Seq<char>, Seq<char>, Seq<char>)>
    decreases rows.len(),
{
    if rows.len() == 0 {
        Seq::empty()
    } else {
        let rest = listed_policies(rows.drop_last());
        let row = rows.last()@;
        if row.len() >= 3 {
            rest.push((row[0]@, row[1]@, row[2]@))
        } else {
            rest
        }
    }
}

/// The view of a listed policy.
pub open spec fn policy_view(p: PolicyInfo) -> (Seq<char>, Seq<char>, Seq<char>) {
    (p.subject@, p.object@, p.action@)
}

/// The stored policies `rows`, listed (see `listed_policies`).
pub fn policy_infos(rows: &Vec<Vec<String>>) -> (r: Vec<PolicyInfo>)
    ensures
        r@.map_values(|p: PolicyInfo| policy_view(p)) == listed_policies(rows@),
{
    let mut r: Vec<PolicyInfo> = Vec::new();
    let n = rows.len();
    for i in 0..n
        invariant
            n == rows@.len(),
            r@.map_values(|p: PolicyInfo| policy_view(p)) == listed_policies(rows@.take(i as int)),
    {
        let row = &rows[i];
        assert(rows@.take(i + 1).drop_last() == rows@.take(i as int));
        if row.len() >= 3 {
            let info = PolicyInfo {
                subject: row[0].clone(),
                object: row[1].clone(),
                action: row[2].clone(),
            };
            let ghost before = r@;
            r.push(info);
            assert(r@.map_values(|p: PolicyInfo| policy_view(p)) =~= before.map_values(
                |p: PolicyInfo| policy_view(p),
            ).push(policy_view(info)));
        }
    }
    assert(rows@.take(n as int) == rows@);
    r
}

/// The listed form of the stored role assignments `rows`: each row of at
/// least two fields gives user and role; shorter rows are left out.
pub open spec fn listed_roles(rows: Seq<Vec<String>>) -> Seq<(Seq<char>, Seq<char>)>
    decreases rows.len(),
{
    if rows.len() == 0 {
        Seq::empty()
    } else {
        let rest = listed_roles(rows.drop_last());
        let row = rows.last()@;
        if row.len() >= 2 {
            rest.push((row[0]@, row[1]@))
        } else {
            rest
        }
    }
}

/// The view of a listed role assignment.
pub open spec fn role_view(p: RoleInfo) -> (Seq<char>, Seq<char>) {
    (p.user@, p.role@)
}

/// The stored role assignments `rows`, listed (see `listed_roles`).
pub fn role_infos(rows: &Vec<Vec<String>>) -> (r: Vec<RoleInfo>)
    ensures
        r@.map_values(|p: RoleInfo| role_view(p)) == listed_roles(rows@),
{
    let mut r: Vec<RoleInfo> = Vec::new();
    let n = rows.len();
    for i in 0..n
        invariant
            n == rows@.len(),
            r@.map_values(|p: RoleInfo| role_view(p)) == listed_roles(rows@.take(i as int)),
    {
        let row = &rows[i];
        assert(rows@.take(i + 1).drop_last() == rows@.take(i as int));
        if row.len() >= 2 {
            let info = RoleInfo { user: row[0].clone(), role: row[1].clone() };
            let ghost before = r@;
            r.push(info);
            assert(r@.map_values(|p: RoleInfo| role_view(p)) =~= before.map_values(
                |p: RoleInfo| role_view(p),
            ).push(role_view(info)));
        }
    }
    assert(rows@.take(n as int) == rows@);
    r
}

/// Listing keeps at most one entry per stored row.
pub proof fn law_listing_never_grows(rows: Seq<Vec<String>>)
    ensures
        listed_policies(rows).len() <= rows.len(),
        listed_roles(rows).len() <= rows.len(),
    decreases rows.len(),
{
    if rows.len() > 0 {
        law_listing_never_grows(rows.drop_last());
    }
}

/// The upper-case form of a text (`str::to_uppercase`), which depends on the
/// text alone.
pub uninterp spec fn uppercase(s: Seq<char>) -> Seq<char>;

/// `str::to_uppercase`: its result is claimed to be `uppercase` of its
/// argument, nothing more; the Unicode case mapping itself is not stated.
#[verifier::external_body]
fn to_uppercase(s: &str) -> (r: String)
    ensures
        r@ == uppercase(s@),
{
    s.to_uppercase()
}

/// The action an upper-case HTTP method performs, if it is one of the four
/// that are checked.
pub open spec fn spec_method_action(upper: Seq<char>) -> Option<Seq<char>> {
    if upper == "GET"@ {
        Some("read"@)
    } else if upper == "POST"@ {
        Some("create"@)
    } else if upper == "PUT"@ {
        Some("update"@)
    } else if upper == "DELETE"@ {
        Some("delete"@)
    } else {
        None
    }
}

/// The action of an upper-case HTTP method (see `spec_method_action`).
pub fn method_action(upper: &str) -> (r: Option<&'static str>)
    ensures
        match spec_method_action(upper@) {
            Some(a) => r matches Some(b) && b@ == a,
            None => r is None,
        },
{
    if same_text(upper, "GET") {
        Some("read")
    } else if same_text(upper, "POST") {
        Some("create")
    } else if same_text(upper, "PUT") {
        Some("update")
    } else if same_text(upper, "DELETE") {
        Some("delete")
    } else {
        None
    }
}

/// The action of an HTTP method in any case.
pub fn path_action(method: &str) -> (r: Option<&'static str>)
    ensures
        match spec_method_action(uppercase(method@)) {
            Some(a) => r matches Some(b) && b@ == a,
            None => r is None,
        },
{
    let upper = to_uppercase(method);
    method_action(upper.as_str())
}

/// A question to put to the policy store: may `subject` perform `action` on
/// `object`?
#[derive(Debug)]
pub struct PermissionQuery {
    pub subject: String,
    pub object: String,
    pub action: String,
}

/// What a permission check needs next.
#[derive(Debug)]
pub enum PermissionStep {
    /// Ask the policy store this question.
    Ask(PermissionQuery),
    /// The check is decided.
    Decided(bool),
}

/// `s` asks whether `subject` may perform `action` on `object`.
pub open spec fn asks(s: PermissionStep, subject: Seq<char>, object: Seq<char>, action: Seq<char>) -> bool {
    s matches PermissionStep::Ask(q) && q.subject@ == subject && q.object@ == object && q.action@
        == action
}

/// The first step of checking whether user `user_id` may send `method` to
/// `path`: a method that is not checked is refused; otherwise the user's own
/// policies are asked first (the user is named by its decimal id).
pub fn permission_first_step(user_id: i32, path: &str, method: &str) -> (s: PermissionStep)
    ensures
        match spec_method_action(uppercase(method@)) {
            None => s == PermissionStep::Decided(false),
            Some(a) => asks(s, decimal(user_id as int), path@, a),
        },
{
    match path_action(method) {
        None => PermissionStep::Decided(false),
        Some(action) => PermissionStep::Ask(
            PermissionQuery {
                subject: decimal_text(user_id),
                object: path.to_owned(),
                action: action.to_owned(),
            },
        ),
    }
}

/// The step after the user's own policies answered `user_allowed` for
/// `action` on `path`: granted, or the role's policies are asked.
pub fn permission_after_user(user_allowed: bool, role: &str, path: &str, action: &str) -> (s:
    PermissionStep)
    ensures
        user_allowed ==> s == PermissionStep::Decided(true),
        !user_allowed ==> asks(s, role@, path@, action@),
{
    if user_allowed {
        PermissionStep::Decided(true)
    } else {
        PermissionStep::Ask(
            PermissionQuery { subject: role.to_owned(), object: path.to_owned(), action: action.to_owned() },
        )
    }
}

/// The last step, after the role's policies answered `role_allowed`: that
/// answer decides.
pub fn permission_after_role(role_allowed: bool) -> (s: PermissionStep)
    ensures
        s == PermissionStep::Decided(role_allowed),
{
    PermissionStep::Decided(role_allowed)
}

/// The question the permission-check endpoint asks for `req`.
pub fn permission_check_query(req: &PermissionCheckReq) -> (q: PermissionQuery)
    ensures
        q.subject@ == decimal(req.user_id as int),
        q.object@ == req.resource@,
        q.action@ == req.action@,
{
    PermissionQuery {
        subject: decimal_text(req.user_id),
        object: req.resource.clone(),
        action: req.action.clone(),
    }
}

/// The outcome of the access gate for a request: the state and the caller's
/// claims must be present (else 500 and 401), the check must complete
/// (else 500), and it must grant access (else 403).
pub open spec fn spec_gate(has_state: bool, has_claims: bool, permitted: Option<bool>) -> Result<(), u16> {
    if !has_state {
        Err(500)
    } else if !has_claims {
        Err(401)
    } else {
        match permitted {
            None => Err(500),
            Some(false) => Err(403),
            Some(true) => Ok(()),
        }
    }
}

/// Decides the access gate (see `spec_gate`).
pub fn access_gate(has_state: bool, has_claims: bool, permitted: Option<bool>) -> (r: Result<(), u16>)
    ensures
        r == spec_gate(has_state, has_claims, permitted),
{
    if !has_state {
        Err(500)
    } else if !has_claims {
        Err(401)
    } else {
        match permitted {
            None => Err(500),
            Some(false) => Err(403),
            Some(true) => Ok(()),
        }
    }
}

/// Access is granted only when the check completed and granted it.
pub proof fn law_gate_grants_only_permitted(has_state: bool, has_claims: bool, permitted: Option<bool>)
    ensures
        spec_gate(has_state, has_claims, permitted) is Ok <==> (has_state && has_claims && permitted
            == Some(true)),
{
}

} // verus!
