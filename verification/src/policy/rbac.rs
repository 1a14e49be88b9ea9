//! Role-based access control: whether a role may perform an action.
use crate::config::RolePermissions;
use crate::table::NamedTable;
use crate::text::str_eq;
use vstd::prelude::*;

verus! {

/// Whether permissions `p` allow `action`. The actions are "authorize",
/// "block", "view_logs", "configure" and "eject"; every other action is
/// denied.
pub open spec fn permits(p: RolePermissions, action: Seq<char>) -> bool {
    if action == "authorize"@ {
        p.can_authorize
    } else if action == "block"@ {
        p.can_block
    } else if action == "view_logs"@ {
        p.can_view_logs
    } else if action == "configure"@ {
        p.can_configure
    } else if action == "eject"@ {
        p.can_eject
    } else {
        false
    }
}

/// Whether the role table lets `role` perform `action`: the role must be
/// defined and its permissions must allow the action.
pub open spec fn role_permits(
    roles: Map<Seq<char>, RolePermissions>,
    role: Seq<char>,
    action: Seq<char>,
) -> bool {
    roles.contains_key(role) && permits(roles[role], action)
}

/// The characters of each string slice of a list.
pub open spec fn str_views(v: Seq<&str>) -> Seq<Seq<char>> {
    v.map_values(|s: &str| s@)
}

/// Role-based access control engine.
pub struct RbacEngine {
    roles: NamedTable<RolePermissions>,
}

impl RbacEngine {
    /// The role table of the engine.
    pub closed spec fn table(self) -> NamedTable<RolePermissions> {
        self.roles
    }

    /// An engine over the given role table.
    pub fn new(roles: NamedTable<RolePermissions>) -> (e: Self)
        ensures
            e.table() == roles,
    {
        RbacEngine { roles }
    }

    /// Whether `role` may perform `action`. An unknown role, and an unknown
    /// action, are denied.
    pub fn check_permission(&self, role: &str, action: &str) -> (r: bool)
        ensures
            r == role_permits(self.table().view(), role@, action@),
    {
        match self.roles.get(role) {
            Some(perms) => {
                if str_eq(action, "authorize") {
                    perms.can_authorize
                } else if str_eq(action, "block") {
                    perms.can_block
                } else if str_eq(action, "view_logs") {
                    perms.can_view_logs
                } else if str_eq(action, "configure") {
                    perms.can_configure
                } else if str_eq(action, "eject") {
                    perms.can_eject
                } else {
                    false
                }
            },
            None => false,
        }
    }

    /// The names of all defined roles, in table order.
    pub fn list_roles(&self) -> (r: Vec<&str>)
        ensures
            str_views(r@) == self.table().names(),
    {
        let mut out: Vec<&str> = Vec::new();
        let n = self.roles.len();
        let mut i: usize = 0;
        while i < n
            invariant
                n == self.roles.pairs().len(),
                i <= n,
                str_views(out@) == self.roles.names().subrange(0, i as int),
            decreases n - i,
        {
            let name = self.roles.name_at(i).as_str();
            let ghost before = out@;
            out.push(name);
            assert(out@ == before.push(name));
            assert(self.roles.names()[i as int] == self.roles.pairs()[i as int].0);
            assert(str_views(out@) =~= str_views(before).push(name@));
            assert(self.roles.names().subrange(0, i + 1) =~= self.roles.names().subrange(
                0,
                i as int,
            ).push(self.roles.names()[i as int]));
            i = i + 1;
        }
        assert(self.roles.names().subrange(0, n as int) =~= self.roles.names());
        out
    }

    /// The permissions of `role`, if it is defined.
    pub fn get_role_permissions(&self, role: &str) -> (r: Option<&RolePermissions>)
        ensures
            match r {
                Some(p) => self.table().view().contains_key(role@) && self.table().view()[role@]
                    == *p,
                None => !self.table().view().contains_key(role@),
            },
    {
        self.roles.get(role)
    }
}

} // verus!
