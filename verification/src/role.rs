//! Roles, how the user table spells them, and how tokens spell them.

use crate::text::same_text;
use vstd::prelude::*;

verus! {

/// What a user may do.
#[derive(Debug, Clone, Copy, PartialEq, Eq, Structural)]
pub enum Role {
    Admin,
    Editor,
    User,
}

/// The role that a text of the user table stands for. Only the two exact
/// spellings give a role above `User`.
pub open spec fn role_of_text(text: Seq<char>) -> Role {
    if text == "admin"@ {
        Role::Admin
    } else if text == "editor"@ {
        Role::Editor
    } else {
        Role::User
    }
}

/// The role of a user-table column that may be null, which counts as "user".
pub open spec fn role_of_column(column: Option<Seq<char>>) -> Role {
    match column {
        Some(text) => role_of_text(text),
        None => role_of_text("user"@),
    }
}

/// The name of a role in the payload of a token.
pub open spec fn claim_of_role(role: Role) -> Seq<char> {
    match role {
        Role::Admin => "Admin"@,
        Role::Editor => "Editor"@,
        Role::User => "User"@,
    }
}

/// The role that a name in the payload of a token stands for.
pub open spec fn role_of_claim(name: Seq<char>) -> Option<Role> {
    if name == "Admin"@ {
        Some(Role::Admin)
    } else if name == "Editor"@ {
        Some(Role::Editor)
    } else if name == "User"@ {
        Some(Role::User)
    } else {
        None
    }
}

/// Reads a role as the user table spells it; unknown text is a plain user.
pub fn parse_role(role: &str) -> (parsed: Role)
    ensures
        parsed == role_of_text(role@),
{
    if same_text(role, "admin") {
        Role::Admin
    } else if same_text(role, "editor") {
        Role::Editor
    } else {
        Role::User
    }
}

/// The name under which a token carries `role`.
pub fn role_name(role: Role) -> (name: &'static str)
    ensures
        name@ == claim_of_role(role),
{
    match role {
        Role::Admin => "Admin",
        Role::Editor => "Editor",
        Role::User => "User",
    }
}

/// Reads the name under which a token carries a role.
pub fn read_role(name: &str) -> (role: Option<Role>)
    ensures
        role == role_of_claim(name@),
{
    if same_text(name, "Admin") {
        Some(Role::Admin)
    } else if same_text(name, "Editor") {
        Some(Role::Editor)
    } else if same_text(name, "User") {
        Some(Role::User)
    } else {
        None
    }
}

/// A role survives being written into a token and read back.
pub proof fn role_survives_token(role: Role)
    ensures
        role_of_claim(claim_of_role(role)) == Some(role),
{
    reveal_strlit("Admin");
    reveal_strlit("Editor");
    reveal_strlit("User");
    assert("Admin"@[0] != "Editor"@[0]);
    assert("Admin"@[0] != "User"@[0]);
    assert("Editor"@[0] != "User"@[0]);
}

/// Only the exact spellings "admin" and "editor" of the user table give a
/// role above `User`; a missing role gives none.
pub proof fn only_exact_spellings_raise(column: Option<Seq<char>>)
    ensures
        role_of_column(column) == Role::Admin <==> column == Some("admin"@),
        role_of_column(column) == Role::Editor <==> column == Some("editor"@),
        role_of_column(column) == Role::User <==> column != Some("admin"@) && column != Some(
            "editor"@,
        ),
{
    reveal_strlit("admin");
    reveal_strlit("editor");
    reveal_strlit("user");
    assert("admin"@[0] != "editor"@[0]);
    assert("admin"@[0] != "user"@[0]);
    assert("editor"@[0] != "user"@[0]);
}

} // verus!
