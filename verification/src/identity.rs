//! Type identities and lifetime scopes.

use vstd::prelude::*;

verus! {

/// Lifetime policy for a registered provider: `Transient` constructs a fresh
/// instance on every resolution, `Shared` constructs at most once and then
/// reuses the cached instance.
#[derive(Clone, Copy, PartialEq, Eq, Structural, Debug)]
pub enum Scope {
    Transient,
    Shared,
}

/// Mathematical view of a [`TypeIdentity`].
pub ghost struct IdentityModel {
    pub id: u64,
    pub name: Seq<char>,
}

/// A stable, comparable handle identifying the abstract contract or concrete
/// type being requested. Equal logical types carry equal `id`s; distinct
/// types never collide. The `name` is used in diagnostics.
pub struct TypeIdentity {
    pub id: u64,
    pub name: String,
}

impl View for TypeIdentity {
    type V = IdentityModel;

    open spec fn view(&self) -> IdentityModel {
        IdentityModel { id: self.id, name: self.name@ }
    }
}

impl Clone for TypeIdentity {
    fn clone(&self) -> (r: Self)
        ensures
            r@ == self@,
    {
        TypeIdentity { id: self.id, name: self.name.clone() }
    }
}

impl TypeIdentity {
    /// Builds the identity for a logical type from its stable id and its
    /// diagnostic name.
    pub fn new(id: u64, name: &str) -> (r: TypeIdentity)
        ensures
            r@ == (IdentityModel { id, name: name@ }),
    {
        TypeIdentity { id, name: name.to_owned() }
    }
}

/// The text that error messages use for a scope.
pub open spec fn scope_text(s: Scope) -> Seq<char> {
    match s {
        Scope::Transient => "transient"@,
        Scope::Shared => "shared"@,
    }
}

/// Executable counterpart of [`scope_text`].
pub fn scope_name(s: Scope) -> (r: &'static str)
    ensures
        r@ == scope_text(s),
{
    match s {
        Scope::Transient => "transient",
        Scope::Shared => "shared",
    }
}

} // verus!
