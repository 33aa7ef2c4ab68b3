use vstd::prelude::*;

verus! {

/// `uuid::Uuid`, carried through the library as an opaque value.
#[verifier::external_type_specification]
#[verifier::external_body]
pub struct ExUuid(uuid::Uuid);

/// The version number of a UUID: the high four bits of its seventh byte, as
/// `uuid::Uuid::get_version_num` reads them.
pub uninterp spec fn uuid_version_num(u: uuid::Uuid) -> usize;

/// `uuid::Uuid::get_version_num`: the version number held in `u`.
#[verifier::external_body]
fn version_num_of(u: &uuid::Uuid) -> (n: usize)
    ensures
        n == uuid_version_num(*u),
{
    u.get_version_num()
}

/// A fresh random UUID from `uuid::Uuid::new_v4`, which always sets the version
/// bits to 4. Its other bits come from a random number generator and are left
/// unsaid.
#[verifier::external_body]
fn random_uuid() -> (u: uuid::Uuid)
    ensures
        uuid_version_num(u) == 4,
{
    uuid::Uuid::new_v4()
}

/// Stable identity for a tab group.
#[derive(Clone, Copy, Debug, Eq, Hash, PartialEq)]
pub struct TabGroupId(pub uuid::Uuid);

impl TabGroupId {
    /// A fresh, randomly chosen identity: a version 4 UUID.
    pub fn new() -> (id: Self)
        ensures
            uuid_version_num(id.0) == 4,
    {
        TabGroupId(random_uuid())
    }

    /// The version number of the UUID behind this identity.
    pub fn version_num(&self) -> (n: usize)
        ensures
            n == uuid_version_num(self.0),
    {
        version_num_of(&self.0)
    }
}

impl Default for TabGroupId {
    /// A fresh, randomly chosen identity: a version 4 UUID.
    fn default() -> (id: Self)
        ensures
            uuid_version_num(id.0) == 4,
    {
        Self::new()
    }
}

/// A group of tabs. Member tabs point to their group by its id.
#[derive(Clone)]
pub struct TabGroup {
    pub id: TabGroupId,
    pub name: Option<String>,
    pub collapsed: bool,
}

impl TabGroup {
    /// A new, untitled, expanded tab group with a fresh id.
    pub fn new() -> (g: Self)
        ensures
            g.name is None,
            !g.collapsed,
            uuid_version_num(g.id.0) == 4,
    {
        TabGroup { id: TabGroupId::new(), name: None, collapsed: false }
    }
}

impl Default for TabGroup {
    /// A new, untitled, expanded tab group with a fresh id.
    fn default() -> (g: Self)
        ensures
            g.name is None,
            !g.collapsed,
            uuid_version_num(g.id.0) == 4,
    {
        Self::new()
    }
}

} // verus!
