//! The entitlements and privacy permissions that an app declares.
use vstd::prelude::*;

verus! {

/// Permissions in the current format.
#[derive(Debug, Clone)]
pub struct ModernPermissions {
    /// All entitlements of the app and its extensions.
    pub entitlements: Vec<String>,
    /// Each `UsageDescription` key of the app's Info.plist with its description.
    pub privacy: Vec<(String, String)>,
}

/// One permission in the legacy format.
#[derive(Debug, Clone)]
pub struct LegacyPermissions {
    pub permission_type: String,
    pub usage_description: String,
}

/// Permissions in either format.
#[derive(Debug, Clone)]
pub enum Permissions {
    Modern(ModernPermissions),
    Legacy(LegacyPermissions),
}

/// Permissions that a source may leave out, or write in a form that is read
/// as none.
#[derive(Debug, Clone)]
pub struct OptionalPermissions(pub Option<Permissions>);

impl OptionalPermissions {
    /// Whether there are no permissions.
    pub fn is_none(&self) -> (res: bool)
        ensures
            res == (self.0 is None),
    {
        self.0.is_none()
    }

    /// The given permissions.
    pub fn from_permissions(permissions: Permissions) -> (res: OptionalPermissions)
        ensures
            res.0 == Some(permissions),
    {
        OptionalPermissions(Some(permissions))
    }

    /// The given permissions in the current format.
    pub fn from_modern(permissions: ModernPermissions) -> (res: OptionalPermissions)
        ensures
            res.0 == Some(Permissions::Modern(permissions)),
    {
        OptionalPermissions(Some(Permissions::Modern(permissions)))
    }

    /// The given permission in the legacy format.
    pub fn from_legacy(permissions: LegacyPermissions) -> (res: OptionalPermissions)
        ensures
            res.0 == Some(Permissions::Legacy(permissions)),
    {
        OptionalPermissions(Some(Permissions::Legacy(permissions)))
    }
}

} // verus!
