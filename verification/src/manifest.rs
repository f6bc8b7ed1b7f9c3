//! Application manifests: identity and requested capabilities.

use vstd::prelude::*;

use crate::text::chars_of;

verus! {

/// Type of a kernel object a capability refers to.
#[derive(Clone, Copy, Debug, PartialEq, Eq, Structural)]
pub enum ObjectType {
    Endpoint,
    Process,
    Memory,
    Irq,
    IoPort,
    Console,
    Storage,
    Network,
}

/// The object type with the given wire number (1..=8).
pub open spec fn object_type_from_code(v: u8) -> Option<ObjectType> {
    if v == 1 {
        Some(ObjectType::Endpoint)
    } else if v == 2 {
        Some(ObjectType::Process)
    } else if v == 3 {
        Some(ObjectType::Memory)
    } else if v == 4 {
        Some(ObjectType::Irq)
    } else if v == 5 {
        Some(ObjectType::IoPort)
    } else if v == 6 {
        Some(ObjectType::Console)
    } else if v == 7 {
        Some(ObjectType::Storage)
    } else if v == 8 {
        Some(ObjectType::Network)
    } else {
        None
    }
}

/// The display name of an object type.
pub open spec fn object_type_name(t: ObjectType) -> Seq<char> {
    match t {
        ObjectType::Endpoint => "Endpoint"@,
        ObjectType::Process => "Process"@,
        ObjectType::Memory => "Memory"@,
        ObjectType::Irq => "IRQ"@,
        ObjectType::IoPort => "I/O Port"@,
        ObjectType::Console => "Console"@,
        ObjectType::Storage => "Storage"@,
        ObjectType::Network => "Network"@,
    }
}

impl ObjectType {
    /// The object type with the given wire number, if any.
    pub fn from_u8(v: u8) -> (r: Option<Self>)
        ensures
            r == object_type_from_code(v),
    {
        match v {
            1 => Some(ObjectType::Endpoint),
            2 => Some(ObjectType::Process),
            3 => Some(ObjectType::Memory),
            4 => Some(ObjectType::Irq),
            5 => Some(ObjectType::IoPort),
            6 => Some(ObjectType::Console),
            7 => Some(ObjectType::Storage),
            8 => Some(ObjectType::Network),
            _ => None,
        }
    }

    /// The display name of this object type.
    pub fn name(&self) -> (s: &'static str)
        ensures
            s@ == object_type_name(*self),
    {
        match self {
            ObjectType::Endpoint => "Endpoint",
            ObjectType::Process => "Process",
            ObjectType::Memory => "Memory",
            ObjectType::Irq => "IRQ",
            ObjectType::IoPort => "I/O Port",
            ObjectType::Console => "Console",
            ObjectType::Storage => "Storage",
            ObjectType::Network => "Network",
        }
    }
}

/// Permission bits for capabilities.
#[derive(Clone, Copy, Debug, Default, PartialEq, Eq, Structural)]
pub struct Permissions {
    /// Can read from the object
    pub read: bool,
    /// Can write to the object
    pub write: bool,
    /// Can grant this capability to other processes
    pub grant: bool,
}

impl Permissions {
    /// Full permissions (read, write, grant).
    pub fn full() -> (p: Self)
        ensures
            p == (Permissions { read: true, write: true, grant: true }),
    {
        Permissions { read: true, write: true, grant: true }
    }

    /// Read-write permissions (no grant).
    pub fn read_write() -> (p: Self)
        ensures
            p == (Permissions { read: true, write: true, grant: false }),
    {
        Permissions { read: true, write: true, grant: false }
    }

    /// Read-only permission.
    pub fn read_only() -> (p: Self)
        ensures
            p == (Permissions { read: true, write: false, grant: false }),
    {
        Permissions { read: true, write: false, grant: false }
    }

    /// Write-only permission.
    pub fn write_only() -> (p: Self)
        ensures
            p == (Permissions { read: false, write: true, grant: false }),
    {
        Permissions { read: false, write: true, grant: false }
    }
}

/// A capability request with the reason shown to the user.
#[derive(Clone, Copy, Debug)]
pub struct CapabilityRequest {
    /// Type of kernel object requested
    pub object_type: ObjectType,
    /// Permissions needed on the object
    pub permissions: Permissions,
    /// Human-readable reason
    pub reason: &'static str,
    /// Whether the app cannot function without it
    pub required: bool,
}

/// Application manifest: identity and requested capabilities.
#[derive(Clone, Copy, Debug)]
pub struct AppManifest {
    /// Unique identifier, reverse-domain format (e.g. "com.zero.clock")
    pub id: &'static str,
    /// Human-readable name
    pub name: &'static str,
    /// Semantic version
    pub version: &'static str,
    /// Brief description
    pub description: &'static str,
    /// Requested capabilities
    pub capabilities: &'static [CapabilityRequest],
}

/// The prefix of factory (built-in) app IDs.
pub open spec fn factory_prefix() -> Seq<char> {
    "com.zero."@
}

impl AppManifest {
    /// A manifest for a minimal app: no requested capabilities.
    pub fn minimal(
        id: &'static str,
        name: &'static str,
        version: &'static str,
        description: &'static str,
    ) -> (m: Self)
        ensures
            m.id == id,
            m.name == name,
            m.version == version,
            m.description == description,
            m.capabilities@.len() == 0,
    {
        AppManifest { id, name, version, description, capabilities: &[] }
    }

    /// The app's unique ID.
    pub fn id(&self) -> (s: &str)
        ensures
            s@ == self.id@,
    {
        self.id
    }

    /// The app's display name.
    pub fn name(&self) -> (s: &str)
        ensures
            s@ == self.name@,
    {
        self.name
    }

    /// Whether this is a factory (built-in) app: its ID starts with "com.zero.".
    pub fn is_factory_app(&self) -> (r: bool)
        ensures
            r == factory_prefix().is_prefix_of(self.id@),
    {
        let id = chars_of(self.id);
        let prefix = chars_of("com.zero.");
        if id.len() < prefix.len() {
            return false;
        }
        let mut i: usize = 0;
        while i < prefix.len()
            invariant
                prefix@ == factory_prefix(),
                id@ == self.id@,
                prefix@.len() <= id@.len(),
                i <= prefix@.len(),
                forall|j: int| 0 <= j < i ==> prefix@[j] == id@[j],
            decreases prefix.len() - i,
        {
            if prefix[i] != id[i] {
                return false;
            }
            i = i + 1;
        }
        true
    }
}

} // verus!
