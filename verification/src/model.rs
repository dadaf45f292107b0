//! The value types of an install request and the version catalog.

use uuid::Uuid;
use vstd::prelude::*;

verus! {

/// The closed set of editor versions that can be installed.
#[allow(non_camel_case_types)]
#[derive(Copy, Clone, Eq, PartialEq, Debug, Hash, Structural)]
pub enum SupportedUnityVersion {
    R2019_4_31,
    R2022_3_6,
}

impl SupportedUnityVersion {
    /// The build identifier under which the distributor files this version.
    pub open spec fn build_hash_text(self) -> Seq<char> {
        match self {
            SupportedUnityVersion::R2019_4_31 => "bd5abf232a62"@,
            SupportedUnityVersion::R2022_3_6 => "b9e6e7e9fa2d"@,
        }
    }

    /// The version as the distributor writes it.
    pub open spec fn qualified_version_text(self) -> Seq<char> {
        match self {
            SupportedUnityVersion::R2019_4_31 => "2019.4.31f1"@,
            SupportedUnityVersion::R2022_3_6 => "2022.3.6f1"@,
        }
    }

    #[inline]
    pub fn build_hash(self) -> (hash: &'static str)
        ensures
            hash@ == self.build_hash_text(),
    {
        match self {
            SupportedUnityVersion::R2019_4_31 => "bd5abf232a62",
            SupportedUnityVersion::R2022_3_6 => "b9e6e7e9fa2d",
        }
    }

    #[inline]
    pub fn fully_qualified_version(self) -> (version: &'static str)
        ensures
            version@ == self.qualified_version_text(),
    {
        match self {
            SupportedUnityVersion::R2019_4_31 => "2019.4.31f1",
            SupportedUnityVersion::R2022_3_6 => "2022.3.6f1",
        }
    }
}

/// What a new project is made from: a project kind on an editor version.
#[derive(Copy, Clone, Eq, PartialEq, Debug, Structural)]
pub enum NewProjectTemplateKind {
    Avatar3WithUnity2019,
    World3WithUnity2019,
    Avatar3WithUnity2022,
    World3WithUnity2022,
}

/// The kinds of project that a template can produce.
#[derive(Copy, Clone, Eq, PartialEq, Debug, Structural)]
pub enum ProjectKind {
    /// avatar project using SDK 3.
    Avatar3,
    /// world project using SDK 3.
    World3,
}

impl NewProjectTemplateKind {
    /// The editor version that the template is built on.
    pub open spec fn unity_version(self) -> SupportedUnityVersion {
        match self {
            NewProjectTemplateKind::Avatar3WithUnity2019 => SupportedUnityVersion::R2019_4_31,
            NewProjectTemplateKind::World3WithUnity2019 => SupportedUnityVersion::R2019_4_31,
            NewProjectTemplateKind::Avatar3WithUnity2022 => SupportedUnityVersion::R2022_3_6,
            NewProjectTemplateKind::World3WithUnity2022 => SupportedUnityVersion::R2022_3_6,
        }
    }

    /// The project kind that the template produces.
    pub open spec fn project_kind(self) -> ProjectKind {
        match self {
            NewProjectTemplateKind::Avatar3WithUnity2019 => ProjectKind::Avatar3,
            NewProjectTemplateKind::World3WithUnity2019 => ProjectKind::World3,
            NewProjectTemplateKind::Avatar3WithUnity2022 => ProjectKind::Avatar3,
            NewProjectTemplateKind::World3WithUnity2022 => ProjectKind::World3,
        }
    }

    pub fn unity(self) -> (version: SupportedUnityVersion)
        ensures
            version == self.unity_version(),
    {
        match self {
            NewProjectTemplateKind::Avatar3WithUnity2019 => SupportedUnityVersion::R2019_4_31,
            NewProjectTemplateKind::World3WithUnity2019 => SupportedUnityVersion::R2019_4_31,
            NewProjectTemplateKind::Avatar3WithUnity2022 => SupportedUnityVersion::R2022_3_6,
            NewProjectTemplateKind::World3WithUnity2022 => SupportedUnityVersion::R2022_3_6,
        }
    }

    pub fn kind(self) -> (kind: ProjectKind)
        ensures
            kind == self.project_kind(),
    {
        match self {
            NewProjectTemplateKind::Avatar3WithUnity2019 => ProjectKind::Avatar3,
            NewProjectTemplateKind::World3WithUnity2019 => ProjectKind::World3,
            NewProjectTemplateKind::Avatar3WithUnity2022 => ProjectKind::Avatar3,
            NewProjectTemplateKind::World3WithUnity2022 => ProjectKind::World3,
        }
    }
}

/// The platform that the installed editor builds for.
#[derive(Copy, Clone, Eq, PartialEq, Debug, Hash, Structural)]
pub enum UnityPlatformTarget {
    /// Build for windows.
    WindowsMono,
    /// Build for Meta Quest and Android cell-phones.
    Android,
}

/// The operating system that the editor runs on.
#[derive(Copy, Clone, Eq, PartialEq, Debug, Hash, Structural)]
pub enum UnityEditorHost {
    Windows,
    Linux,
    MacOS,
}

/// One install request. It fully determines what a dispatch does.
#[derive(Copy, Clone, Eq, PartialEq, Debug, Hash, Structural)]
pub struct UnityInstallSetting {
    pub version: SupportedUnityVersion,
    pub target: UnityPlatformTarget,
    pub host: UnityEditorHost,
    pub prefer_unity_hub: bool,
}

/// Whether `bits` are a random identifier as RFC 9562 lays it out, read as
/// one big-endian number: the version field holds 4 and the variant field
/// holds the bits `10`. The other 122 bits are free.
pub open spec fn is_random_uuid(bits: u128) -> bool {
    ((bits >> 76u128) & 0xfu128) == 4u128 && ((bits >> 62u128) & 0x3u128) == 2u128
}

/// Calls `uuid::Uuid::new_v4` and hands out the identifier as the number
/// that `uuid::Uuid::as_u128` gives. Trusted: the version and the variant
/// field, which `new_v4` sets over whatever the random source gave.
/// Nothing is claimed of the other bits. It fails only where the operating
/// system gives no random bytes.
#[verifier::external_body]
fn random_uuid() -> (bits: u128)
    ensures
        is_random_uuid(bits),
{
    Uuid::new_v4().as_u128()
}

/// The handle of a project: a UUID, held as one big-endian number.
#[derive(Copy, Clone, Eq, PartialEq, Debug)]
pub struct ProjectId(u128);

impl View for ProjectId {
    type V = u128;

    closed spec fn view(&self) -> u128 {
        self.0
    }
}

impl ProjectId {
    /// A fresh handle: a random identifier of version 4. Its free bits come
    /// from the random source and from nothing else.
    pub fn new() -> (id: Self)
        ensures
            is_random_uuid(id@),
    {
        Self(random_uuid())
    }

    /// The handle that is the identifier `bits`, of whatever version.
    pub fn from_u128(bits: u128) -> (id: Self)
        ensures
            id@ == bits,
    {
        ProjectId(bits)
    }

    /// The identifier as one big-endian number.
    pub fn as_u128(&self) -> (bits: u128)
        ensures
            bits == self@,
    {
        self.0
    }
}

/// A project as a request names it.
#[derive(Copy, Clone, Eq, PartialEq, Debug)]
pub struct ProjectPath {
    project_id: ProjectId,
}

impl ProjectPath {
    pub fn new(project_id: ProjectId) -> (path: Self)
        ensures
            path.project_id() == project_id,
    {
        ProjectPath { project_id }
    }

    pub closed spec fn project_id(self) -> ProjectId {
        self.project_id
    }

    pub fn id(&self) -> (project_id: ProjectId)
        ensures
            project_id == self.project_id(),
    {
        self.project_id
    }
}

/// A request for a new project: the template, and where the project goes.
#[derive(Clone, Debug, PartialEq, Eq)]
pub struct NewProjectTemplateRequest {
    pub template_kind: NewProjectTemplateKind,
    pub project_root: String,
}

/// A directory that a caller claims an editor was installed in.
#[derive(Clone, Debug, PartialEq, Eq)]
pub struct UnityPath {
    pub path: String,
}

} // verus!
