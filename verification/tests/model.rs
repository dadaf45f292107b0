use xpvcc::model::{
    NewProjectTemplateKind, NewProjectTemplateRequest, ProjectId, ProjectKind, ProjectPath,
    SupportedUnityVersion, UnityEditorHost, UnityInstallSetting, UnityPath, UnityPlatformTarget,
};

#[test]
fn build_hashes() {
    assert_eq!(SupportedUnityVersion::R2019_4_31.build_hash(), "bd5abf232a62");
    assert_eq!(SupportedUnityVersion::R2022_3_6.build_hash(), "b9e6e7e9fa2d");
}

#[test]
fn fully_qualified_versions() {
    assert_eq!(SupportedUnityVersion::R2019_4_31.fully_qualified_version(), "2019.4.31f1");
    assert_eq!(SupportedUnityVersion::R2022_3_6.fully_qualified_version(), "2022.3.6f1");
}

#[test]
fn template_unity_versions() {
    assert_eq!(
        NewProjectTemplateKind::Avatar3WithUnity2019.unity(),
        SupportedUnityVersion::R2019_4_31
    );
    assert_eq!(
        NewProjectTemplateKind::World3WithUnity2019.unity(),
        SupportedUnityVersion::R2019_4_31
    );
    assert_eq!(
        NewProjectTemplateKind::Avatar3WithUnity2022.unity(),
        SupportedUnityVersion::R2022_3_6
    );
    assert_eq!(
        NewProjectTemplateKind::World3WithUnity2022.unity(),
        SupportedUnityVersion::R2022_3_6
    );
}

#[test]
fn template_project_kinds() {
    assert_eq!(NewProjectTemplateKind::Avatar3WithUnity2019.kind(), ProjectKind::Avatar3);
    assert_eq!(NewProjectTemplateKind::World3WithUnity2019.kind(), ProjectKind::World3);
    assert_eq!(NewProjectTemplateKind::Avatar3WithUnity2022.kind(), ProjectKind::Avatar3);
    assert_eq!(NewProjectTemplateKind::World3WithUnity2022.kind(), ProjectKind::World3);
}

#[test]
fn settings_compare_by_their_fields() {
    let a = UnityInstallSetting {
        version: SupportedUnityVersion::R2022_3_6,
        target: UnityPlatformTarget::Android,
        host: UnityEditorHost::MacOS,
        prefer_unity_hub: true,
    };
    let mut b = a;
    assert_eq!(a, b);
    b.prefer_unity_hub = false;
    assert_ne!(a, b);
}

#[test]
fn project_ids_are_fresh() {
    let a = ProjectId::new();
    let b = ProjectId::new();
    assert_ne!(a, b);
    assert_eq!(a, a);
}

#[test]
fn project_ids_are_random_uuids() {
    for _ in 0..1000 {
        let bits = ProjectId::new().as_u128();
        assert_eq!((bits >> 76) & 0xf, 4);
        assert_eq!((bits >> 62) & 0x3, 2);
        let uuid = uuid::Uuid::from_u128(bits);
        assert_eq!(uuid.get_version_num(), 4);
        assert_eq!(uuid.get_variant(), uuid::Variant::RFC4122);
    }
}

#[test]
fn project_id_keeps_its_bits() {
    let bits = 0x0123_4567_89ab_cdef_0123_4567_89ab_cdef_u128;
    assert_eq!(ProjectId::from_u128(bits).as_u128(), bits);
    assert_eq!(ProjectId::from_u128(0).as_u128(), 0);
    assert_eq!(ProjectId::from_u128(u128::MAX).as_u128(), u128::MAX);
    assert_eq!(ProjectId::from_u128(bits), ProjectId::from_u128(bits));
    assert_ne!(ProjectId::from_u128(bits), ProjectId::from_u128(bits + 1));
}

#[test]
fn project_path_keeps_its_id() {
    let id = ProjectId::new();
    assert_eq!(ProjectPath::new(id).id(), id);
}

#[test]
fn request_types_hold_what_they_are_given() {
    let request = NewProjectTemplateRequest {
        template_kind: NewProjectTemplateKind::World3WithUnity2022,
        project_root: String::from("/home/me/projects/world"),
    };
    assert_eq!(request.template_kind.kind(), ProjectKind::World3);
    assert_eq!(request.project_root, "/home/me/projects/world");
    let path = UnityPath { path: String::from("/opt/unity/2022.3.6f1") };
    assert_eq!(path.clone().path, "/opt/unity/2022.3.6f1");
}
