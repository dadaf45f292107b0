//! Where an editor's installer is downloaded from, and how the hub is asked
//! to install it: both are built from the version catalog.

use crate::model::{SupportedUnityVersion, UnityEditorHost};
use reqwest::Url;
use vstd::prelude::*;
use vstd::string::*;

verus! {

/// The directory of the distributor's server under which every build lies.
pub open spec fn download_root() -> Seq<char> {
    "https://download.unity3d.com/download_unity/"@
}

/// The scheme that the hub application is registered for.
pub open spec fn hub_scheme() -> Seq<char> {
    "unityhub://"@
}

/// The installer's file name without version and suffix, by host.
pub open spec fn executable_base_name(host: UnityEditorHost) -> Seq<char> {
    match host {
        UnityEditorHost::Windows => "UnityDownloadAssistant"@,
        UnityEditorHost::Linux => "UnitySetup"@,
        UnityEditorHost::MacOS => "UnityDownloadAssistant"@,
    }
}

/// The installer's file suffix, by host. Linux has none.
pub open spec fn file_suffix(host: UnityEditorHost) -> Seq<char> {
    match host {
        UnityEditorHost::Windows => ".exe"@,
        UnityEditorHost::Linux => Seq::<char>::empty(),
        UnityEditorHost::MacOS => ".dmg"@,
    }
}

/// The address of the installer of `version` for `host`:
/// root, build hash, `/`, base name, `-`, qualified version, suffix.
pub open spec fn artifact_address(host: UnityEditorHost, version: SupportedUnityVersion) -> Seq<
    char,
> {
    download_root() + version.build_hash_text() + "/"@ + executable_base_name(host) + "-"@
        + version.qualified_version_text() + file_suffix(host)
}

/// The deep link that asks the hub to install `version`:
/// scheme, qualified version, `/`, build hash.
pub open spec fn hub_deep_link(version: SupportedUnityVersion) -> Seq<char> {
    hub_scheme() + version.qualified_version_text() + "/"@ + version.build_hash_text()
}

/// The serialization of the absolute URL that `url::Url::parse` reads from
/// `text`, or `None` where it reads none.
pub uninterp spec fn canonical_url(text: Seq<char>) -> Option<Seq<char>>;

/// Calls `url::Url::parse` (reached as `reqwest::Url`) and hands out the
/// serialization that the parsed URL stores. Trusted: that the outcome is
/// `canonical_url` of the text, which only gives the parser's result a name.
#[verifier::external_body]
fn parse_url(text: &str) -> (parsed: Option<String>)
    ensures
        parsed is Some <==> canonical_url(text@) is Some,
        parsed matches Some(url) ==> canonical_url(text@) == Some(url@),
{
    match Url::parse(text) {
        Ok(url) => Some(String::from(url)),
        Err(_) => None,
    }
}

pub fn executable_name(host: UnityEditorHost) -> (name: &'static str)
    ensures
        name@ == executable_base_name(host),
{
    match host {
        UnityEditorHost::Windows => "UnityDownloadAssistant",
        UnityEditorHost::Linux => "UnitySetup",
        UnityEditorHost::MacOS => "UnityDownloadAssistant",
    }
}

pub fn extension(host: UnityEditorHost) -> (suffix: &'static str)
    ensures
        suffix@ == file_suffix(host),
{
    match host {
        UnityEditorHost::Windows => ".exe",
        UnityEditorHost::Linux => {
            proof {
                reveal_strlit("");
                assert(""@ =~= Seq::<char>::empty());
            }
            ""
        },
        UnityEditorHost::MacOS => ".dmg",
    }
}

/// The download address as text. Total: every host and version has one.
pub fn locate(host: UnityEditorHost, version: SupportedUnityVersion) -> (address: String)
    ensures
        address@ == artifact_address(host, version),
{
    let mut buf = String::new();
    buf.append("https://download.unity3d.com/download_unity/");
    buf.append(version.build_hash());
    buf.append("/");
    buf.append(executable_name(host));
    buf.append("-");
    buf.append(version.fully_qualified_version());
    buf.append(extension(host));
    buf
}

/// The deep link as text.
pub fn hub_uri(version: SupportedUnityVersion) -> (uri: String)
    ensures
        uri@ == hub_deep_link(version),
{
    let mut buf = String::new();
    buf.append("unityhub://");
    buf.append(version.fully_qualified_version());
    buf.append("/");
    buf.append(version.build_hash());
    buf
}

/// An address as the URL parser gives it back, or `None` where the parser
/// refuses it. What the parser makes of a text is not stated here, only
/// named: see `canonical_url`.
pub fn parse_address(text: &str) -> (url: Option<String>)
    ensures
        url is Some <==> canonical_url(text@) is Some,
        url matches Some(parsed) ==> canonical_url(text@) == Some(parsed@),
{
    parse_url(text)
}

/// The download address as the URL parser gives it back, or `None` where the
/// parser refuses the address.
pub fn compute_url(unity_editor_host: UnityEditorHost, version: SupportedUnityVersion) -> (url:
    Option<String>)
    ensures
        url is Some <==> canonical_url(artifact_address(unity_editor_host, version)) is Some,
        url matches Some(text) ==> canonical_url(artifact_address(unity_editor_host, version))
            == Some(text@),
{
    let address = locate(unity_editor_host, version);
    parse_address(address.as_str())
}

/// The six addresses, written out: for every host and version the address
/// is exactly the one that the distributor serves.
pub proof fn artifact_addresses_written_out(host: UnityEditorHost, version: SupportedUnityVersion)
    ensures
        artifact_address(host, version) == match (host, version) {
            (UnityEditorHost::Windows, SupportedUnityVersion::R2019_4_31) =>
                "https://download.unity3d.com/download_unity/bd5abf232a62/UnityDownloadAssistant-2019.4.31f1.exe"@,
            (UnityEditorHost::Linux, SupportedUnityVersion::R2019_4_31) =>
                "https://download.unity3d.com/download_unity/bd5abf232a62/UnitySetup-2019.4.31f1"@,
            (UnityEditorHost::MacOS, SupportedUnityVersion::R2019_4_31) =>
                "https://download.unity3d.com/download_unity/bd5abf232a62/UnityDownloadAssistant-2019.4.31f1.dmg"@,
            (UnityEditorHost::Windows, SupportedUnityVersion::R2022_3_6) =>
                "https://download.unity3d.com/download_unity/b9e6e7e9fa2d/UnityDownloadAssistant-2022.3.6f1.exe"@,
            (UnityEditorHost::Linux, SupportedUnityVersion::R2022_3_6) =>
                "https://download.unity3d.com/download_unity/b9e6e7e9fa2d/UnitySetup-2022.3.6f1"@,
            (UnityEditorHost::MacOS, SupportedUnityVersion::R2022_3_6) =>
                "https://download.unity3d.com/download_unity/b9e6e7e9fa2d/UnityDownloadAssistant-2022.3.6f1.dmg"@,
        },
{
    reveal_strlit("https://download.unity3d.com/download_unity/");
    reveal_strlit("bd5abf232a62");
    reveal_strlit("b9e6e7e9fa2d");
    reveal_strlit("2019.4.31f1");
    reveal_strlit("2022.3.6f1");
    reveal_strlit("UnityDownloadAssistant");
    reveal_strlit("UnitySetup");
    reveal_strlit(".exe");
    reveal_strlit(".dmg");
    reveal_strlit("/");
    reveal_strlit("-");
    reveal_strlit("https://download.unity3d.com/download_unity/bd5abf232a62/UnityDownloadAssistant-2019.4.31f1.exe");
    reveal_strlit("https://download.unity3d.com/download_unity/bd5abf232a62/UnitySetup-2019.4.31f1");
    reveal_strlit("https://download.unity3d.com/download_unity/bd5abf232a62/UnityDownloadAssistant-2019.4.31f1.dmg");
    reveal_strlit("https://download.unity3d.com/download_unity/b9e6e7e9fa2d/UnityDownloadAssistant-2022.3.6f1.exe");
    reveal_strlit("https://download.unity3d.com/download_unity/b9e6e7e9fa2d/UnitySetup-2022.3.6f1");
    reveal_strlit("https://download.unity3d.com/download_unity/b9e6e7e9fa2d/UnityDownloadAssistant-2022.3.6f1.dmg");
}

} // verus!
