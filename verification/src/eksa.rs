//! Finding the `eksctl anywhere` binary for this machine in the EKS Anywhere release manifest.

use crate::document::{
    doc_get, doc_list, doc_text, doc_views, find_where, first_where, is_text,
    lemma_first_where_found, lemma_first_where_none, opt_get, parse_yaml_documents,
    yaml_documents, Doc, DocView,
};
use crate::provider::{ProviderError, Resources};
use crate::text::{owned, str_ends_with, str_eq};
use vstd::prelude::*;
use vstd::utf8::encode_utf8;

verus! {

/// The architecture as EKS Anywhere names it: `amd64` for `x86_64`, `arm64` for `aarch64`.
pub open spec fn eksa_arch_text(arch: Seq<char>) -> Seq<char> {
    if arch == "x86_64"@ {
        "amd64"@
    } else if arch == "aarch64"@ {
        "arm64"@
    } else {
        arch
    }
}

/// The name EKS Anywhere gives the architecture `arch`.
pub fn eksa_arch(arch: &str) -> (r: String)
    ensures
        r@ == eksa_arch_text(arch@),
{
    if str_eq(arch, "x86_64") {
        owned("amd64")
    } else if str_eq(arch, "aarch64") {
        owned("arm64")
    } else {
        owned(arch)
    }
}

/// Whether the manifest document `d` is of kind `Release`.
pub open spec fn is_release_document(d: DocView) -> bool {
    is_text(doc_get(d, "kind"@), "Release"@)
}

/// The first document of kind `Release` in the manifest.
pub open spec fn release_document(docs: Seq<DocView>) -> Option<DocView> {
    find_where(docs, |d: DocView| is_release_document(d))
}

/// The latest version the manifest names: the `spec.latestVersion` text of its first release
/// document.
pub open spec fn latest_version_of(docs: Seq<DocView>) -> Option<Seq<char>> {
    match release_document(docs) {
        Some(d) => doc_text(opt_get(doc_get(d, "spec"@), "latestVersion"@)),
        None => None,
    }
}

/// Whether the release `r` has the version `version`.
pub open spec fn has_version(r: DocView, version: Seq<char>) -> bool {
    is_text(doc_get(r, "version"@), version)
}

/// The URI of the binary for `os` and `arch` of the release `latest`: in the first release
/// document, the first of its `spec.releases` with that version, its `eksACLI.<os>.<arch>.uri`.
pub open spec fn archive_uri_of(
    docs: Seq<DocView>,
    latest: Seq<char>,
    os: Seq<char>,
    arch: Seq<char>,
) -> Option<Seq<char>> {
    match release_document(docs) {
        Some(d) => match doc_list(opt_get(doc_get(d, "spec"@), "releases"@)) {
            Some(rs) => match find_where(rs, |r: DocView| has_version(r, latest)) {
                Some(r) => doc_text(
                    opt_get(opt_get(opt_get(doc_get(r, "eksACLI"@), os), arch), "uri"@),
                ),
                None => None,
            },
            None => None,
        },
        None => None,
    }
}

/// The URL of the `eksctl anywhere` archive in the release manifest `manifest` (YAML documents)
/// for the operating system `os` and the architecture `arch`, or the message for why there is
/// none.
pub open spec fn archive_url_of(manifest: Seq<char>, os: Seq<char>, arch: Seq<char>) -> Result<
    Seq<char>,
    Seq<char>,
> {
    match yaml_documents(encode_utf8(manifest)) {
        None => Err("Unable to deserialize eksa config file"@),
        Some(docs) => archive_url_in(docs, os, arch),
    }
}

/// The URL of the `eksctl anywhere` archive for `os` and `arch` of the latest release in the
/// documents `docs` of the release manifest, or the message for why there is none.
pub open spec fn archive_url_in(docs: Seq<DocView>, os: Seq<char>, arch: Seq<char>) -> Result<
    Seq<char>,
    Seq<char>,
> {
    match latest_version_of(docs) {
        None => Err("Unable to get latest version for EKS-A"@),
        Some(latest) => match archive_uri_of(docs, latest, os, arch) {
            Some(u) => Ok(u),
            None => Err("Unable to get the URL for the latest EKS-A version ("@ + latest + ")"@),
        },
    }
}

fn first_release_document(docs: &Vec<Doc>) -> (r: usize)
    ensures
        r == first_where(doc_views(docs@), |d: DocView| is_release_document(d)),
{
    let ghost views = doc_views(docs@);
    let ghost p = |d: DocView| is_release_document(d);
    let mut i: usize = 0;
    while i < docs.len()
        invariant
            0 <= i <= docs@.len(),
            views == doc_views(docs@),
            p == (|d: DocView| is_release_document(d)),
            forall|j: int| 0 <= j < i ==> !p(#[trigger] views[j]),
        decreases docs.len() - i,
    {
        let hit = match docs[i].get("kind") {
            Some(k) => k.is_text("Release"),
            None => false,
        };
        assert(views[i as int] == docs@[i as int]@);
        if hit {
            proof {
                lemma_first_where_found(views, p, i as nat);
            }
            return i;
        }
        i = i + 1;
    }
    proof {
        lemma_first_where_none(views, p);
    }
    i
}

fn release_with_version(releases: &Vec<Doc>, version: &str) -> (r: usize)
    ensures
        r == first_where(doc_views(releases@), |x: DocView| has_version(x, version@)),
{
    let ghost views = doc_views(releases@);
    let ghost p = |x: DocView| has_version(x, version@);
    let mut i: usize = 0;
    while i < releases.len()
        invariant
            0 <= i <= releases@.len(),
            views == doc_views(releases@),
            p == (|x: DocView| has_version(x, version@)),
            forall|j: int| 0 <= j < i ==> !p(#[trigger] views[j]),
        decreases releases.len() - i,
    {
        let hit = match releases[i].get("version") {
            Some(v) => v.is_text(version),
            None => false,
        };
        assert(views[i as int] == releases@[i as int]@);
        if hit {
            proof {
                lemma_first_where_found(views, p, i as nat);
            }
            return i;
        }
        i = i + 1;
    }
    proof {
        lemma_first_where_none(views, p);
    }
    i
}

/// The `eksACLI.<os>.<arch>.uri` text of the release `release`.
fn binary_uri(release: &Doc, os: &str, arch: &str) -> (r: Option<String>)
    ensures
        match r {
            Some(u) => doc_text(
                opt_get(opt_get(opt_get(doc_get(release@, "eksACLI"@), os@), arch@), "uri"@),
            ) == Some(u@),
            None => doc_text(
                opt_get(opt_get(opt_get(doc_get(release@, "eksACLI"@), os@), arch@), "uri"@),
            ) is None,
        },
{
    let cli = match release.get("eksACLI") {
        Some(c) => c,
        None => {
            return None;
        },
    };
    let for_os = match cli.get(os) {
        Some(c) => c,
        None => {
            return None;
        },
    };
    let for_arch = match for_os.get(arch) {
        Some(c) => c,
        None => {
            return None;
        },
    };
    match for_arch.get("uri") {
        Some(u) => match u.as_text() {
            Some(t) => Some(t.clone()),
            None => None,
        },
        None => None,
    }
}

/// The URL of the `eksctl anywhere` archive for the operating system `os` and the architecture
/// `arch` (as EKS Anywhere names them) of the latest release in the release manifest
/// `manifest`; or the error when the manifest is no YAML, names no latest version, or no binary
/// of it for the system.
pub fn eks_a_archive_url(manifest: &str, os: &str, arch: &str, resources: Resources) -> (r: Result<
    String,
    ProviderError,
>)
    ensures
        match archive_url_of(manifest@, os@, arch@) {
            Ok(u) => r matches Ok(s) && s@ == u,
            Err(m) => r matches Err(e) && e.resources == resources && e.context@ == m,
        },
{
    match parse_yaml_documents(manifest.as_bytes()) {
        Some(docs) => manifest_archive_url(&docs, os, arch, resources),
        None => Err(
            ProviderError::new_with_context(
                resources,
                owned("Unable to deserialize eksa config file"),
            ),
        ),
    }
}

/// The URL of the `eksctl anywhere` archive for `os` and `arch` of the latest release in the
/// documents `docs` of the release manifest; or the error when they name no latest version, or
/// no binary of it for the system.
pub fn manifest_archive_url(docs: &Vec<Doc>, os: &str, arch: &str, resources: Resources) -> (r: Result<
    String,
    ProviderError,
>)
    ensures
        match archive_url_in(doc_views(docs@), os@, arch@) {
            Ok(u) => r matches Ok(s) && s@ == u,
            Err(m) => r matches Err(e) && e.resources == resources && e.context@ == m,
        },
{
    let ghost views = doc_views(docs@);
    let d = first_release_document(docs);
    if d >= docs.len() {
        return Err(
            ProviderError::new_with_context(resources, owned("Unable to get latest version for EKS-A")),
        );
    }
    let doc = &docs[d];
    assert(views[d as int] == doc@);
    let latest = match doc.get("spec") {
        Some(spec) => match spec.get("latestVersion") {
            Some(v) => v.as_text(),
            None => None,
        },
        None => None,
    };
    let latest = match latest {
        Some(v) => v,
        None => {
            return Err(
                ProviderError::new_with_context(
                    resources,
                    owned("Unable to get latest version for EKS-A"),
                ),
            );
        },
    };
    let mut missing = owned("Unable to get the URL for the latest EKS-A version (");
    missing.append(latest.as_str());
    missing.append(")");
    let releases = match doc.get("spec") {
        Some(spec) => match spec.get("releases") {
            Some(l) => l.as_list(),
            None => None,
        },
        None => None,
    };
    let releases = match releases {
        Some(rs) => rs,
        None => {
            return Err(ProviderError::new_with_context(resources, missing));
        },
    };
    let ri = release_with_version(releases, latest.as_str());
    if ri >= releases.len() {
        return Err(ProviderError::new_with_context(resources, missing));
    }
    let release = &releases[ri];
    assert(doc_views(releases@)[ri as int] == release@);
    match binary_uri(release, os, arch) {
        Some(u) => Ok(u),
        None => Err(ProviderError::new_with_context(resources, missing)),
    }
}

/// Where the EKS Anywhere release manifest is published.
pub const DEFAULT_EKS_A_RELEASE_MANIFEST: &'static str =
    "https://anywhere-assets.eks.amazonaws.com/releases/eks-a/manifest.yaml";

/// Where the `eksctl anywhere` binary is installed.
pub const USR_LOCAL_BIN: &'static str = "/usr/local/bin/";

/// The release manifest to read: the configured one, else the published one.
pub fn release_manifest_url(configured: &Option<String>) -> (r: String)
    ensures
        r@ == match configured {
            Some(u) => u@,
            None => DEFAULT_EKS_A_RELEASE_MANIFEST@,
        },
{
    match configured {
        Some(u) => u.clone(),
        None => owned(DEFAULT_EKS_A_RELEASE_MANIFEST),
    }
}

/// Accepts the archive URL only when it names a `tar.gz` archive, the one kind of archive the
/// agent unpacks.
pub fn check_archive_url(archive_url: &str, resources: Resources) -> (r: Result<(), ProviderError>)
    ensures
        r is Ok <==> archive_url@.len() >= 6 && archive_url@.subrange(
            archive_url@.len() - 6,
            archive_url@.len() as int,
        ) == "tar.gz"@,
        r matches Err(e) ==> e.resources == resources && e.context@ == "EKS-A binary archive at '"@
            + archive_url@ + "' is not tar.gz compressed"@,
{
    proof {
        reveal_strlit("tar.gz");
    }
    if str_ends_with(archive_url, "tar.gz") {
        Ok(())
    } else {
        let mut msg = owned("EKS-A binary archive at '");
        msg.append(archive_url);
        msg.append("' is not tar.gz compressed");
        Err(ProviderError::new_with_context(resources, msg))
    }
}

} // verus!
