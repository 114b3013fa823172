//! The Bottlerocket user data (base64-encoded TOML) that the resource agents give to the
//! instances and VMs they launch.

use crate::agent_config::ClusterType;
use crate::document::{entry_views, json_compact, json_text, mapping_of, Doc, DocView};
use crate::provider::{ProviderError, Resources};
use crate::toml_merge::{merge_values, merged, read_toml, toml_read, toml_printed, toml_text};
use crate::text::owned;
use vstd::prelude::*;
use vstd::utf8::{decode_utf8, encode_utf8, valid_utf8};

verus! {

#[verifier::external_type_specification]
#[verifier::external_body]
pub struct ExDecodeError(base64::DecodeError);

#[verifier::external_type_specification]
#[verifier::external_body]
pub struct ExFromUtf8Error(std::string::FromUtf8Error);

/// The character of the standard base64 alphabet for the 6-bit value `v`.
pub open spec fn base64_char(v: int) -> char {
    if v < 26 {
        (65 + v) as char
    } else if v < 52 {
        (71 + v) as char
    } else if v < 62 {
        (v - 4) as char
    } else if v == 62 {
        '+'
    } else {
        '/'
    }
}

/// The standard (padded) base64 encoding of `bytes`: every 3 bytes become 4 characters of 6 bits
/// each, and a last group of 1 or 2 bytes becomes 2 or 3 characters padded with `=` to 4.
pub open spec fn base64_encoding(bytes: Seq<u8>) -> Seq<char>
    decreases bytes.len(),
{
    if bytes.len() == 0 {
        Seq::empty()
    } else if bytes.len() == 1 {
        let a = bytes[0] as int;
        seq![base64_char(a / 4), base64_char((a % 4) * 16), '=', '=']
    } else if bytes.len() == 2 {
        let a = bytes[0] as int;
        let b = bytes[1] as int;
        seq![base64_char(a / 4), base64_char((a % 4) * 16 + b / 16), base64_char((b % 16) * 4), '=']
    } else {
        let a = bytes[0] as int;
        let b = bytes[1] as int;
        let c = bytes[2] as int;
        seq![
            base64_char(a / 4),
            base64_char((a % 4) * 16 + b / 16),
            base64_char((b % 16) * 4 + c / 64),
            base64_char(c % 64),
        ] + base64_encoding(bytes.skip(3))
    }
}

/// The bytes whose standard base64 encoding, as ASCII bytes, is `text`, when there are such: the
/// decoder takes exactly the canonical encodings (padding as the encoder writes it, unused bits
/// zero), and an encoding belongs to one sequence of bytes only.
pub open spec fn base64_decoding(text: Seq<u8>) -> Option<Seq<u8>> {
    if exists|b: Seq<u8>| encode_utf8(base64_encoding(b)) == text {
        Some(choose|b: Seq<u8>| encode_utf8(base64_encoding(b)) == text)
    } else {
        None
    }
}

/// `base64::Engine::encode` with the standard engine (padded, standard alphabet): the base64 text
/// of `bytes`, which the same engine decodes back to `bytes`.
#[verifier::external_body]
pub(crate) fn base64_encode(bytes: &[u8]) -> (r: String)
    requires
        (bytes@.len() / 3 + 1) * 4 <= usize::MAX,
    ensures
        r@ == base64_encoding(bytes@),
        base64_decoding(encode_utf8(r@)) == Some(bytes@),
{
    base64::Engine::encode(&base64::engine::general_purpose::STANDARD, bytes)
}

/// `base64::Engine::decode` with the standard engine, whose configuration requires canonical
/// padding and refuses trailing bits: it decodes exactly the texts the encoder writes.
#[verifier::external_body]
pub(crate) fn base64_decode(text: &[u8]) -> (r: Result<Vec<u8>, base64::DecodeError>)
    ensures
        r is Ok <==> base64_decoding(text@) is Some,
        r matches Ok(b) ==> base64_decoding(text@) == Some(b@),
{
    base64::Engine::decode(&base64::engine::general_purpose::STANDARD, text)
}

/// `String::from_utf8`: the text that `bytes` encode, when they are valid UTF-8.
#[verifier::external_body]
pub(crate) fn string_from_utf8(bytes: Vec<u8>) -> (r: Result<String, std::string::FromUtf8Error>)
    ensures
        r is Ok <==> valid_utf8(bytes@),
        r matches Ok(s) ==> s@ == decode_utf8(bytes@),
{
    String::from_utf8(bytes)
}

/// The base64 text of the UTF-8 bytes of `text`.
pub open spec fn encoded_text(text: Seq<char>) -> Seq<char> {
    base64_encoding(encode_utf8(text))
}

/// Base64-encodes the UTF-8 bytes of `text`; decoding the result gives `text` back.
pub fn encode_text(text: &str) -> (r: String)
    requires
        (encode_utf8(text@).len() / 3 + 1) * 4 <= usize::MAX,
    ensures
        r@ == encoded_text(text@),
        decoded_text(r@) == Some(text@),
{
    let r = base64_encode(text.as_bytes());
    proof {
        vstd::utf8::encode_utf8_valid_utf8(text@);
        vstd::utf8::encode_utf8_decode_utf8(text@);
    }
    r
}

/// What decoding `encoded` gives: the text that its base64 bytes encode as UTF-8.
pub open spec fn decoded_text(encoded: Seq<char>) -> Option<Seq<char>> {
    match base64_decoding(encode_utf8(encoded)) {
        Some(bytes) => if valid_utf8(bytes) {
            Some(decode_utf8(bytes))
        } else {
            None
        },
        None => None,
    }
}

/// Decodes base64-encoded user data into its (UTF-8) text.
pub fn decode_to_string(encoded_userdata: &String) -> (r: Result<String, ProviderError>)
    ensures
        r matches Ok(s) ==> decoded_text(encoded_userdata@) == Some(s@),
        r is Err <==> decoded_text(encoded_userdata@) is None,
        r matches Err(e) ==> e.resources == Resources::Clear && e.context@
            == "Failed to decode base64 TOML"@,
{
    let bytes = match base64_decode(encoded_userdata.as_str().as_bytes()) {
        Ok(b) => b,
        Err(_) => {
            let mut msg = String::new();
            msg.append("Failed to decode base64 TOML");
            return Err(ProviderError::new_with_context(Resources::Clear, msg));
        },
    };
    match string_from_utf8(bytes) {
        Ok(s) => Ok(s),
        Err(_) => {
            let mut msg = String::new();
            msg.append("Failed to decode base64 TOML");
            Err(ProviderError::new_with_context(Resources::Clear, msg))
        },
    }
}

/// Decodes the base64 kubeconfig of a test cluster into its bytes, which the agent then writes
/// where the test tools look for it.
pub fn decode_kubeconfig(kubeconfig_base64: &str) -> (r: Result<Vec<u8>, ProviderError>)
    ensures
        r is Ok <==> base64_decoding(encode_utf8(kubeconfig_base64@)) is Some,
        r matches Ok(b) ==> base64_decoding(encode_utf8(kubeconfig_base64@)) == Some(b@),
        r matches Err(e) ==> e.resources == Resources::Clear && e.context@
            == "Failed to base64-decode 'kubeconfig' for test cluster"@,
{
    match base64_decode(kubeconfig_base64.as_bytes()) {
        Ok(b) => Ok(b),
        Err(_) => {
            let mut msg = String::new();
            msg.append("Failed to base64-decode 'kubeconfig' for test cluster");
            Err(ProviderError::new_with_context(Resources::Clear, msg))
        },
    }
}

/// The TOML of the default user data for an EKS node.
pub open spec fn eks_userdata_text(
    endpoint: Seq<char>,
    cluster_name: Seq<char>,
    certificate: Seq<char>,
    cluster_dns_ip: Seq<char>,
) -> Seq<char> {
    "[settings.updates]\nignore-waves = true\n\n[settings.kubernetes]\napi-server = \""@ + endpoint
        + "\"\ncluster-name = \""@ + cluster_name + "\"\ncluster-certificate = \""@ + certificate
        + "\"\ncluster-dns-ip = \""@ + cluster_dns_ip + "\""@
}

/// The TOML of the default user data for an ECS container instance.
pub open spec fn ecs_userdata_text(cluster_name: Seq<char>) -> Seq<char> {
    "[settings.ecs]\ncluster = \""@ + cluster_name + "\""@
}

/// The TOML of the default user data for a vSphere VM that joins a Kubernetes cluster.
pub open spec fn vsphere_userdata_text(
    endpoint: Seq<char>,
    cluster_dns_ip: Seq<char>,
    bootstrap_token: Seq<char>,
    certificate: Seq<char>,
    control_container_userdata: Seq<char>,
) -> Seq<char> {
    "[settings.updates]\nignore-waves = true\n\n[settings.host-containers.control]\nenabled = true\nuser-data = \""@
        + control_container_userdata
        + "\"\n\n[settings.kubernetes]\napi-server = \"https://"@ + endpoint
        + ":6443\"\ncluster-dns-ip = \""@ + cluster_dns_ip + "\"\nbootstrap-token = \""@
        + bootstrap_token + "\"\ncluster-certificate = \""@ + certificate + "\""@
}

/// Whether base64-encoding text of this many characters cannot overflow (a UTF-8 character
/// takes at most four bytes).
pub open spec fn encodable(n: nat) -> bool {
    n <= usize::MAX / 8
}

proof fn lemma_encodable(t: Seq<char>)
    requires
        encodable(t.len()),
    ensures
        (encode_utf8(t).len() / 3 + 1) * 4 <= usize::MAX,
{
    lemma_encode_utf8_len(t);
}

proof fn lemma_encode_utf8_len(t: Seq<char>)
    ensures
        encode_utf8(t).len() <= 4 * t.len(),
    decreases t.len(),
{
    if t.len() > 0 {
        lemma_encode_utf8_len(t.drop_first());
        assert(vstd::utf8::encode_scalar(t[0] as u32).len() <= 4);
    }
}

/// The SSM settings of the control container: its activation, in the region `us-west-2`.
pub open spec fn ssm_settings(activation_id: Seq<char>, activation_code: Seq<char>) -> DocView {
    DocView::Mapping(
        seq![
            (
                DocView::Text("ssm"@),
                DocView::Mapping(
                    seq![
                        (DocView::Text("activation-id"@), DocView::Text(activation_id)),
                        (DocView::Text("activation-code"@), DocView::Text(activation_code)),
                        (DocView::Text("region"@), DocView::Text("us-west-2"@)),
                    ],
                ),
            ),
        ],
    )
}

fn text_entry(key: &str, value: &str) -> (r: (Doc, Doc))
    ensures
        r.0@ == DocView::Text(key@),
        r.1@ == DocView::Text(value@),
{
    (Doc::Text(owned(key)), Doc::Text(owned(value)))
}

/// The user data of the control container, which registers the host with SSM: the base64 text
/// of the compact JSON of its SSM settings. `None` only where that JSON would be too long to
/// encode.
pub fn control_container_userdata(activation_id: &str, activation_code: &str) -> (r: Option<
    String,
>)
    ensures
        match r {
            Some(s) => s@ == encoded_text(json_compact(ssm_settings(activation_id@, activation_code@)))
                && decoded_text(s@) == Some(json_compact(ssm_settings(activation_id@, activation_code@))),
            None => !encodable(json_compact(ssm_settings(activation_id@, activation_code@)).len()),
        },
{
    let mut inner: Vec<(Doc, Doc)> = Vec::new();
    inner.push(text_entry("activation-id", activation_id));
    inner.push(text_entry("activation-code", activation_code));
    inner.push(text_entry("region", "us-west-2"));
    let ssm = mapping_of(inner);
    let ghost ssm_view = ssm@;
    let mut outer: Vec<(Doc, Doc)> = Vec::new();
    outer.push((Doc::Text(owned("ssm")), ssm));
    proof {
        assert(entry_views(inner@) =~= seq![
            (DocView::Text("activation-id"@), DocView::Text(activation_id@)),
            (DocView::Text("activation-code"@), DocView::Text(activation_code@)),
            (DocView::Text("region"@), DocView::Text("us-west-2"@)),
        ]);
    }
    let settings = mapping_of(outer);
    proof {
        assert(entry_views(outer@) =~= seq![(DocView::Text("ssm"@), ssm_view)]);
        assert(settings@ == ssm_settings(activation_id@, activation_code@));
    }
    let text = json_text(&settings);
    if text.unicode_len() <= usize::MAX / 8 {
        proof {
            lemma_encodable(text@);
        }
        Some(encode_text(text.as_str()))
    } else {
        None
    }
}

/// Default user data for an EKS node: the endpoint, certificate and cluster DNS IP are required.
pub fn default_eks_userdata(
    cluster_name: &str,
    endpoint: &Option<String>,
    certificate: &Option<String>,
    cluster_dns_ip: &Option<String>,
    resources: Resources,
) -> (r: Result<String, ProviderError>)
    requires
        encodable(eks_userdata_text(
            match endpoint { Some(e) => e@, None => Seq::empty() },
            cluster_name@,
            match certificate { Some(c) => c@, None => Seq::empty() },
            match cluster_dns_ip { Some(d) => d@, None => Seq::empty() },
        ).len()),
    ensures
        r matches Ok(s) ==> endpoint is Some && certificate is Some && cluster_dns_ip is Some
            && s@ == encoded_text(
            eks_userdata_text(endpoint->0@, cluster_name@, certificate->0@, cluster_dns_ip->0@),
        ) && decoded_text(s@) == Some(
            eks_userdata_text(endpoint->0@, cluster_name@, certificate->0@, cluster_dns_ip->0@),
        ),
        r is Err <==> endpoint is None || certificate is None || cluster_dns_ip is None,
        r matches Err(e) ==> e.resources == resources && e.context@ == if endpoint is None {
            "Server endpoint is required for eks clusters."@
        } else if certificate is None {
            "Cluster certificate is required for eks clusters."@
        } else {
            "Cluster DNS IP is required for eks clusters."@
        },
{
    let endpoint = match endpoint {
        Some(e) => e,
        None => {
            let mut msg = String::new();
            msg.append("Server endpoint is required for eks clusters.");
            return Err(ProviderError::new_with_context(resources, msg));
        },
    };
    let certificate = match certificate {
        Some(c) => c,
        None => {
            let mut msg = String::new();
            msg.append("Cluster certificate is required for eks clusters.");
            return Err(ProviderError::new_with_context(resources, msg));
        },
    };
    let cluster_dns_ip = match cluster_dns_ip {
        Some(d) => d,
        None => {
            let mut msg = String::new();
            msg.append("Cluster DNS IP is required for eks clusters.");
            return Err(ProviderError::new_with_context(resources, msg));
        },
    };
    let mut t = String::new();
    t.append("[settings.updates]\nignore-waves = true\n\n[settings.kubernetes]\napi-server = \"");
    t.append(endpoint.as_str());
    t.append("\"\ncluster-name = \"");
    t.append(cluster_name);
    t.append("\"\ncluster-certificate = \"");
    t.append(certificate.as_str());
    t.append("\"\ncluster-dns-ip = \"");
    t.append(cluster_dns_ip.as_str());
    t.append("\"");
    assert(t@ =~= eks_userdata_text(endpoint@, cluster_name@, certificate@, cluster_dns_ip@));
    proof {
        lemma_encodable(t@);
    }
    Ok(encode_text(t.as_str()))
}

/// Default user data for an ECS container instance.
pub fn default_ecs_userdata(cluster_name: &str) -> (r: String)
    requires
        encodable(ecs_userdata_text(cluster_name@).len()),
    ensures
        r@ == encoded_text(ecs_userdata_text(cluster_name@)),
        decoded_text(r@) == Some(ecs_userdata_text(cluster_name@)),
{
    let mut t = String::new();
    t.append("[settings.ecs]\ncluster = \"");
    t.append(cluster_name);
    t.append("\"");
    assert(t@ =~= ecs_userdata_text(cluster_name@));
    proof {
        lemma_encodable(t@);
    }
    encode_text(t.as_str())
}

/// Default user data for a vSphere VM joining the cluster at `endpoint`.
pub fn default_userdata(
    endpoint: &str,
    cluster_dns_ip: &str,
    bootstrap_token: &str,
    certificate: &str,
    control_container_userdata: &str,
) -> (r: String)
    requires
        encodable(
            vsphere_userdata_text(
                endpoint@,
                cluster_dns_ip@,
                bootstrap_token@,
                certificate@,
                control_container_userdata@,
            ).len(),
        ),
    ensures
        r@ == encoded_text(
            vsphere_userdata_text(
                endpoint@,
                cluster_dns_ip@,
                bootstrap_token@,
                certificate@,
                control_container_userdata@,
            ),
        ),
        decoded_text(r@) == Some(
            vsphere_userdata_text(
                endpoint@,
                cluster_dns_ip@,
                bootstrap_token@,
                certificate@,
                control_container_userdata@,
            ),
        ),
{
    let mut t = String::new();
    t.append(
        "[settings.updates]\nignore-waves = true\n\n[settings.host-containers.control]\nenabled = true\nuser-data = \"",
    );
    t.append(control_container_userdata);
    t.append("\"\n\n[settings.kubernetes]\napi-server = \"https://");
    t.append(endpoint);
    t.append(":6443\"\ncluster-dns-ip = \"");
    t.append(cluster_dns_ip);
    t.append("\"\nbootstrap-token = \"");
    t.append(bootstrap_token);
    t.append("\"\ncluster-certificate = \"");
    t.append(certificate);
    t.append("\"");
    assert(t@ =~= vsphere_userdata_text(
        endpoint@,
        cluster_dns_ip@,
        bootstrap_token@,
        certificate@,
        control_container_userdata@,
    ));
    proof {
        lemma_encodable(t@);
    }
    encode_text(t.as_str())
}

/// How the user data given with a resource combines with the default user data.
#[derive(Clone, Debug, PartialEq, Eq)]
pub enum CustomUserData {
    /// The given (base64-encoded) user data replaces the default.
    Replace { encoded_userdata: String },
    /// The given (base64-encoded TOML) user data is merged into the default.
    Merge { encoded_userdata: String },
}

/// The TOML text of the custom user data `custom` merged into the default user data `default`
/// (both base64-encoded TOML), or the message of the step that failed: decoding or reading
/// either, merging, or writing the result.
pub open spec fn merged_userdata_spec(default: Seq<char>, custom: Seq<char>) -> Result<
    Seq<char>,
    Seq<char>,
> {
    match decoded_text(default) {
        None => Err("Failed to decode base64 TOML"@),
        Some(dt) => match toml_read(dt) {
            None => Err("Failed to parse TOML"@),
            Some(into) => match decoded_text(custom) {
                None => Err("Failed to decode base64 TOML"@),
                Some(ct) => match toml_read(ct) {
                    None => Err("Failed to parse TOML"@),
                    Some(from) => {
                        let (m, ok) = merged(from, into);
                        if !ok {
                            Err("Failed to merge TOML"@)
                        } else {
                            match toml_printed(m) {
                                None => Err("Failed to serialize merged TOML"@),
                                Some(t) => Ok(t),
                            }
                        }
                    },
                },
            },
        },
    }
}

/// Whether `r` is the encoded merged user data that `merged_userdata_spec` gives, with every
/// failure leaving nothing behind; `None` only where the merged text is too long to encode.
pub open spec fn is_merged_userdata(
    r: Option<Result<String, ProviderError>>,
    default: Seq<char>,
    custom: Seq<char>,
) -> bool {
    match merged_userdata_spec(default, custom) {
        Err(m) => r matches Some(Err(e)) && e.resources == Resources::Clear && e.context@ == m,
        Ok(t) => if encodable(t.len()) {
            r matches Some(Ok(s)) && s@ == encoded_text(t) && decoded_text(s@) == Some(t)
        } else {
            r is None
        },
    }
}

fn failed(message: &str) -> (e: ProviderError)
    ensures
        e.resources == Resources::Clear,
        e.context@ == message@,
{
    ProviderError::new_with_context(Resources::Clear, owned(message))
}

/// Merges the custom user data `custom` into the default user data `default` (both
/// base64-encoded TOML) and encodes the result.
pub fn merged_userdata(default: &String, custom: &String) -> (r: Option<
    Result<String, ProviderError>,
>)
    ensures
        is_merged_userdata(r, default@, custom@),
{
    let default_text = match decode_to_string(default) {
        Ok(t) => t,
        Err(e) => {
            return Some(Err(e));
        },
    };
    let mut merge_into = match read_toml(default_text.as_str()) {
        Some(v) => v,
        None => {
            return Some(Err(failed("Failed to parse TOML")));
        },
    };
    let custom_text = match decode_to_string(custom) {
        Ok(t) => t,
        Err(e) => {
            return Some(Err(e));
        },
    };
    let merge_from = match read_toml(custom_text.as_str()) {
        Some(v) => v,
        None => {
            return Some(Err(failed("Failed to parse TOML")));
        },
    };
    match merge_values(&merge_from, &mut merge_into) {
        Ok(()) => {},
        Err(_) => {
            return Some(Err(failed("Failed to merge TOML")));
        },
    }
    let text = match toml_text(&merge_into) {
        Some(t) => t,
        None => {
            return Some(Err(failed("Failed to serialize merged TOML")));
        },
    };
    if text.unicode_len() <= usize::MAX / 8 {
        proof {
            lemma_encodable(text@);
        }
        Some(Ok(encode_text(text.as_str())))
    } else {
        None
    }
}

/// The default user data of an EC2 instance of a cluster of `cluster_type`.
pub open spec fn default_userdata_for(
    cluster_type: ClusterType,
    cluster_name: Seq<char>,
    endpoint: Seq<char>,
    certificate: Seq<char>,
    cluster_dns_ip: Seq<char>,
) -> Seq<char> {
    if cluster_type == ClusterType::Eks {
        encoded_text(eks_userdata_text(endpoint, cluster_name, certificate, cluster_dns_ip))
    } else {
        encoded_text(ecs_userdata_text(cluster_name))
    }
}

/// The user data of an EC2 instance of a cluster of `cluster_type`: the encoded default for its
/// cluster type, replaced by the custom user data or with the custom user data merged into it.
/// Without the endpoint, certificate or cluster DNS IP of an EKS cluster it fails with
/// `resources`; a failed merge leaves nothing behind. `None` only where the merged text is too
/// long to encode.
pub fn userdata(
    cluster_type: &ClusterType,
    cluster_name: &str,
    endpoint: &Option<String>,
    certificate: &Option<String>,
    cluster_dns_ip: &Option<String>,
    custom_user_data: &Option<CustomUserData>,
    resources: Resources,
) -> (r: Option<Result<String, ProviderError>>)
    requires
        encodable(eks_userdata_text(
            match endpoint { Some(e) => e@, None => Seq::empty() },
            cluster_name@,
            match certificate { Some(c) => c@, None => Seq::empty() },
            match cluster_dns_ip { Some(d) => d@, None => Seq::empty() },
        ).len()),
        encodable(ecs_userdata_text(cluster_name@).len()),
    ensures
        *cluster_type == ClusterType::Eks && (endpoint is None || certificate is None
            || cluster_dns_ip is None) ==> (r matches Some(Err(e)) && e.resources == resources
            && e.context@ == if endpoint is None {
            "Server endpoint is required for eks clusters."@
        } else if certificate is None {
            "Cluster certificate is required for eks clusters."@
        } else {
            "Cluster DNS IP is required for eks clusters."@
        }),
        !(*cluster_type == ClusterType::Eks && (endpoint is None || certificate is None
            || cluster_dns_ip is None)) ==> {
            let default = default_userdata_for(
                *cluster_type,
                cluster_name@,
                endpoint->0@,
                certificate->0@,
                cluster_dns_ip->0@,
            );
            match custom_user_data {
                None => r matches Some(Ok(s)) && s@ == default,
                Some(CustomUserData::Replace { encoded_userdata }) => r matches Some(Ok(s)) && s@
                    == encoded_userdata@,
                Some(CustomUserData::Merge { encoded_userdata }) => is_merged_userdata(
                    r,
                    default,
                    encoded_userdata@,
                ),
            }
        },
{
    let default = match cluster_type {
        ClusterType::Eks => match default_eks_userdata(
            cluster_name,
            endpoint,
            certificate,
            cluster_dns_ip,
            resources,
        ) {
            Ok(d) => d,
            Err(e) => {
                return Some(Err(e));
            },
        },
        ClusterType::Ecs => default_ecs_userdata(cluster_name),
    };
    match custom_user_data {
        None => Some(Ok(default)),
        Some(CustomUserData::Replace { encoded_userdata }) => Some(Ok(encoded_userdata.clone())),
        Some(CustomUserData::Merge { encoded_userdata }) => merged_userdata(
            &default,
            encoded_userdata,
        ),
    }
}

} // verus!
