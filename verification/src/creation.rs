//! Whether a cluster resource has to be created, given whether it exists and its creation policy.

use crate::agent_config::{creation_policy_debug_text, CreationPolicy};
use crate::provider::{ProviderError, Resources};
use vstd::prelude::*;

verus! {

/// The decision for a cluster named `name` that does (or does not) exist under policy `p`:
/// whether to create it and why, or why the policy forbids going on.
pub open spec fn creation_decision(exists: bool, name: Seq<char>, p: CreationPolicy) -> Result<
    (bool, Seq<char>),
    Seq<char>,
> {
    let policy = creation_policy_debug_text(p);
    if p == CreationPolicy::Create && exists {
        Err(
            "The cluster '"@ + name + "' already exists and creation policy '"@ + policy
                + "' requires that it does not exist"@,
        )
    } else if p == CreationPolicy::Never && !exists {
        Err(
            "The cluster '"@ + name + "' does not exist and creation policy '"@ + policy
                + "' requires that it exists"@,
        )
    } else if p == CreationPolicy::Create || (p == CreationPolicy::IfNotExists && !exists) {
        Ok(
            (
                true,
                "Creation policy is '"@ + policy + "' and cluster '"@ + name
                    + "' does not exist: creating cluster"@,
            ),
        )
    } else {
        Ok(
            (
                false,
                "Creation policy is '"@ + policy + "' and cluster '"@ + name
                    + "' exists: not creating cluster"@,
            ),
        )
    }
}

/// Determines whether a cluster resource needs to be created given its creation policy.
/// Returns whether to create it and a message that explains why, or an error (with nothing left
/// behind) when the policy forbids the situation.
pub fn is_cluster_creation_required(
    cluster_exists: &bool,
    cluster_name: &str,
    creation_policy: &CreationPolicy,
) -> (r: Result<(bool, String), ProviderError>)
    ensures
        r matches Ok((create, msg)) ==> creation_decision(*cluster_exists, cluster_name@, *creation_policy)
            == Ok::<(bool, Seq<char>), Seq<char>>((create, msg@)),
        r matches Err(e) ==> e.resources == Resources::Clear && creation_decision(
            *cluster_exists,
            cluster_name@,
            *creation_policy,
        ) == Err::<(bool, Seq<char>), Seq<char>>(e.context@),
        // A cluster is created exactly when it does not exist and the policy allows creating it;
        // the policy is violated exactly when `Create` meets an existing cluster or `Never` a
        // missing one.
        r is Err <==> (*creation_policy == CreationPolicy::Create && *cluster_exists) || (
        *creation_policy == CreationPolicy::Never && !*cluster_exists),
        r matches Ok((create, _)) ==> (create <==> !*cluster_exists && *creation_policy
            != CreationPolicy::Never),
{
    let policy = creation_policy.debug_name();
    let exists = *cluster_exists;
    let mut msg = String::new();
    match creation_policy {
        CreationPolicy::Create if exists => {
            msg.append("The cluster '");
            msg.append(cluster_name);
            msg.append("' already exists and creation policy '");
            msg.append(policy);
            msg.append("' requires that it does not exist");
            Err(ProviderError::new_with_context(Resources::Clear, msg))
        },
        CreationPolicy::Never if !exists => {
            msg.append("The cluster '");
            msg.append(cluster_name);
            msg.append("' does not exist and creation policy '");
            msg.append(policy);
            msg.append("' requires that it exists");
            Err(ProviderError::new_with_context(Resources::Clear, msg))
        },
        CreationPolicy::Create => {
            msg.append("Creation policy is '");
            msg.append(policy);
            msg.append("' and cluster '");
            msg.append(cluster_name);
            msg.append("' does not exist: creating cluster");
            Ok((true, msg))
        },
        CreationPolicy::IfNotExists if !exists => {
            msg.append("Creation policy is '");
            msg.append(policy);
            msg.append("' and cluster '");
            msg.append(cluster_name);
            msg.append("' does not exist: creating cluster");
            Ok((true, msg))
        },
        _ => {
            msg.append("Creation policy is '");
            msg.append(policy);
            msg.append("' and cluster '");
            msg.append(cluster_name);
            msg.append("' exists: not creating cluster");
            Ok((false, msg))
        },
    }
}

} // verus!
