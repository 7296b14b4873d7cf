//! The signing collaborator: a signer handle is built once, at context
//! construction time, around the canonical resource the addressing style
//! selected. The signing itself happens outside this layer, at send time.

use vstd::prelude::*;

verus! {

#[verifier::external_type_specification]
#[verifier::external_body]
pub struct ExObsSigner(reqsign::HuaweicloudObsSigner);

/// Relies on reqsign's OBS signer builder: `build` fails only when no
/// bucket was supplied, and the canonical resource is always passed as the
/// bucket here, so a signer is always produced. Nothing is claimed about
/// the signer value itself.
#[verifier::external_body]
pub(crate) fn new_obs_signer(
    resource: &str,
    access_key_id: &Option<String>,
    secret_access_key: &Option<String>,
) -> reqsign::HuaweicloudObsSigner {
    let mut b = reqsign::HuaweicloudObsSigner::builder();
    if let Some(ak) = access_key_id {
        b.access_key(ak);
    }
    if let Some(sk) = secret_access_key {
        b.secret_key(sk);
    }
    b.bucket(resource);
    b.build().expect("the bucket is always supplied")
}

} // verus!
